//! The modes a light can be put in: power, preset scenes, and the context that
//! was set last.

use vstd::prelude::*;

verus! {

/// Describes a potential emitting state of a light.
#[derive(Clone, Copy, Debug, PartialEq, Eq, Structural)]
pub enum PowerMode {
    /// Send a reboot command to the light
    Reboot,
    /// Tell the bulb to emit light
    On,
    /// Tell the bulb to stop emitting light
    Off,
}

impl PowerMode {
    /// Whether a light emits once this power change was applied: every mode
    /// but `Off` leaves it emitting.
    pub open spec fn emits(self) -> bool {
        self != PowerMode::Off
    }

    /// Whether a light emits once this power change was applied.
    pub fn is_emitting(&self) -> (on: bool)
        ensures
            on == self.emits(),
    {
        match self {
            PowerMode::Off => false,
            _ => true,
        }
    }
}

/// Preset lighting modes. Each has the number by which the device knows it,
/// from 1 for `Ocean` to 33 for `Diwali`.
#[derive(Clone, Copy, Debug, PartialEq, Eq, Structural)]
pub enum SceneMode {
    Ocean,
    Romance,
    Sunset,
    Party,
    Fireplace,
    Cozy,
    Forest,
    PastelColors,
    WakeUp,
    Bedtime,
    WarmWhite,
    Daylight,
    CoolWhite,
    NightLight,
    Focus,
    Relax,
    TrueColors,
    TvTime,
    Plantgrowth,
    Spring,
    Summer,
    Fall,
    Deepdive,
    Jungle,
    Mojito,
    Club,
    Christmas,
    Halloween,
    Candlelight,
    GoldenWhite,
    Pulse,
    Steampunk,
    Diwali,
}

impl SceneMode {
    /// The number by which the device knows this scene.
    pub open spec fn spec_id(&self) -> u8 {
        match self {
            SceneMode::Ocean => 1,
            SceneMode::Romance => 2,
            SceneMode::Sunset => 3,
            SceneMode::Party => 4,
            SceneMode::Fireplace => 5,
            SceneMode::Cozy => 6,
            SceneMode::Forest => 7,
            SceneMode::PastelColors => 8,
            SceneMode::WakeUp => 9,
            SceneMode::Bedtime => 10,
            SceneMode::WarmWhite => 11,
            SceneMode::Daylight => 12,
            SceneMode::CoolWhite => 13,
            SceneMode::NightLight => 14,
            SceneMode::Focus => 15,
            SceneMode::Relax => 16,
            SceneMode::TrueColors => 17,
            SceneMode::TvTime => 18,
            SceneMode::Plantgrowth => 19,
            SceneMode::Spring => 20,
            SceneMode::Summer => 21,
            SceneMode::Fall => 22,
            SceneMode::Deepdive => 23,
            SceneMode::Jungle => 24,
            SceneMode::Mojito => 25,
            SceneMode::Club => 26,
            SceneMode::Christmas => 27,
            SceneMode::Halloween => 28,
            SceneMode::Candlelight => 29,
            SceneMode::GoldenWhite => 30,
            SceneMode::Pulse => 31,
            SceneMode::Steampunk => 32,
            SceneMode::Diwali => 33,
        }
    }

    /// The scene that the device knows by `value`, if there is one.
    pub open spec fn of_id(value: u8) -> Option<SceneMode> {
        match value {
            1 => Some(SceneMode::Ocean),
            2 => Some(SceneMode::Romance),
            3 => Some(SceneMode::Sunset),
            4 => Some(SceneMode::Party),
            5 => Some(SceneMode::Fireplace),
            6 => Some(SceneMode::Cozy),
            7 => Some(SceneMode::Forest),
            8 => Some(SceneMode::PastelColors),
            9 => Some(SceneMode::WakeUp),
            10 => Some(SceneMode::Bedtime),
            11 => Some(SceneMode::WarmWhite),
            12 => Some(SceneMode::Daylight),
            13 => Some(SceneMode::CoolWhite),
            14 => Some(SceneMode::NightLight),
            15 => Some(SceneMode::Focus),
            16 => Some(SceneMode::Relax),
            17 => Some(SceneMode::TrueColors),
            18 => Some(SceneMode::TvTime),
            19 => Some(SceneMode::Plantgrowth),
            20 => Some(SceneMode::Spring),
            21 => Some(SceneMode::Summer),
            22 => Some(SceneMode::Fall),
            23 => Some(SceneMode::Deepdive),
            24 => Some(SceneMode::Jungle),
            25 => Some(SceneMode::Mojito),
            26 => Some(SceneMode::Club),
            27 => Some(SceneMode::Christmas),
            28 => Some(SceneMode::Halloween),
            29 => Some(SceneMode::Candlelight),
            30 => Some(SceneMode::GoldenWhite),
            31 => Some(SceneMode::Pulse),
            32 => Some(SceneMode::Steampunk),
            33 => Some(SceneMode::Diwali),
            _ => None,
        }
    }

    /// The number by which the device knows this scene.
    #[verifier::when_used_as_spec(spec_id)]
    pub fn id(&self) -> (value: u8)
        ensures
            value == self.spec_id(),
            1 <= value <= 33,
    {
        match self {
            SceneMode::Ocean => 1,
            SceneMode::Romance => 2,
            SceneMode::Sunset => 3,
            SceneMode::Party => 4,
            SceneMode::Fireplace => 5,
            SceneMode::Cozy => 6,
            SceneMode::Forest => 7,
            SceneMode::PastelColors => 8,
            SceneMode::WakeUp => 9,
            SceneMode::Bedtime => 10,
            SceneMode::WarmWhite => 11,
            SceneMode::Daylight => 12,
            SceneMode::CoolWhite => 13,
            SceneMode::NightLight => 14,
            SceneMode::Focus => 15,
            SceneMode::Relax => 16,
            SceneMode::TrueColors => 17,
            SceneMode::TvTime => 18,
            SceneMode::Plantgrowth => 19,
            SceneMode::Spring => 20,
            SceneMode::Summer => 21,
            SceneMode::Fall => 22,
            SceneMode::Deepdive => 23,
            SceneMode::Jungle => 24,
            SceneMode::Mojito => 25,
            SceneMode::Club => 26,
            SceneMode::Christmas => 27,
            SceneMode::Halloween => 28,
            SceneMode::Candlelight => 29,
            SceneMode::GoldenWhite => 30,
            SceneMode::Pulse => 31,
            SceneMode::Steampunk => 32,
            SceneMode::Diwali => 33,
        }
    }

    /// The scene with the given number; none for a number outside 1 to 33.
    pub fn create(value: u8) -> (r: Option<Self>)
        ensures
            r == Self::of_id(value),
            r is Some <==> 1 <= value <= 33,
            r matches Some(scene) ==> scene.spec_id() == value,
    {
        match value {
            1 => Some(SceneMode::Ocean),
            2 => Some(SceneMode::Romance),
            3 => Some(SceneMode::Sunset),
            4 => Some(SceneMode::Party),
            5 => Some(SceneMode::Fireplace),
            6 => Some(SceneMode::Cozy),
            7 => Some(SceneMode::Forest),
            8 => Some(SceneMode::PastelColors),
            9 => Some(SceneMode::WakeUp),
            10 => Some(SceneMode::Bedtime),
            11 => Some(SceneMode::WarmWhite),
            12 => Some(SceneMode::Daylight),
            13 => Some(SceneMode::CoolWhite),
            14 => Some(SceneMode::NightLight),
            15 => Some(SceneMode::Focus),
            16 => Some(SceneMode::Relax),
            17 => Some(SceneMode::TrueColors),
            18 => Some(SceneMode::TvTime),
            19 => Some(SceneMode::Plantgrowth),
            20 => Some(SceneMode::Spring),
            21 => Some(SceneMode::Summer),
            22 => Some(SceneMode::Fall),
            23 => Some(SceneMode::Deepdive),
            24 => Some(SceneMode::Jungle),
            25 => Some(SceneMode::Mojito),
            26 => Some(SceneMode::Club),
            27 => Some(SceneMode::Christmas),
            28 => Some(SceneMode::Halloween),
            29 => Some(SceneMode::Candlelight),
            30 => Some(SceneMode::GoldenWhite),
            31 => Some(SceneMode::Pulse),
            32 => Some(SceneMode::Steampunk),
            33 => Some(SceneMode::Diwali),
            _ => None,
        }
    }

    /// All scenes, in the order of their numbers.
    pub fn all() -> (scenes: Vec<SceneMode>)
        ensures
            scenes@.len() == 33,
            forall|i: int| 0 <= i < 33 ==> Self::of_id((i + 1) as u8) == Some(#[trigger] scenes@[i]),
    {
        let mut scenes: Vec<SceneMode> = Vec::new();
        let mut value: u8 = 1;
        while value <= 33
            invariant
                1 <= value <= 34,
                scenes@.len() == value - 1,
                forall|i: int|
                    0 <= i < value - 1 ==> Self::of_id((i + 1) as u8) == Some(#[trigger] scenes@[i]),
            decreases 34 - value,
        {
            match Self::create(value) {
                Some(scene) => scenes.push(scene),
                None => {},
            }
            value = value + 1;
        }
        scenes
    }

    /// A scene and its number determine each other.
    pub proof fn lemma_id_roundtrip(scene: SceneMode)
        ensures
            1 <= scene.spec_id() <= 33,
            Self::of_id(scene.spec_id()) == Some(scene),
    {
    }
}

/// The last context set on the light that this library is aware of.
///
/// This can be out of date: the library is not the only way to change the
/// state of a bulb, and nothing polls the bulb.
#[derive(Clone, Copy, Debug, PartialEq, Eq, Structural)]
pub enum LastSet {
    /// The last set context was an RGB color
    Color,
    /// The last set context was a SceneMode
    Scene,
    /// The last set context was a Kelvin temperature
    Temp,
    /// The last set context was a cool white value
    Cool,
    /// The last set context was a warm white value
    Warm,
}

} // verus!
