//! The cached status of a light, and the rules by which the outcome of a
//! device round trip is merged into it.
//!
//! A light reports only part of its state, so the cache also tracks what was
//! last sent to it. Settings that a new result does not speak of are kept.

use vstd::prelude::*;
use vstd::std_specs::convert::FromSpecImpl;

use crate::models::color::{Color, Rgb};
use crate::models::payload::{value_of, Payload, Settings};
use crate::models::scene::{LastSet, PowerMode, SceneMode};
use crate::models::settings::{Brightness, Kelvin, Speed, White};

verus! {

/// The second value where there is one, else the first: a setting that a new
/// result speaks of replaces the known one, and any other is kept.
pub open spec fn replaced_by<T>(known: Option<T>, new: Option<T>) -> Option<T> {
    if new is Some {
        new
    } else {
        known
    }
}

/// The context after settings were applied. The settings are taken in the
/// order scene, color, temperature, cool white, warm white, and each one
/// that is asked for sets the context, so the last of them decides. Settings
/// that ask for none of them leave the context as it was known.
pub open spec fn merged_context(known: Option<LastSet>, s: Settings) -> Option<LastSet> {
    if s.warm is Some {
        Some(LastSet::Warm)
    } else if s.cool is Some {
        Some(LastSet::Cool)
    } else if s.temp is Some {
        Some(LastSet::Temp)
    } else if s.color is Some {
        Some(LastSet::Color)
    } else if s.scene is Some {
        Some(LastSet::Scene)
    } else {
        known
    }
}

/// What a light says of itself when asked for its status.
///
/// Speed and temperature are never reported: they can only be tracked from
/// what was last sent.
#[derive(Clone, Debug, PartialEq, Eq)]
pub struct BulbStatusResult {
    /// red (0-255)
    pub red: Option<u8>,
    /// green (0-255)
    pub green: Option<u8>,
    /// blue (0-255)
    pub blue: Option<u8>,
    /// dimming percent (0-100)
    pub dimming: Option<u8>,
    /// bulb wifi mac address
    pub mac: String,
    /// true when bulb state is on
    pub emitting: bool,
    /// current scene ID, zero if not playing a scene
    pub scene: u8,
    /// bulb's wifi signal strength
    pub rssi: i32,
    /// bulb's cool white value
    pub cool: Option<u8>,
    /// bulb's warm white value
    pub warm: Option<u8>,
}

impl BulbStatusResult {
    /// The reported color: there is one when all three channels are reported.
    pub open spec fn color(&self) -> Option<Rgb> {
        match (self.red, self.green, self.blue) {
            (Some(red), Some(green), Some(blue)) => Some(Rgb { red, green, blue }),
            _ => None,
        }
    }

    /// The reported color, when all three channels are reported.
    pub fn get_color(&self) -> (r: Option<Color>)
        ensures
            value_of(r) == self.color(),
    {
        if let (Some(red), Some(green), Some(blue)) = (self.red, self.green, self.blue) {
            Some(Color::rgb(red, green, blue))
        } else {
            None
        }
    }
}

/// Bulb status, as reported by the bulb.
///
/// This is only what the bulb reports. It is merged into a [`LightStatus`],
/// which also tracks the settings that the bulb accepts but does not report.
#[derive(Clone, Debug, PartialEq, Eq)]
pub struct BulbStatus {
    pub env: String,
    pub method: String,
    pub result: BulbStatusResult,
}

/// The last known settings of a light, as plain values.
pub struct StatusModel {
    pub color: Option<Rgb>,
    pub brightness: Option<u8>,
    pub emitting: bool,
    pub scene: Option<SceneMode>,
    pub speed: Option<u8>,
    pub temp: Option<u16>,
    pub cool: Option<u8>,
    pub warm: Option<u8>,
    pub last: Option<LastSet>,
}

/// `value`, where it lies between `low` and `high`.
pub open spec fn within(value: u8, low: u8, high: u8) -> Option<u8> {
    if low <= value <= high {
        Some(value)
    } else {
        None
    }
}

impl StatusModel {
    /// This status after the status `other` was merged into it. What `other`
    /// knows replaces what was known, and what it does not know is kept. The
    /// emitting flag is always known, and is taken from `other`.
    pub open spec fn merge(self, other: StatusModel) -> StatusModel {
        StatusModel {
            color: replaced_by(self.color, other.color),
            brightness: replaced_by(self.brightness, other.brightness),
            emitting: other.emitting,
            scene: replaced_by(self.scene, other.scene),
            speed: replaced_by(self.speed, other.speed),
            temp: replaced_by(self.temp, other.temp),
            cool: replaced_by(self.cool, other.cool),
            warm: replaced_by(self.warm, other.warm),
            last: replaced_by(self.last, other.last),
        }
    }

    /// This status after the settings `s` were applied to the light. Each
    /// setting asked for replaces the known one, the others are kept, and so
    /// is the emitting flag.
    pub open spec fn apply_settings(self, s: Settings) -> StatusModel {
        StatusModel {
            color: replaced_by(self.color, s.color),
            brightness: replaced_by(self.brightness, s.brightness),
            emitting: self.emitting,
            scene: replaced_by(self.scene, s.scene),
            speed: replaced_by(self.speed, s.speed),
            temp: replaced_by(self.temp, s.temp),
            cool: replaced_by(self.cool, s.cool),
            warm: replaced_by(self.warm, s.warm),
            last: merged_context(self.last, s),
        }
    }

    /// This status after the power change `power` was applied to the light:
    /// the emitting flag is overwritten and nothing else changes.
    pub open spec fn apply_power(self, power: PowerMode) -> StatusModel {
        StatusModel { emitting: power.emits(), ..self }
    }

    /// The status of a light of which only the settings `s`, just applied,
    /// are known. It is taken to be emitting.
    pub open spec fn of_settings(s: Settings) -> StatusModel {
        StatusModel {
            color: s.color,
            brightness: s.brightness,
            emitting: true,
            scene: s.scene,
            speed: s.speed,
            temp: s.temp,
            cool: s.cool,
            warm: s.warm,
            last: merged_context(None, s),
        }
    }

    /// The status of a light of which only the power change `power`, just
    /// applied, is known.
    pub open spec fn of_power(power: PowerMode) -> StatusModel {
        StatusModel {
            color: None,
            brightness: None,
            emitting: power.emits(),
            scene: None,
            speed: None,
            temp: None,
            cool: None,
            warm: None,
            last: None,
        }
    }

    /// The status that a light's own report gives. Values outside their
    /// valid range count as not reported, and so does scene number zero.
    pub open spec fn of_report(report: BulbStatusResult) -> StatusModel {
        StatusModel {
            color: report.color(),
            brightness: match report.dimming {
                Some(v) => within(v, 10, 100),
                None => None,
            },
            emitting: report.emitting,
            scene: SceneMode::of_id(report.scene),
            speed: None,
            temp: None,
            cool: match report.cool {
                Some(v) => within(v, 1, 100),
                None => None,
            },
            warm: match report.warm {
                Some(v) => within(v, 1, 100),
                None => None,
            },
            last: None,
        }
    }

    /// Whether every known value lies in the range that its setting allows.
    pub open spec fn in_range(self) -> bool {
        &&& self.brightness matches Some(v) ==> Brightness::in_range(v)
        &&& self.speed matches Some(v) ==> Speed::in_range(v)
        &&& self.temp matches Some(v) ==> Kelvin::in_range(v)
        &&& self.cool matches Some(v) ==> White::in_range(v)
        &&& self.warm matches Some(v) ==> White::in_range(v)
    }
}

/// What a device round trip tells of a light, as plain values: the settings
/// or the power state that was just applied, or the light's own report.
pub enum Outcome {
    Settings(Settings),
    Power(PowerMode),
    Status(StatusModel),
}

impl Outcome {
    /// Whether this outcome names one of the contexts that exclude each
    /// other: scene, color, temperature, cool white, warm white.
    pub open spec fn sets_context(self) -> bool {
        match self {
            Outcome::Settings(s) => s.scene is Some || s.color is Some || s.temp is Some
                || s.cool is Some || s.warm is Some,
            Outcome::Power(_) => false,
            Outcome::Status(st) => st.last is Some,
        }
    }

    /// The status that this outcome has for each field it speaks of; the
    /// other fields are unknown in it.
    pub open spec fn told(self) -> StatusModel {
        match self {
            Outcome::Settings(s) => StatusModel::of_settings(s),
            Outcome::Power(p) => StatusModel::of_power(p),
            Outcome::Status(st) => st,
        }
    }
}

/// The cached status of a light after one outcome was taken in. With no
/// status known before, the outcome alone gives the status; else it is merged
/// into the known one.
pub open spec fn absorb(known: Option<StatusModel>, outcome: Outcome) -> StatusModel {
    match known {
        None => outcome.told(),
        Some(status) => match outcome {
            Outcome::Settings(s) => status.apply_settings(s),
            Outcome::Power(p) => status.apply_power(p),
            Outcome::Status(other) => status.merge(other),
        },
    }
}

/// Merging a status into itself yields the same status.
pub proof fn lemma_merge_idempotent(status: StatusModel)
    ensures
        status.merge(status) == status,
        absorb(Some(status), Outcome::Status(status)) == status,
{
}

/// A merge never discards a known value: a field that is known before an
/// outcome is taken in is known after it, whatever the outcome.
pub proof fn lemma_known_fields_stay_known(known: StatusModel, outcome: Outcome)
    ensures
        ({
            let after = absorb(Some(known), outcome);
            &&& known.color is Some ==> after.color is Some
            &&& known.brightness is Some ==> after.brightness is Some
            &&& known.speed is Some ==> after.speed is Some
            &&& known.temp is Some ==> after.temp is Some
            &&& known.cool is Some ==> after.cool is Some
            &&& known.warm is Some ==> after.warm is Some
            &&& known.last is Some ==> after.last is Some
            &&& known.scene is Some ==> after.scene is Some
        }),
{
}

/// When two outcomes are applied in sequence, the fields that are absent
/// from the second keep the value that the first left. The emitting flag is
/// absent from settings, everything but it is absent from a power change,
/// and the context is absent from an outcome that names none. This holds
/// with or without a status known before the first outcome.
pub proof fn lemma_absent_fields_are_retained(
    known: Option<StatusModel>,
    first: Outcome,
    second: Outcome,
)
    ensures
        ({
            let before = absorb(known, first);
            let after = absorb(Some(before), second);
            let told = second.told();
            &&& told.color is None ==> after.color == before.color
            &&& told.brightness is None ==> after.brightness == before.brightness
            &&& told.speed is None ==> after.speed == before.speed
            &&& told.temp is None ==> after.temp == before.temp
            &&& told.cool is None ==> after.cool == before.cool
            &&& told.warm is None ==> after.warm == before.warm
            &&& told.scene is None ==> after.scene == before.scene
            &&& second is Settings ==> after.emitting == before.emitting
            &&& !second.sets_context() ==> after.last == before.last
        }),
{
}

/// What an outcome does speak of replaces the known value: after it is taken
/// in, each field that it names holds the value it gave, and a power change
/// always overwrites the emitting flag.
pub proof fn lemma_present_fields_replace(known: Option<StatusModel>, outcome: Outcome)
    ensures
        ({
            let after = absorb(known, outcome);
            let told = outcome.told();
            &&& told.color is Some ==> after.color == told.color
            &&& told.brightness is Some ==> after.brightness == told.brightness
            &&& told.scene is Some ==> after.scene == told.scene
            &&& told.speed is Some ==> after.speed == told.speed
            &&& told.temp is Some ==> after.temp == told.temp
            &&& told.cool is Some ==> after.cool == told.cool
            &&& told.warm is Some ==> after.warm == told.warm
            &&& told.last is Some ==> after.last == told.last
            &&& outcome matches Outcome::Power(p) ==> after.emitting == p.emits()
            &&& outcome matches Outcome::Status(st) ==> after.emitting == st.emitting
        }),
{
}

/// Settings that name exactly one context set that context, whatever was
/// known before: only a scene sets it to scene, only a color to color, and
/// so on for temperature, cool white and warm white.
pub proof fn lemma_single_context(known: Option<StatusModel>, s: Settings)
    ensures
        ({
            let last = absorb(known, Outcome::Settings(s)).last;
            &&& s.scene is Some && s.color is None && s.temp is None && s.cool is None
                && s.warm is None ==> last == Some(LastSet::Scene)
            &&& s.scene is None && s.color is Some && s.temp is None && s.cool is None
                && s.warm is None ==> last == Some(LastSet::Color)
            &&& s.scene is None && s.color is None && s.temp is Some && s.cool is None
                && s.warm is None ==> last == Some(LastSet::Temp)
            &&& s.scene is None && s.color is None && s.temp is None && s.cool is Some
                && s.warm is None ==> last == Some(LastSet::Cool)
            &&& s.scene is None && s.color is None && s.temp is None && s.cool is None
                && s.warm is Some ==> last == Some(LastSet::Warm)
        }),
{
}

/// Whether the settings name the given context.
pub open spec fn names_context(s: Settings, context: LastSet) -> bool {
    match context {
        LastSet::Scene => s.scene is Some,
        LastSet::Color => s.color is Some,
        LastSet::Temp => s.temp is Some,
        LastSet::Cool => s.cool is Some,
        LastSet::Warm => s.warm is Some,
    }
}

/// The place of a context in the order in which settings are taken: scene,
/// color, temperature, cool white, warm white.
pub open spec fn rank(context: LastSet) -> int {
    match context {
        LastSet::Scene => 0,
        LastSet::Color => 1,
        LastSet::Temp => 2,
        LastSet::Cool => 3,
        LastSet::Warm => 4,
    }
}

/// When settings name several contexts, the order decides. The settings are
/// taken one after the other in the order scene, color, temperature, cool
/// white, warm white, and each one that is named sets the context, so the
/// context is the one named that comes last in that order. This is so with
/// or without a status known before. Settings that name no context leave a
/// known context as it was, and give none where none was known.
pub proof fn lemma_context_order(known: Option<StatusModel>, s: Settings)
    ensures
        ({
            let last = absorb(known, Outcome::Settings(s)).last;
            let names_any = Outcome::Settings(s).sets_context();
            &&& names_any ==> last is Some && names_context(s, last->0)
            &&& names_any ==> forall|c: LastSet| #[trigger]
                names_context(s, c) ==> rank(c) <= rank(last->0)
            &&& !names_any && known is None ==> last is None
            &&& !names_any && known is Some ==> last == known->0.last
        }),
{
}

impl LastSet {
    /// The context that a payload sets on a light with no known status: the
    /// payload's settings are taken in the order scene, color, temperature,
    /// cool white, warm white, and the last of them that the payload holds
    /// decides.
    pub fn from(value: &Payload) -> (r: Option<Self>)
        ensures
            r == merged_context(None, value@),
    {
        let mut last: Option<LastSet> = None;
        if value.get_scene().is_some() {
            last = Some(LastSet::Scene);
        }
        if value.get_color().is_some() {
            last = Some(LastSet::Color);
        }
        if value.get_temp().is_some() {
            last = Some(LastSet::Temp);
        }
        if value.get_cool().is_some() {
            last = Some(LastSet::Cool);
        }
        if value.get_warm().is_some() {
            last = Some(LastSet::Warm);
        }
        last
    }
}

/// Tracks the last known settings of a light, along with the last context.
///
/// When new settings are set, old settings that are not overwritten are left
/// as they were. A user interface can thus show the values last set for
/// every context, and which context is active.
#[derive(Clone, Copy, Debug, PartialEq, Eq)]
pub struct LightStatus {
    /// Current color, if set
    color: Option<Color>,
    /// Brightness percentage, if known
    brightness: Option<Brightness>,
    /// If the bulb is emitting light
    emitting: bool,
    /// Currently playing scene, if any
    scene: Option<SceneMode>,
    /// Last set speed value, if known
    speed: Option<Speed>,
    /// Last set light temperature, if known
    temp: Option<Kelvin>,
    /// Cool white value, if known
    cool: Option<White>,
    /// Warm white value, if known
    warm: Option<White>,
    /// Last set value, if any
    last: Option<LastSet>,
}

impl View for LightStatus {
    type V = StatusModel;

    closed spec fn view(&self) -> StatusModel {
        StatusModel {
            color: value_of(self.color),
            brightness: value_of(self.brightness),
            emitting: self.emitting,
            scene: self.scene,
            speed: value_of(self.speed),
            temp: value_of(self.temp),
            cool: value_of(self.cool),
            warm: value_of(self.warm),
            last: self.last,
        }
    }
}

impl LightStatus {
    /// The status that holds the given values.
    pub closed spec fn of_model(m: StatusModel) -> LightStatus {
        LightStatus {
            color: match m.color {
                Some(c) => Some(Color::of_rgb(c)),
                None => None,
            },
            brightness: match m.brightness {
                Some(v) => Some(Brightness::of_value(v)),
                None => None,
            },
            emitting: m.emitting,
            scene: m.scene,
            speed: match m.speed {
                Some(v) => Some(Speed::of_value(v)),
                None => None,
            },
            temp: match m.temp {
                Some(v) => Some(Kelvin::of_value(v)),
                None => None,
            },
            cool: match m.cool {
                Some(v) => Some(White::of_value(v)),
                None => None,
            },
            warm: match m.warm {
                Some(v) => Some(White::of_value(v)),
                None => None,
            },
            last: m.last,
        }
    }

    /// A status is determined by the values it holds.
    pub proof fn lemma_of_model(s: LightStatus)
        ensures
            Self::of_model(s@) == s,
    {
        if let Some(c) = s.color {
            Color::lemma_of_rgb(c);
        }
        if let Some(v) = s.brightness {
            Brightness::lemma_of_value(v);
        }
        if let Some(v) = s.speed {
            Speed::lemma_of_value(v);
        }
        if let Some(v) = s.temp {
            Kelvin::lemma_of_value(v);
        }
        if let Some(v) = s.cool {
            White::lemma_of_value(v);
        }
        if let Some(v) = s.warm {
            White::lemma_of_value(v);
        }
    }

    /// A status with the given values.
    pub fn new(
        color: Option<Color>,
        brightness: Option<Brightness>,
        emitting: bool,
        scene: Option<SceneMode>,
        speed: Option<Speed>,
        temp: Option<Kelvin>,
        cool: Option<White>,
        warm: Option<White>,
        last: Option<LastSet>,
    ) -> (s: Self)
        ensures
            s@ == (StatusModel {
                color: value_of(color),
                brightness: value_of(brightness),
                emitting,
                scene,
                speed: value_of(speed),
                temp: value_of(temp),
                cool: value_of(cool),
                warm: value_of(warm),
                last,
            }),
    {
        LightStatus { color, brightness, emitting, scene, speed, temp, cool, warm, last }
    }

    /// Accessor to get the last set context by reference.
    pub fn last(&self) -> (r: Option<&LastSet>)
        ensures
            r is Some <==> self@.last is Some,
            r matches Some(v) ==> self@.last == Some(*v),
    {
        self.last.as_ref()
    }

    /// Accessor to get the last set color by reference.
    pub fn color(&self) -> (r: Option<&Color>)
        ensures
            r is Some <==> self@.color is Some,
            r matches Some(v) ==> self@.color == Some(v@),
    {
        self.color.as_ref()
    }

    /// Accessor to get the last set brightness value by reference.
    pub fn brightness(&self) -> (r: Option<&Brightness>)
        ensures
            r is Some <==> self@.brightness is Some,
            r matches Some(v) ==> self@.brightness == Some(v@),
    {
        self.brightness.as_ref()
    }

    /// Accessor to get the last known light emitting state.
    pub fn emitting(&self) -> (r: bool)
        ensures
            r == self@.emitting,
    {
        self.emitting
    }

    /// Accessor to get the last set scene by reference.
    pub fn scene(&self) -> (r: Option<&SceneMode>)
        ensures
            r is Some <==> self@.scene is Some,
            r matches Some(v) ==> self@.scene == Some(*v),
    {
        self.scene.as_ref()
    }

    /// Accessor to get the last set speed value by reference.
    pub fn speed(&self) -> (r: Option<&Speed>)
        ensures
            r is Some <==> self@.speed is Some,
            r matches Some(v) ==> self@.speed == Some(v@),
    {
        self.speed.as_ref()
    }

    /// Accessor to get the last set temp value by reference.
    pub fn temp(&self) -> (r: Option<&Kelvin>)
        ensures
            r is Some <==> self@.temp is Some,
            r matches Some(v) ==> self@.temp == Some(v@),
    {
        self.temp.as_ref()
    }

    /// Accessor to get the last set cool white value by reference.
    pub fn cool(&self) -> (r: Option<&White>)
        ensures
            r is Some <==> self@.cool is Some,
            r matches Some(v) ==> self@.cool == Some(v@),
    {
        self.cool.as_ref()
    }

    /// Accessor to get the last set warm white value by reference.
    pub fn warm(&self) -> (r: Option<&White>)
        ensures
            r is Some <==> self@.warm is Some,
            r matches Some(v) ==> self@.warm == Some(v@),
    {
        self.warm.as_ref()
    }

    /// Update this status with the values from the other.
    ///
    /// Any values set in other become set in self, otherwise values in self
    /// are left untouched. The emitting flag is that of other in any case.
    pub fn update(&mut self, other: &Self)
        ensures
            final(self)@ == old(self)@.merge(other@),
    {
        if let Some(color) = &other.color {
            self.color = Some(*color);
        }
        if let Some(brightness) = &other.brightness {
            self.brightness = Some(*brightness);
        }
        self.emitting = other.emitting;
        if let Some(scene) = &other.scene {
            self.scene = Some(*scene);
        }
        if let Some(speed) = &other.speed {
            self.speed = Some(*speed);
        }
        if let Some(temp) = &other.temp {
            self.temp = Some(*temp);
        }
        if let Some(cool) = &other.cool {
            self.cool = Some(*cool);
        }
        if let Some(warm) = &other.warm {
            self.warm = Some(*warm);
        }
        if let Some(last) = &other.last {
            self.last = Some(*last);
        }
    }

    /// Update this status with the settings that were just applied to the
    /// light.
    pub fn update_from_payload(&mut self, payload: &Payload)
        ensures
            final(self)@ == old(self)@.apply_settings(payload@),
    {
        if let Some(scene) = payload.get_scene() {
            self.scene = Some(scene);
            self.last = Some(LastSet::Scene);
        }
        if let Some(color) = payload.get_color() {
            self.color = Some(color);
            self.last = Some(LastSet::Color);
        }
        if let Some(brightness) = payload.get_brightness() {
            self.brightness = Some(brightness);
        }
        if let Some(speed) = payload.get_speed() {
            self.speed = Some(speed);
        }
        if let Some(temp) = payload.get_temp() {
            self.temp = Some(temp);
            self.last = Some(LastSet::Temp);
        }
        if let Some(cool) = payload.get_cool() {
            self.cool = Some(cool);
            self.last = Some(LastSet::Cool);
        }
        if let Some(warm) = payload.get_warm() {
            self.warm = Some(warm);
            self.last = Some(LastSet::Warm);
        }
    }

    /// Update this status with the power change that was just applied to the
    /// light.
    pub fn update_from_power(&mut self, power: &PowerMode)
        ensures
            final(self)@ == old(self)@.apply_power(*power),
    {
        match power {
            PowerMode::Off => self.emitting = false,
            _ => self.emitting = true,
        }
    }
}

impl<'a> FromSpecImpl<&'a Payload> for LightStatus {
    open spec fn obeys_from_spec() -> bool {
        true
    }

    open spec fn from_spec(payload: &'a Payload) -> LightStatus {
        LightStatus::of_model(StatusModel::of_settings(payload@))
    }
}

impl<'a> From<&'a Payload> for LightStatus {
    /// The status of a light of which only this payload, just applied, is
    /// known.
    fn from(payload: &'a Payload) -> (s: LightStatus)
        ensures
            s@ == StatusModel::of_settings(payload@),
    {
        let s = LightStatus {
            color: payload.get_color(),
            brightness: payload.get_brightness(),
            emitting: true,  // not actually known here
            scene: payload.get_scene(),
            speed: payload.get_speed(),
            temp: payload.get_temp(),
            cool: payload.get_cool(),
            warm: payload.get_warm(),
            last: LastSet::from(payload),
        };
        proof {
            LightStatus::lemma_of_model(s);
        }
        s
    }
}

impl<'a> FromSpecImpl<&'a PowerMode> for LightStatus {
    open spec fn obeys_from_spec() -> bool {
        true
    }

    open spec fn from_spec(power: &'a PowerMode) -> LightStatus {
        LightStatus::of_model(StatusModel::of_power(*power))
    }
}

impl<'a> From<&'a PowerMode> for LightStatus {
    /// The status of a light of which only this power change, just applied,
    /// is known.
    fn from(power: &'a PowerMode) -> (s: LightStatus)
        ensures
            s@ == StatusModel::of_power(*power),
    {
        let s = LightStatus {
            color: None,
            brightness: None,
            emitting: power.is_emitting(),
            scene: None,
            speed: None,
            temp: None,
            cool: None,
            warm: None,
            last: None,
        };
        proof {
            LightStatus::lemma_of_model(s);
        }
        s
    }
}

impl<'a> FromSpecImpl<&'a BulbStatus> for LightStatus {
    open spec fn obeys_from_spec() -> bool {
        true
    }

    open spec fn from_spec(bulb: &'a BulbStatus) -> LightStatus {
        LightStatus::of_model(StatusModel::of_report(bulb.result))
    }
}

impl<'a> From<&'a BulbStatus> for LightStatus {
    /// The status that the bulb's own report gives.
    fn from(bulb: &'a BulbStatus) -> (s: LightStatus)
        ensures
            s@ == StatusModel::of_report(bulb.result),
            s@.in_range(),
    {
        let res = &bulb.result;
        let s = LightStatus {
            color: res.get_color(),
            brightness: Brightness::create(res.dimming.unwrap_or(0)),
            cool: White::create(res.cool.unwrap_or(0)),
            warm: White::create(res.warm.unwrap_or(0)),
            emitting: res.emitting,
            scene: SceneMode::create(res.scene),
            // these are not reported by the bulb: the best that can be
            // done is to track what was set
            speed: None,
            temp: None,
            last: None,
        };
        proof {
            LightStatus::lemma_of_model(s);
        }
        s
    }
}

} // verus!
