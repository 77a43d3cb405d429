//! Settings changes: what a caller asks of a light, and the payload sent to it.

use vstd::prelude::*;
use vstd::std_specs::convert::FromSpecImpl;

use crate::models::color::{Color, Rgb};
use crate::models::scene::{PowerMode, SceneMode};
use crate::models::settings::{Brightness, Kelvin, Speed, White};

verus! {

/// The content of a settings change: each setting is either asked for, with
/// its value, or left alone.
pub struct Settings {
    pub scene: Option<SceneMode>,
    pub brightness: Option<u8>,
    pub speed: Option<u8>,
    pub temp: Option<u16>,
    pub color: Option<Rgb>,
    pub cool: Option<u8>,
    pub warm: Option<u8>,
}

impl Settings {
    /// The settings change that asks for nothing.
    pub open spec fn empty() -> Settings {
        Settings {
            scene: None,
            brightness: None,
            speed: None,
            temp: None,
            color: None,
            cool: None,
            warm: None,
        }
    }

    /// Whether a light can act on these settings: at least one of them is
    /// asked for, and speed does not count, as it means nothing without a
    /// scene.
    pub open spec fn is_valid(self) -> bool {
        self.scene is Some || self.brightness is Some || self.temp is Some || self.color is Some
            || self.cool is Some || self.warm is Some
    }

    /// Whether every value asked for lies in the range that its setting allows.
    pub open spec fn in_range(self) -> bool {
        &&& self.brightness matches Some(v) ==> Brightness::in_range(v)
        &&& self.speed matches Some(v) ==> Speed::in_range(v)
        &&& self.temp matches Some(v) ==> Kelvin::in_range(v)
        &&& self.cool matches Some(v) ==> White::in_range(v)
        &&& self.warm matches Some(v) ==> White::in_range(v)
    }
}

/// Payload to send at a light to modify its settings.
///
/// Create a payload with one setting through one of the `From`
/// implementations, or create a blank payload and add settings to it with
/// the helper methods.
#[derive(Clone, Copy, Debug, PartialEq, Eq)]
pub struct Payload {
    scene: Option<u8>,
    dimming: Option<u8>,
    speed: Option<u8>,
    temp: Option<u16>,
    red: Option<u8>,
    green: Option<u8>,
    blue: Option<u8>,
    cool: Option<u8>,
    warm: Option<u8>,
}

impl View for Payload {
    type V = Settings;

    closed spec fn view(&self) -> Settings {
        Settings {
            scene: match self.scene {
                Some(id) => SceneMode::of_id(id),
                None => None,
            },
            brightness: self.dimming,
            speed: self.speed,
            temp: self.temp,
            color: match (self.red, self.green, self.blue) {
                (Some(red), Some(green), Some(blue)) => Some(Rgb { red, green, blue }),
                _ => None,
            },
            cool: self.cool,
            warm: self.warm,
        }
    }
}

impl Payload {
    #[verifier::type_invariant]
    spec fn well_formed(self) -> bool {
        &&& self.scene matches Some(id) ==> 1 <= id <= 33
        &&& self.dimming matches Some(v) ==> Brightness::in_range(v)
        &&& self.speed matches Some(v) ==> Speed::in_range(v)
        &&& self.temp matches Some(v) ==> Kelvin::in_range(v)
        &&& self.cool matches Some(v) ==> White::in_range(v)
        &&& self.warm matches Some(v) ==> White::in_range(v)
        &&& self.red is Some <==> self.green is Some
        &&& self.green is Some <==> self.blue is Some
    }

    /// The payload that asks for exactly the given settings.
    pub closed spec fn of_settings(s: Settings) -> Payload {
        Payload {
            scene: match s.scene {
                Some(scene) => Some(scene.spec_id()),
                None => None,
            },
            dimming: s.brightness,
            speed: s.speed,
            temp: s.temp,
            red: match s.color {
                Some(c) => Some(c.red),
                None => None,
            },
            green: match s.color {
                Some(c) => Some(c.green),
                None => None,
            },
            blue: match s.color {
                Some(c) => Some(c.blue),
                None => None,
            },
            cool: s.cool,
            warm: s.warm,
        }
    }

    /// A payload is determined by the settings it asks for.
    proof fn lemma_canonical(p: Payload)
        requires
            p.well_formed(),
        ensures
            p == Self::of_settings(p@),
    {
    }

    /// Create a new blank payload.
    ///
    /// At least one helper method must be called on a payload made this way,
    /// or it is not valid and a light refuses it. Any number of settings can
    /// be stacked in one payload. The light decides whether it can apply the
    /// combination, and if not makes a best effort at something close.
    pub fn new() -> (p: Self)
        ensures
            p@ == Settings::empty(),
    {
        Payload {
            scene: None,
            dimming: None,
            speed: None,
            temp: None,
            red: None,
            green: None,
            blue: None,
            cool: None,
            warm: None,
        }
    }

    /// Checks if this payload is valid.
    ///
    /// Speed is not valid on its own, it must be set with a scene mode as
    /// well.
    pub fn is_valid(&self) -> (ok: bool)
        ensures
            ok == self@.is_valid(),
            self@.in_range(),
    {
        proof {
            use_type_invariant(self);
        }
        self.scene.is_some() || self.dimming.is_some() || self.temp.is_some() || (
        self.red.is_some() && self.green.is_some() && self.blue.is_some()) || self.cool.is_some()
            || self.warm.is_some()
    }

    /// Set the SceneMode to use in this payload.
    pub fn scene(&mut self, scene: &SceneMode)
        ensures
            final(self)@ == (Settings { scene: Some(*scene), ..old(self)@ }),
    {
        proof {
            use_type_invariant(&*self);
            SceneMode::lemma_id_roundtrip(*scene);
        }
        self.scene = Some(scene.id());
    }

    /// Set the Brightness value in this payload.
    ///
    /// Brightness can be applied to any context, as long as the bulb is
    /// emitting.
    pub fn brightness(&mut self, brightness: &Brightness)
        ensures
            final(self)@ == (Settings { brightness: Some(brightness@), ..old(self)@ }),
    {
        proof {
            use_type_invariant(&*self);
        }
        self.dimming = Some(brightness.value());
    }

    /// Set the speed value in this payload.
    ///
    /// Speed is only relevant together with a SceneMode. Sent with other
    /// settings and no scene, the other settings decide the context on the
    /// bulb, but the speed is still kept in the last known status of a light
    /// that is updated from this payload.
    pub fn speed(&mut self, speed: &Speed)
        ensures
            final(self)@ == (Settings { speed: Some(speed@), ..old(self)@ }),
    {
        proof {
            use_type_invariant(&*self);
        }
        self.speed = Some(speed.value());
    }

    /// Set the temperature value in this payload.
    ///
    /// The bulb never reports its temperature back: the last known value is
    /// the one that was last sent.
    pub fn temp(&mut self, temp: &Kelvin)
        ensures
            final(self)@ == (Settings { temp: Some(temp@), ..old(self)@ }),
    {
        proof {
            use_type_invariant(&*self);
        }
        self.temp = Some(temp.kelvin());
    }

    /// Set the RGB color mode in this payload.
    pub fn color(&mut self, color: &Color)
        ensures
            final(self)@ == (Settings { color: Some(color@), ..old(self)@ }),
    {
        proof {
            use_type_invariant(&*self);
        }
        *self = Payload {
            red: Some(color.red()),
            green: Some(color.green()),
            blue: Some(color.blue()),
            ..*self
        };
    }

    /// Set the cool white value in this payload.
    pub fn cool(&mut self, cool: &White)
        ensures
            final(self)@ == (Settings { cool: Some(cool@), ..old(self)@ }),
    {
        proof {
            use_type_invariant(&*self);
        }
        self.cool = Some(cool.value());
    }

    /// Set the warm white value in this payload.
    pub fn warm(&mut self, warm: &White)
        ensures
            final(self)@ == (Settings { warm: Some(warm@), ..old(self)@ }),
    {
        proof {
            use_type_invariant(&*self);
        }
        self.warm = Some(warm.value());
    }

    /// The scene that this payload sets, if any.
    pub fn get_scene(&self) -> (r: Option<SceneMode>)
        ensures
            r == self@.scene,
    {
        match self.scene {
            Some(id) => SceneMode::create(id),
            None => None,
        }
    }

    /// The brightness that this payload sets, if any.
    pub fn get_brightness(&self) -> (r: Option<Brightness>)
        ensures
            r is Some <==> self@.brightness is Some,
            r matches Some(b) ==> self@.brightness == Some(b@),
    {
        proof {
            use_type_invariant(self);
        }
        match self.dimming {
            Some(value) => Brightness::create(value),
            None => None,
        }
    }

    /// The speed that this payload sets, if any.
    pub fn get_speed(&self) -> (r: Option<Speed>)
        ensures
            r is Some <==> self@.speed is Some,
            r matches Some(s) ==> self@.speed == Some(s@),
    {
        proof {
            use_type_invariant(self);
        }
        match self.speed {
            Some(value) => Speed::create(value),
            None => None,
        }
    }

    /// The temperature that this payload sets, if any.
    pub fn get_temp(&self) -> (r: Option<Kelvin>)
        ensures
            r is Some <==> self@.temp is Some,
            r matches Some(k) ==> self@.temp == Some(k@),
    {
        proof {
            use_type_invariant(self);
        }
        match self.temp {
            Some(value) => Kelvin::create(value),
            None => None,
        }
    }

    /// The color that this payload sets, if any.
    pub fn get_color(&self) -> (r: Option<Color>)
        ensures
            r is Some <==> self@.color is Some,
            r matches Some(c) ==> self@.color == Some(c@),
    {
        match (self.red, self.green, self.blue) {
            (Some(red), Some(green), Some(blue)) => Some(Color::rgb(red, green, blue)),
            _ => None,
        }
    }

    /// The cool white value that this payload sets, if any.
    pub fn get_cool(&self) -> (r: Option<White>)
        ensures
            r is Some <==> self@.cool is Some,
            r matches Some(w) ==> self@.cool == Some(w@),
    {
        proof {
            use_type_invariant(self);
        }
        match self.cool {
            Some(value) => White::create(value),
            None => None,
        }
    }

    /// The warm white value that this payload sets, if any.
    pub fn get_warm(&self) -> (r: Option<White>)
        ensures
            r is Some <==> self@.warm is Some,
            r matches Some(w) ==> self@.warm == Some(w@),
    {
        proof {
            use_type_invariant(self);
        }
        match self.warm {
            Some(value) => White::create(value),
            None => None,
        }
    }
}

impl Default for Payload {
    fn default() -> (p: Self)
        ensures
            p@ == Settings::empty(),
    {
        Payload::new()
    }
}

impl<'a> FromSpecImpl<&'a SceneMode> for Payload {
    open spec fn obeys_from_spec() -> bool {
        true
    }

    open spec fn from_spec(scene: &'a SceneMode) -> Payload {
        Payload::of_settings(Settings { scene: Some(*scene), ..Settings::empty() })
    }
}

impl<'a> From<&'a SceneMode> for Payload {
    /// The payload that sets this one setting and nothing else.
    fn from(scene: &'a SceneMode) -> (p: Payload)
        ensures
            p@ == (Settings { scene: Some(*scene), ..Settings::empty() }),
    {
        let mut p = Payload::new();
        p.scene(scene);
        proof {
            use_type_invariant(&p);
            Payload::lemma_canonical(p);
        }
        p
    }
}

impl<'a> FromSpecImpl<&'a Kelvin> for Payload {
    open spec fn obeys_from_spec() -> bool {
        true
    }

    open spec fn from_spec(kelvin: &'a Kelvin) -> Payload {
        Payload::of_settings(Settings { temp: Some(kelvin@), ..Settings::empty() })
    }
}

impl<'a> From<&'a Kelvin> for Payload {
    /// The payload that sets this one setting and nothing else.
    fn from(kelvin: &'a Kelvin) -> (p: Payload)
        ensures
            p@ == (Settings { temp: Some(kelvin@), ..Settings::empty() }),
    {
        let mut p = Payload::new();
        p.temp(kelvin);
        proof {
            use_type_invariant(&p);
            Payload::lemma_canonical(p);
        }
        p
    }
}

impl<'a> FromSpecImpl<&'a Color> for Payload {
    open spec fn obeys_from_spec() -> bool {
        true
    }

    open spec fn from_spec(color: &'a Color) -> Payload {
        Payload::of_settings(Settings { color: Some(color@), ..Settings::empty() })
    }
}

impl<'a> From<&'a Color> for Payload {
    /// The payload that sets this one setting and nothing else.
    fn from(color: &'a Color) -> (p: Payload)
        ensures
            p@ == (Settings { color: Some(color@), ..Settings::empty() }),
    {
        let mut p = Payload::new();
        p.color(color);
        proof {
            use_type_invariant(&p);
            Payload::lemma_canonical(p);
        }
        p
    }
}

impl<'a> FromSpecImpl<&'a Speed> for Payload {
    open spec fn obeys_from_spec() -> bool {
        true
    }

    open spec fn from_spec(speed: &'a Speed) -> Payload {
        Payload::of_settings(Settings { speed: Some(speed@), ..Settings::empty() })
    }
}

impl<'a> From<&'a Speed> for Payload {
    /// The payload that sets this one setting and nothing else.
    fn from(speed: &'a Speed) -> (p: Payload)
        ensures
            p@ == (Settings { speed: Some(speed@), ..Settings::empty() }),
    {
        let mut p = Payload::new();
        p.speed(speed);
        proof {
            use_type_invariant(&p);
            Payload::lemma_canonical(p);
        }
        p
    }
}

impl<'a> FromSpecImpl<&'a Brightness> for Payload {
    open spec fn obeys_from_spec() -> bool {
        true
    }

    open spec fn from_spec(brightness: &'a Brightness) -> Payload {
        Payload::of_settings(Settings { brightness: Some(brightness@), ..Settings::empty() })
    }
}

impl<'a> From<&'a Brightness> for Payload {
    /// The payload that sets this one setting and nothing else.
    fn from(brightness: &'a Brightness) -> (p: Payload)
        ensures
            p@ == (Settings { brightness: Some(brightness@), ..Settings::empty() }),
    {
        let mut p = Payload::new();
        p.brightness(brightness);
        proof {
            use_type_invariant(&p);
            Payload::lemma_canonical(p);
        }
        p
    }
}

/// A request for a lighting settings change on a light, with an optional
/// change of its power state.
#[derive(Clone, Copy, Debug, PartialEq, Eq)]
pub struct LightRequest {
    brightness: Option<Brightness>,
    color: Option<Color>,
    speed: Option<Speed>,
    temp: Option<Kelvin>,
    scene: Option<SceneMode>,
    power: Option<PowerMode>,
    cool: Option<White>,
    warm: Option<White>,
}

/// What a request asks for: settings to change, and a power state to set.
pub struct RequestModel {
    pub settings: Settings,
    pub power: Option<PowerMode>,
}

impl View for LightRequest {
    type V = RequestModel;

    closed spec fn view(&self) -> RequestModel {
        RequestModel {
            settings: Settings {
                scene: self.scene,
                brightness: value_of(self.brightness),
                speed: value_of(self.speed),
                temp: value_of(self.temp),
                color: value_of(self.color),
                cool: value_of(self.cool),
                warm: value_of(self.warm),
            },
            power: self.power,
        }
    }
}

/// The plain value inside an optional setting.
pub open spec fn value_of<T: View>(v: Option<T>) -> Option<T::V> {
    match v {
        Some(x) => Some(x@),
        None => None,
    }
}

impl LightRequest {
    /// A request for the given changes; `None` leaves a setting as it is.
    pub fn new(
        brightness: Option<Brightness>,
        color: Option<Color>,
        speed: Option<Speed>,
        temp: Option<Kelvin>,
        scene: Option<SceneMode>,
        power: Option<PowerMode>,
        cool: Option<White>,
        warm: Option<White>,
    ) -> (req: Self)
        ensures
            req@ == (RequestModel {
                settings: Settings {
                    scene,
                    brightness: value_of(brightness),
                    speed: value_of(speed),
                    temp: value_of(temp),
                    color: value_of(color),
                    cool: value_of(cool),
                    warm: value_of(warm),
                },
                power,
            }),
    {
        LightRequest { brightness, color, speed, temp, scene, power, cool, warm }
    }

    /// Accessor to get this request's optional power setting.
    pub fn power(&self) -> (p: Option<&PowerMode>)
        ensures
            p is Some <==> self@.power is Some,
            p matches Some(mode) ==> self@.power == Some(*mode),
    {
        self.power.as_ref()
    }
}

impl<'a> FromSpecImpl<&'a LightRequest> for Payload {
    open spec fn obeys_from_spec() -> bool {
        true
    }

    open spec fn from_spec(req: &'a LightRequest) -> Payload {
        Payload::of_settings(req@.settings)
    }
}

impl<'a> From<&'a LightRequest> for Payload {
    /// The payload that asks for the settings of the request. The request's
    /// power change is no setting and is left out.
    fn from(req: &'a LightRequest) -> (p: Payload)
        ensures
            p@ == req@.settings,
    {
        let mut p = Payload::new();
        if let Some(brightness) = &req.brightness {
            p.brightness(brightness);
        }
        if let Some(color) = &req.color {
            p.color(color);
        }
        if let Some(speed) = &req.speed {
            p.speed(speed);
        }
        if let Some(temp) = &req.temp {
            p.temp(temp);
        }
        if let Some(scene) = &req.scene {
            p.scene(scene);
        }
        if let Some(cool) = &req.cool {
            p.cool(cool);
        }
        if let Some(warm) = &req.warm {
            p.warm(warm);
        }
        proof {
            use_type_invariant(&p);
            Payload::lemma_canonical(p);
        }
        p
    }
}

} // verus!
