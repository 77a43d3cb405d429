//! Settings given as raw numbers and text, as a command line gives them.
//! Each value is checked, the values that pass go into a payload, and each
//! value that does not is named.

use vstd::prelude::*;

use crate::models::color::{color_of_text, Color};
use crate::models::payload::{LightRequest, Payload, Settings};
use crate::models::scene::{PowerMode, SceneMode};
use crate::models::settings::{Brightness, Kelvin, Speed, White};
use crate::protocol::{Method, MethodModel};
use crate::worker::power_method;

verus! {

/// Settings as they were typed: any of them may be missing, and any of them
/// may be out of range.
#[derive(Debug)]
pub struct RawSettings {
    /// The number of a scene
    pub scene: Option<u8>,
    /// The brightness, in percent
    pub brightness: Option<u8>,
    /// The color, as `r,g,b`
    pub color: Option<String>,
    /// The speed of a scene
    pub speed: Option<u8>,
    /// The temperature in Kelvin
    pub temp: Option<u16>,
    /// The cool white value
    pub cool: Option<u8>,
    /// The warm white value
    pub warm: Option<u8>,
}

/// A value that was given and is not valid for its setting.
#[derive(Debug, PartialEq, Eq)]
pub enum Invalid {
    Scene(u8),
    Brightness(u8),
    Color(String),
    Speed(u8),
    Temp(u16),
    Cool(u8),
    Warm(u8),
}

/// An invalid value, with its text as a sequence of characters.
pub enum InvalidModel {
    Scene(u8),
    Brightness(u8),
    Color(Seq<char>),
    Speed(u8),
    Temp(u16),
    Cool(u8),
    Warm(u8),
}

impl View for Invalid {
    type V = InvalidModel;

    open spec fn view(&self) -> InvalidModel {
        match *self {
            Invalid::Scene(v) => InvalidModel::Scene(v),
            Invalid::Brightness(v) => InvalidModel::Brightness(v),
            Invalid::Color(text) => InvalidModel::Color(text@),
            Invalid::Speed(v) => InvalidModel::Speed(v),
            Invalid::Temp(v) => InvalidModel::Temp(v),
            Invalid::Cool(v) => InvalidModel::Cool(v),
            Invalid::Warm(v) => InvalidModel::Warm(v),
        }
    }
}

/// The value, where it was given and lies in the range.
pub open spec fn checked(value: Option<u8>, low: u8, high: u8) -> Option<u8> {
    match value {
        Some(v) if low <= v <= high => Some(v),
        _ => None,
    }
}

/// The complaint, where there is one, as a list.
pub open spec fn noted(found: Option<InvalidModel>) -> Seq<InvalidModel> {
    match found {
        Some(complaint) => seq![complaint],
        None => seq![],
    }
}

impl RawSettings {
    /// The settings that the valid values give.
    pub open spec fn accepted(&self) -> Settings {
        Settings {
            scene: match self.scene {
                Some(id) => SceneMode::of_id(id),
                None => None,
            },
            brightness: checked(self.brightness, 10, 100),
            color: match self.color {
                Some(text) => color_of_text(text@),
                None => None,
            },
            speed: checked(self.speed, 20, 200),
            temp: match self.temp {
                Some(v) if Kelvin::in_range(v) => Some(v),
                _ => None,
            },
            cool: checked(self.cool, 1, 100),
            warm: checked(self.warm, 1, 100),
        }
    }

    /// The complaint about the scene, if it was given and is not valid.
    pub open spec fn bad_scene(&self) -> Option<InvalidModel> {
        match self.scene {
            Some(v) if !(1 <= v <= 33) => Some(InvalidModel::Scene(v)),
            _ => None,
        }
    }

    /// The complaint about the brightness, if it was given and is not valid.
    pub open spec fn bad_brightness(&self) -> Option<InvalidModel> {
        match self.brightness {
            Some(v) if !Brightness::in_range(v) => Some(InvalidModel::Brightness(v)),
            _ => None,
        }
    }

    /// The complaint about the color, if it was given and is not valid.
    pub open spec fn bad_color(&self) -> Option<InvalidModel> {
        match self.color {
            Some(text) if color_of_text(text@) is None => Some(InvalidModel::Color(text@)),
            _ => None,
        }
    }

    /// The complaint about the speed, if it was given and is not valid.
    pub open spec fn bad_speed(&self) -> Option<InvalidModel> {
        match self.speed {
            Some(v) if !Speed::in_range(v) => Some(InvalidModel::Speed(v)),
            _ => None,
        }
    }

    /// The complaint about the temperature, if it was given and is not
    /// valid.
    pub open spec fn bad_temp(&self) -> Option<InvalidModel> {
        match self.temp {
            Some(v) if !Kelvin::in_range(v) => Some(InvalidModel::Temp(v)),
            _ => None,
        }
    }

    /// The complaint about the cool white value, if it was given and is not
    /// valid.
    pub open spec fn bad_cool(&self) -> Option<InvalidModel> {
        match self.cool {
            Some(v) if !White::in_range(v) => Some(InvalidModel::Cool(v)),
            _ => None,
        }
    }

    /// The complaint about the warm white value, if it was given and is not
    /// valid.
    pub open spec fn bad_warm(&self) -> Option<InvalidModel> {
        match self.warm {
            Some(v) if !White::in_range(v) => Some(InvalidModel::Warm(v)),
            _ => None,
        }
    }

    /// The values that are not valid, in the order scene, brightness,
    /// color, speed, temperature, cool white, warm white.
    pub open spec fn rejected(&self) -> Seq<InvalidModel> {
        noted(self.bad_scene()) + noted(self.bad_brightness()) + noted(self.bad_color()) + noted(
            self.bad_speed(),
        ) + noted(self.bad_temp()) + noted(self.bad_cool()) + noted(self.bad_warm())
    }

    /// The payload that holds every valid value, and the list of the values
    /// that are not valid. All settings go into one payload: whether the
    /// combination makes sense is for the light to decide.
    pub fn payload(&self) -> (r: (Payload, Vec<Invalid>))
        ensures
            r.0@ == self.accepted(),
            r.1@.map_values(|i: Invalid| i@) == self.rejected(),
    {
        (self.valid_part(), self.invalid_part())
    }

    /// The payload that holds every valid value.
    fn valid_part(&self) -> (payload: Payload)
        ensures
            payload@ == self.accepted(),
    {
        let scene = match self.scene {
            Some(id) => SceneMode::create(id),
            None => None,
        };
        let brightness = match self.brightness {
            Some(v) => Brightness::create(v),
            None => None,
        };
        let color = match &self.color {
            Some(text) => match Color::from_str(text.as_str()) {
                Ok(color) => Some(color),
                Err(_) => None,
            },
            None => None,
        };
        let speed = match self.speed {
            Some(v) => Speed::create(v),
            None => None,
        };
        let temp = match self.temp {
            Some(v) => Kelvin::create(v),
            None => None,
        };
        let cool = match self.cool {
            Some(v) => White::create(v),
            None => None,
        };
        let warm = match self.warm {
            Some(v) => White::create(v),
            None => None,
        };
        let request = LightRequest::new(brightness, color, speed, temp, scene, None, cool, warm);
        Payload::from(&request)
    }

    /// The values that are not valid.
    fn invalid_part(&self) -> (invalid: Vec<Invalid>)
        ensures
            invalid@.map_values(|i: Invalid| i@) == self.rejected(),
    {
        let mut invalid: Vec<Invalid> = Vec::new();
        assert(invalid@.map_values(|i: Invalid| i@) =~= Seq::empty());
        note(
            &mut invalid,
            match self.scene {
                Some(v) if SceneMode::create(v).is_none() => Some(Invalid::Scene(v)),
                _ => None,
            },
        );
        note(
            &mut invalid,
            match self.brightness {
                Some(v) if Brightness::create(v).is_none() => Some(Invalid::Brightness(v)),
                _ => None,
            },
        );
        note(
            &mut invalid,
            match &self.color {
                Some(text) if Color::from_str(text.as_str()).is_err() => Some(
                    Invalid::Color(text.clone()),
                ),
                _ => None,
            },
        );
        note(
            &mut invalid,
            match self.speed {
                Some(v) if Speed::create(v).is_none() => Some(Invalid::Speed(v)),
                _ => None,
            },
        );
        note(
            &mut invalid,
            match self.temp {
                Some(v) if Kelvin::create(v).is_none() => Some(Invalid::Temp(v)),
                _ => None,
            },
        );
        note(
            &mut invalid,
            match self.cool {
                Some(v) if White::create(v).is_none() => Some(Invalid::Cool(v)),
                _ => None,
            },
        );
        note(
            &mut invalid,
            match self.warm {
                Some(v) if White::create(v).is_none() => Some(Invalid::Warm(v)),
                _ => None,
            },
        );
        assert(invalid@.map_values(|i: Invalid| i@) =~= self.rejected());
        invalid
    }
}

/// Adds the complaint to the list, if there is one.
fn note(invalid: &mut Vec<Invalid>, found: Option<Invalid>)
    ensures
        final(invalid)@.map_values(|i: Invalid| i@) == old(invalid)@.map_values(|i: Invalid| i@)
            + noted(
            match found {
                Some(complaint) => Some(complaint@),
                None => None,
            },
        ),
{
    let ghost before = invalid@.map_values(|i: Invalid| i@);
    match found {
        Some(complaint) => {
            let ghost model = complaint@;
            invalid.push(complaint);
            assert(invalid@.map_values(|i: Invalid| i@) =~= before + seq![model]);
        },
        None => {
            assert(invalid@.map_values(|i: Invalid| i@) =~= before + Seq::empty());
        },
    }
}

/// The one power change that flags ask for, if any: on goes before off, and
/// off before a reboot.
pub fn choose_power(on: bool, off: bool, reboot: bool) -> (r: Option<PowerMode>)
    ensures
        r == if on {
            Some(PowerMode::On)
        } else if off {
            Some(PowerMode::Off)
        } else if reboot {
            Some(PowerMode::Reboot)
        } else {
            None
        },
{
    if on {
        Some(PowerMode::On)
    } else if off {
        Some(PowerMode::Off)
    } else if reboot {
        Some(PowerMode::Reboot)
    } else {
        None
    }
}

/// The messages that a direct command sends to a light, in their order:
/// the power change, if there is one, and then all settings in one message,
/// if they are settings that a light can act on.
pub fn command_plan(power: Option<PowerMode>, payload: &Payload) -> (plan: Vec<Method>)
    ensures
        plan@.map_values(|m: Method| m@) == (match power {
            Some(p) => seq![power_method(p)],
            None => seq![],
        }) + (if payload@.is_valid() {
            seq![MethodModel::SetPilot(payload@)]
        } else {
            seq![]
        }),
{
    let mut plan: Vec<Method> = Vec::new();
    match power {
        Some(PowerMode::On) => plan.push(Method::SetState(true)),
        Some(PowerMode::Off) => plan.push(Method::SetState(false)),
        Some(PowerMode::Reboot) => plan.push(Method::Reboot),
        None => {},
    }
    if payload.is_valid() {
        plan.push(Method::SetPilot(*payload));
    }
    assert(plan@.map_values(|m: Method| m@) =~= (match power {
        Some(p) => seq![power_method(p)],
        None => seq![],
    }) + (if payload@.is_valid() {
        seq![MethodModel::SetPilot(payload@)]
    } else {
        seq![]
    }));
    plan
}

} // verus!
