//! A light: its address, its name, and the last known status.

use vstd::prelude::*;

use crate::address::Ipv4;
use crate::errors::Error;
use crate::models::payload::Payload;
use crate::models::response::{LightingResponse, LightingResponseType, ResponseModel};
use crate::models::scene::PowerMode;
use crate::models::status::BulbStatus;
use crate::protocol::{Method, MethodModel};
use crate::models::status::{absorb, LightStatus, Outcome, StatusModel};

verus! {

/// Lights are grouped per room, or used one by one.
#[derive(Debug, PartialEq, Eq)]
pub struct Light {
    /// IPv4 address for the light, ideally statically assigned
    ip: Ipv4,
    /// Name of light, arbitrary (user supplied)
    name: Option<String>,
    /// Last known status, if any
    status: Option<LightStatus>,
}

/// A light, as plain values.
pub struct LightModel {
    pub ip: Ipv4,
    pub name: Option<Seq<char>>,
    pub status: Option<StatusModel>,
}

impl LightModel {
    /// This light after a response was handed to it. A response from
    /// another address leaves the light as it is; one from the light's own
    /// address is taken into the status.
    pub open spec fn take(self, resp: ResponseModel) -> LightModel {
        if resp.ip == self.ip {
            LightModel { status: Some(absorb(self.status, resp.outcome)), ..self }
        } else {
            self
        }
    }

    /// This light after its name and address were set to those of `other`.
    /// The status is kept.
    pub open spec fn renamed(self, other: LightModel) -> LightModel {
        LightModel { ip: other.ip, name: other.name, status: self.status }
    }
}

impl View for Light {
    type V = LightModel;

    closed spec fn view(&self) -> LightModel {
        LightModel {
            ip: self.ip,
            name: match self.name {
                Some(name) => Some(name@),
                None => None,
            },
            status: match self.status {
                Some(status) => Some(status@),
                None => None,
            },
        }
    }
}

impl Clone for Light {
    fn clone(&self) -> (r: Self)
        ensures
            r == *self,
    {
        Light {
            ip: self.ip,
            name: match &self.name {
                Some(name) => Some(name.clone()),
                None => None,
            },
            status: self.status,
        }
    }
}

impl Light {
    /// Create a new optionally named light with no known status.
    pub fn new(ip: Ipv4, name: Option<&str>) -> (light: Self)
        ensures
            light@ == (LightModel {
                ip,
                name: match name {
                    Some(n) => Some(n@),
                    None => None,
                },
                status: None,
            }),
    {
        Light {
            ip,
            name: match name {
                Some(n) => Some(String::from_str(n)),
                None => None,
            },
            status: None,
        }
    }

    /// A light with the given name and last known status.
    pub fn with_status(ip: Ipv4, name: Option<&str>, status: Option<LightStatus>) -> (light: Self)
        ensures
            light@ == (LightModel {
                ip,
                name: match name {
                    Some(n) => Some(n@),
                    None => None,
                },
                status: match status {
                    Some(s) => Some(s@),
                    None => None,
                },
            }),
    {
        Light {
            ip,
            name: match name {
                Some(n) => Some(String::from_str(n)),
                None => None,
            },
            status,
        }
    }

    /// Accessor for this bulb's IP address.
    pub fn ip(&self) -> (ip: Ipv4)
        ensures
            ip == self@.ip,
    {
        self.ip
    }

    /// Accessor for this bulb's name.
    pub fn name(&self) -> (name: Option<&str>)
        ensures
            name is Some <==> self@.name is Some,
            name matches Some(n) ==> self@.name == Some(n@),
    {
        match &self.name {
            Some(s) => Some(s.as_str()),
            None => None,
        }
    }

    /// Accessor for this bulb's last known status.
    pub fn status(&self) -> (status: Option<&LightStatus>)
        ensures
            status is Some <==> self@.status is Some,
            status matches Some(s) ==> self@.status == Some(s@),
    {
        self.status.as_ref()
    }

    /// The message that asks the bulb for its status.
    ///
    /// This is not the last known status of the bulb: the message asks for
    /// new data. The answer can be turned into a response with
    /// [`Self::status_reply`], and that be handed to [`Self::process_reply`]
    /// to update the last known status.
    pub fn get_status(&self) -> (m: Method)
        ensures
            m@ == MethodModel::GetPilot,
    {
        Method::GetPilot
    }

    /// The response that the bulb's answer to a status query gives.
    pub fn status_reply(&self, bulb: &BulbStatus) -> (resp: LightingResponse)
        ensures
            resp@ == (ResponseModel {
                ip: self@.ip,
                outcome: Outcome::Status(StatusModel::of_report(bulb.result)),
            }),
    {
        LightingResponse::status(self.ip, LightStatus::from(bulb))
    }

    /// The message that sets new lighting settings on this bulb. A payload
    /// with no attribute set is refused.
    ///
    /// This does not update the last known status. Once the bulb has
    /// answered, the message's echo can be handed to
    /// [`Self::process_reply`] for that.
    pub fn set(&self, payload: &Payload) -> (r: Result<Method, Error>)
        ensures
            r is Ok <==> payload@.is_valid(),
            r matches Ok(m) ==> m@ == MethodModel::SetPilot(payload@),
            r matches Err(e) ==> e == Error::NoAttribute,
    {
        if payload.is_valid() {
            Ok(Method::SetPilot(*payload))
        } else {
            Err(Error::NoAttribute)
        }
    }

    /// The message that sets the power mode of the light: on and off set
    /// the state, and a reboot is a message of its own.
    ///
    /// As with [`Self::set`], this does not update the last known status.
    pub fn set_power(&self, power: &PowerMode) -> (m: Method)
        ensures
            m@ == match *power {
                PowerMode::On => MethodModel::SetState(true),
                PowerMode::Off => MethodModel::SetState(false),
                PowerMode::Reboot => MethodModel::Reboot,
            },
            m@.echo() == Some(Outcome::Power(*power)),
    {
        match power {
            PowerMode::On => self.toggle_power(true),
            PowerMode::Off => self.toggle_power(false),
            PowerMode::Reboot => self.power_cycle(),
        }
    }

    fn toggle_power(&self, powered: bool) -> (m: Method)
        ensures
            m@ == MethodModel::SetState(powered),
    {
        Method::SetState(powered)
    }

    fn power_cycle(&self) -> (m: Method)
        ensures
            m@ == MethodModel::Reboot,
    {
        Method::Reboot
    }

    /// Update this light's name and address from the other light. Says
    /// whether anything changed.
    pub fn update(&mut self, other: &Self) -> (changed: bool)
        ensures
            final(self)@ == old(self)@.renamed(other@),
            changed == (old(self)@.name != other@.name || old(self)@.ip != other@.ip),
    {
        let mut any_update = false;
        let same_name = match (&self.name, &other.name) {
            (Some(mine), Some(theirs)) => *mine == *theirs,
            (None, None) => true,
            _ => false,
        };
        if !same_name {
            self.name = match &other.name {
                Some(name) => Some(name.clone()),
                None => None,
            };
            any_update = true;
        }
        if self.ip != other.ip {
            self.ip = other.ip;
            any_update = true;
        }
        any_update
    }

    /// Update the last known status with the response of some command. A
    /// response from another address is left aside. Says whether the
    /// response was for this light.
    pub fn process_reply(&mut self, resp: &LightingResponse) -> (updated: bool)
        ensures
            final(self)@ == old(self)@.take(resp@),
            updated == (resp@.ip == old(self)@.ip),
    {
        if resp.ip() == self.ip {
            match resp.response() {
                LightingResponseType::Payload(payload) => self.update_status_from_payload(payload),
                LightingResponseType::Power(power) => self.update_status_from_power(power),
                LightingResponseType::Status(status) => self.update_status(status),
            }
            true
        } else {
            false
        }
    }

    fn update_status(&mut self, status: &LightStatus)
        ensures
            final(self)@ == (LightModel {
                status: Some(
                    match old(self)@.status {
                        Some(known) => known.merge(status@),
                        None => status@,
                    },
                ),
                ..old(self)@
            }),
    {
        if let Some(known) = &mut self.status {
            known.update(status);
        } else {
            self.status = Some(*status);
        }
    }

    fn update_status_from_payload(&mut self, payload: &Payload)
        ensures
            final(self)@ == (LightModel {
                status: Some(
                    match old(self)@.status {
                        Some(known) => known.apply_settings(payload@),
                        None => StatusModel::of_settings(payload@),
                    },
                ),
                ..old(self)@
            }),
    {
        if let Some(status) = &mut self.status {
            status.update_from_payload(payload);
        } else {
            self.status = Some(LightStatus::from(payload));
        }
    }

    fn update_status_from_power(&mut self, power: &PowerMode)
        ensures
            final(self)@ == (LightModel {
                status: Some(
                    match old(self)@.status {
                        Some(known) => known.apply_power(*power),
                        None => StatusModel::of_power(*power),
                    },
                ),
                ..old(self)@
            }),
    {
        if let Some(status) = &mut self.status {
            status.update_from_power(power);
        } else {
            self.status = Some(LightStatus::from(power));
        }
    }
}

} // verus!
