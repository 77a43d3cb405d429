//! The outcome of a device round trip, addressed to the light it came from.

use vstd::prelude::*;

use crate::address::Ipv4;
use crate::models::payload::Payload;
use crate::models::scene::PowerMode;
use crate::models::status::{LightStatus, Outcome};

verus! {

/// Reply path details for modifying the state of a light.
#[derive(Clone, Copy, Debug, PartialEq, Eq)]
pub enum LightingResponseType {
    /// Response from any lighting setting change
    Payload(Payload),
    /// Response from any power (emitting) setting change
    Power(PowerMode),
    /// Response from a bulb status fetch
    Status(LightStatus),
}

impl View for LightingResponseType {
    type V = Outcome;

    open spec fn view(&self) -> Outcome {
        match *self {
            LightingResponseType::Payload(payload) => Outcome::Settings(payload@),
            LightingResponseType::Power(power) => Outcome::Power(power),
            LightingResponseType::Status(status) => Outcome::Status(status@),
        }
    }
}

/// Response which could alter the state of a light: what a device round
/// trip told, and the address of the device.
#[derive(Clone, Copy, Debug, PartialEq, Eq)]
pub struct LightingResponse {
    ip: Ipv4,
    response: LightingResponseType,
}

/// A response, as plain values.
pub struct ResponseModel {
    pub ip: Ipv4,
    pub outcome: Outcome,
}

impl View for LightingResponse {
    type V = ResponseModel;

    closed spec fn view(&self) -> ResponseModel {
        ResponseModel { ip: self.ip, outcome: self.response@ }
    }
}

impl LightingResponse {
    /// Create a response for an address from a payload.
    pub fn payload(ip: Ipv4, payload: Payload) -> (r: Self)
        ensures
            r@ == (ResponseModel { ip, outcome: Outcome::Settings(payload@) }),
    {
        LightingResponse { ip, response: LightingResponseType::Payload(payload) }
    }

    /// Create a response for an address from a power mode.
    pub fn power(ip: Ipv4, power: PowerMode) -> (r: Self)
        ensures
            r@ == (ResponseModel { ip, outcome: Outcome::Power(power) }),
    {
        LightingResponse { ip, response: LightingResponseType::Power(power) }
    }

    /// Create a response for an address from a status.
    pub fn status(ip: Ipv4, status: LightStatus) -> (r: Self)
        ensures
            r@ == (ResponseModel { ip, outcome: Outcome::Status(status@) }),
    {
        LightingResponse { ip, response: LightingResponseType::Status(status) }
    }

    /// The address of the device that the response came from.
    pub fn ip(&self) -> (ip: Ipv4)
        ensures
            ip == self@.ip,
    {
        self.ip
    }

    /// What the device round trip told.
    pub fn response(&self) -> (r: &LightingResponseType)
        ensures
            r@ == self@.outcome,
    {
        &self.response
    }
}

} // verus!
