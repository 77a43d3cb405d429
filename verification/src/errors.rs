//! The errors of the library.

use vstd::prelude::*;

use crate::address::Ipv4;

verus! {

/// All potential errors of the library.
#[derive(Debug, PartialEq, Eq)]
pub enum Error {
    /// Failed to read a reply as JSON; holds what the decoder said
    JsonLoad(String),
    /// Some socket error when communicating with a bulb
    Socket { action: String, detail: String },
    /// Failed to decode the bytes of a reply as UTF-8
    Utf8Decode(String),
    /// Used when trying to set a payload with no attributes
    NoAttribute,
    /// Attempting to look up or modify a room which doesn't exist
    RoomNotFound(u128),
    /// Attempting to look up or modify a light which doesn't exist
    LightNotFound { room_id: u128, light_id: u128 },
    /// Attempting to add a light with an invalid IP
    InvalidIP { ip: Ipv4, reason: String },
    /// When modifying the room's details results in no change
    NoChangeRoom(u128),
    /// When modifying the light's details results in no change
    NoChangeLight { room_id: u128, light_id: u128 },
    /// When modifying a light in a room without lights
    NoLights(u128),
    /// Unable to queue work: the dispatcher has shut down
    Dispatch,
    /// Unable to queue a result: the reply path has shut down
    Reply,
}

/// An error, with its texts as sequences of characters.
pub enum ErrorModel {
    JsonLoad(Seq<char>),
    Socket { action: Seq<char>, detail: Seq<char> },
    Utf8Decode(Seq<char>),
    NoAttribute,
    RoomNotFound(u128),
    LightNotFound { room_id: u128, light_id: u128 },
    InvalidIP { ip: Ipv4, reason: Seq<char> },
    NoChangeRoom(u128),
    NoChangeLight { room_id: u128, light_id: u128 },
    NoLights(u128),
    Dispatch,
    Reply,
}

impl View for Error {
    type V = ErrorModel;

    open spec fn view(&self) -> ErrorModel {
        match *self {
            Error::JsonLoad(detail) => ErrorModel::JsonLoad(detail@),
            Error::Socket { action, detail } => ErrorModel::Socket {
                action: action@,
                detail: detail@,
            },
            Error::Utf8Decode(detail) => ErrorModel::Utf8Decode(detail@),
            Error::NoAttribute => ErrorModel::NoAttribute,
            Error::RoomNotFound(id) => ErrorModel::RoomNotFound(id),
            Error::LightNotFound { room_id, light_id } => ErrorModel::LightNotFound {
                room_id,
                light_id,
            },
            Error::InvalidIP { ip, reason } => ErrorModel::InvalidIP { ip, reason: reason@ },
            Error::NoChangeRoom(id) => ErrorModel::NoChangeRoom(id),
            Error::NoChangeLight { room_id, light_id } => ErrorModel::NoChangeLight {
                room_id,
                light_id,
            },
            Error::NoLights(id) => ErrorModel::NoLights(id),
            Error::Dispatch => ErrorModel::Dispatch,
            Error::Reply => ErrorModel::Reply,
        }
    }
}

impl Error {
    /// Create a new socket error: `action` names the step that failed, and
    /// `detail` holds what the system said.
    pub fn socket(action: &str, detail: &str) -> (e: Self)
        ensures
            e@ == (ErrorModel::Socket { action: action@, detail: detail@ }),
    {
        Error::Socket { action: String::from_str(action), detail: String::from_str(detail) }
    }

    /// Create a new light not found error.
    pub fn light_not_found(room_id: u128, light_id: u128) -> (e: Self)
        ensures
            e == (Error::LightNotFound { room_id, light_id }),
    {
        Error::LightNotFound { room_id, light_id }
    }

    /// Create a new invalid IP error.
    pub fn invalid_ip(ip: &Ipv4, reason: &str) -> (e: Self)
        ensures
            e@ == (ErrorModel::InvalidIP { ip: *ip, reason: reason@ }),
    {
        Error::InvalidIP { ip: *ip, reason: String::from_str(reason) }
    }

    /// Create a new no change light error.
    pub fn no_change_light(room_id: u128, light_id: u128) -> (e: Self)
        ensures
            e == (Error::NoChangeLight { room_id, light_id }),
    {
        Error::NoChangeLight { room_id, light_id }
    }
}

} // verus!
