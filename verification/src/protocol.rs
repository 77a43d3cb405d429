//! The protocol that a light speaks: one message to the light, a datagram
//! with a JSON object in it, and one reply. The library says what is sent and
//! in which order a round trip goes; the sockets are the caller's.

use vstd::prelude::*;
use vstd::utf8::{decode_utf8, encode_utf8, encode_utf8_decode_utf8, valid_utf8};

use crate::address::Ipv4;
use crate::errors::{Error, ErrorModel};
use crate::models::payload::{Payload, Settings};
use crate::models::response::{LightingResponse, ResponseModel};
use crate::models::scene::PowerMode;
use crate::models::status::Outcome;
use crate::report::{json_members, FieldModel};

verus! {

/// The port on which a light listens.
pub const PORT: u16 = 38899;

/// The seconds after which a read or a write on the socket is given up.
pub const TIMEOUT_SECS: u64 = 1;

/// The largest reply, in bytes, that is read from a light.
pub const MAX_REPLY: usize = 4096;

/// A message to a light.
#[derive(Clone, Copy, Debug, PartialEq, Eq)]
pub enum Method {
    /// Change settings
    SetPilot(Payload),
    /// Turn the light on or off
    SetState(bool),
    /// Restart the light
    Reboot,
    /// Ask for the status
    GetPilot,
}

/// A message to a light, as plain values.
pub enum MethodModel {
    SetPilot(Settings),
    SetState(bool),
    Reboot,
    GetPilot,
}

/// The value of a parameter of a message.
#[derive(Clone, Copy, Debug, PartialEq, Eq, Structural)]
pub enum ParamValue {
    Number(u16),
    Flag(bool),
}

/// A parameter of a message: its key in the JSON object and its value.
#[derive(Clone, Copy, Debug, PartialEq, Eq)]
pub struct Param {
    pub key: &'static str,
    pub value: ParamValue,
}

impl View for Param {
    type V = (Seq<char>, ParamValue);

    open spec fn view(&self) -> (Seq<char>, ParamValue) {
        (self.key@, self.value)
    }
}

/// The parameter with the given key, where there is a value for it.
pub open spec fn number_param(key: Seq<char>, value: Option<int>) -> Seq<(Seq<char>, ParamValue)> {
    match value {
        Some(v) => seq![(key, ParamValue::Number(v as u16))],
        None => seq![],
    }
}

impl Settings {
    /// The parameters that stand for these settings in a message, in the
    /// order scene, brightness, speed, temperature, the three channels of the
    /// color, cool white, warm white. A setting that is not asked for has
    /// no parameter.
    pub open spec fn params(self) -> Seq<(Seq<char>, ParamValue)> {
        number_param(
            "sceneId"@,
            match self.scene {
                Some(scene) => Some(scene.spec_id() as int),
                None => None,
            },
        ) + number_param(
            "dimming"@,
            match self.brightness {
                Some(v) => Some(v as int),
                None => None,
            },
        ) + number_param(
            "speed"@,
            match self.speed {
                Some(v) => Some(v as int),
                None => None,
            },
        ) + number_param(
            "temp"@,
            match self.temp {
                Some(v) => Some(v as int),
                None => None,
            },
        ) + number_param(
            "r"@,
            match self.color {
                Some(c) => Some(c.red as int),
                None => None,
            },
        ) + number_param(
            "g"@,
            match self.color {
                Some(c) => Some(c.green as int),
                None => None,
            },
        ) + number_param(
            "b"@,
            match self.color {
                Some(c) => Some(c.blue as int),
                None => None,
            },
        ) + number_param(
            "c"@,
            match self.cool {
                Some(v) => Some(v as int),
                None => None,
            },
        ) + number_param(
            "w"@,
            match self.warm {
                Some(v) => Some(v as int),
                None => None,
            },
        )
    }
}

impl MethodModel {
    /// The name of the method, as the light knows it.
    pub open spec fn name(self) -> Seq<char> {
        match self {
            MethodModel::SetPilot(_) => "setPilot"@,
            MethodModel::SetState(_) => "setState"@,
            MethodModel::Reboot => "reboot"@,
            MethodModel::GetPilot => "getPilot"@,
        }
    }

    /// The parameters of the message; none for a method that takes none.
    pub open spec fn params(self) -> Option<Seq<(Seq<char>, ParamValue)>> {
        match self {
            MethodModel::SetPilot(settings) => Some(settings.params()),
            MethodModel::SetState(on) => Some(seq![("state"@, ParamValue::Flag(on))]),
            MethodModel::Reboot => None,
            MethodModel::GetPilot => None,
        }
    }

    /// What is known of the light once it has answered the message, from
    /// the message alone: the settings or the power state that were sent. A
    /// light does not say what it applied, so the cache goes by what was
    /// asked. A status query tells nothing by itself: there the answer holds
    /// the news.
    pub open spec fn echo(self) -> Option<Outcome> {
        match self {
            MethodModel::SetPilot(settings) => Some(Outcome::Settings(settings)),
            MethodModel::SetState(on) => Some(
                Outcome::Power(
                    if on {
                        PowerMode::On
                    } else {
                        PowerMode::Off
                    },
                ),
            ),
            MethodModel::Reboot => Some(Outcome::Power(PowerMode::Reboot)),
            MethodModel::GetPilot => None,
        }
    }
}

impl View for Method {
    type V = MethodModel;

    open spec fn view(&self) -> MethodModel {
        match *self {
            Method::SetPilot(payload) => MethodModel::SetPilot(payload@),
            Method::SetState(on) => MethodModel::SetState(on),
            Method::Reboot => MethodModel::Reboot,
            Method::GetPilot => MethodModel::GetPilot,
        }
    }
}

/// Adds the parameter with the given key to the list, where there is a value
/// for it.
fn push_number(params: &mut Vec<Param>, key: &'static str, value: Option<u16>)
    ensures
        final(params)@.map_values(|p: Param| p@) == old(params)@.map_values(|p: Param| p@)
            + number_param(
            key@,
            match value {
                Some(v) => Some(v as int),
                None => None,
            },
        ),
{
    let ghost before = params@.map_values(|p: Param| p@);
    if let Some(v) = value {
        params.push(Param { key, value: ParamValue::Number(v) });
        assert(params@.map_values(|p: Param| p@) =~= before + seq![(key@, ParamValue::Number(v))]);
    } else {
        assert(params@.map_values(|p: Param| p@) =~= before + Seq::empty());
    }
}

/// The parameters that stand for the settings of a payload in a message.
pub fn payload_params(payload: &Payload) -> (params: Vec<Param>)
    ensures
        params@.map_values(|p: Param| p@) == payload@.params(),
{
    let mut params: Vec<Param> = Vec::new();
    assert(params@.map_values(|p: Param| p@) =~= Seq::empty());
    let color = payload.get_color();
    push_number(
        &mut params,
        "sceneId",
        match payload.get_scene() {
            Some(scene) => Some(scene.id() as u16),
            None => None,
        },
    );
    push_number(
        &mut params,
        "dimming",
        match payload.get_brightness() {
            Some(v) => Some(v.value() as u16),
            None => None,
        },
    );
    push_number(
        &mut params,
        "speed",
        match payload.get_speed() {
            Some(v) => Some(v.value() as u16),
            None => None,
        },
    );
    push_number(
        &mut params,
        "temp",
        match payload.get_temp() {
            Some(v) => Some(v.kelvin()),
            None => None,
        },
    );
    push_number(
        &mut params,
        "r",
        match color {
            Some(c) => Some(c.red() as u16),
            None => None,
        },
    );
    push_number(
        &mut params,
        "g",
        match color {
            Some(c) => Some(c.green() as u16),
            None => None,
        },
    );
    push_number(
        &mut params,
        "b",
        match color {
            Some(c) => Some(c.blue() as u16),
            None => None,
        },
    );
    push_number(
        &mut params,
        "c",
        match payload.get_cool() {
            Some(v) => Some(v.value() as u16),
            None => None,
        },
    );
    push_number(
        &mut params,
        "w",
        match payload.get_warm() {
            Some(v) => Some(v.value() as u16),
            None => None,
        },
    );
    assert(params@.map_values(|p: Param| p@) =~= payload@.params());
    params
}

impl Method {
    /// The name of the method, as the light knows it.
    pub fn name(&self) -> (name: &'static str)
        ensures
            name@ == self@.name(),
    {
        match self {
            Method::SetPilot(_) => "setPilot",
            Method::SetState(_) => "setState",
            Method::Reboot => "reboot",
            Method::GetPilot => "getPilot",
        }
    }

    /// The parameters of the message; none for a method that takes none.
    pub fn params(&self) -> (params: Option<Vec<Param>>)
        ensures
            params is Some <==> self@.params() is Some,
            params matches Some(list) ==> Some(list@.map_values(|p: Param| p@)) == self@.params(),
    {
        match self {
            Method::SetPilot(payload) => Some(payload_params(payload)),
            Method::SetState(on) => {
                let mut list: Vec<Param> = Vec::new();
                list.push(Param { key: "state", value: ParamValue::Flag(*on) });
                assert(list@.map_values(|p: Param| p@) =~= seq![("state"@, ParamValue::Flag(*on))]);
                Some(list)
            },
            Method::Reboot => None,
            Method::GetPilot => None,
        }
    }

    /// The response to forward once the light at `ip` has answered the
    /// message: an echo of the settings or of the power state that were
    /// sent. There is none for a status query.
    pub fn echo(&self, ip: Ipv4) -> (r: Option<LightingResponse>)
        ensures
            r is Some <==> self@.echo() is Some,
            r matches Some(resp) ==> resp@ == (ResponseModel { ip, outcome: self@.echo()->0 }),
    {
        match self {
            Method::SetPilot(payload) => Some(LightingResponse::payload(ip, *payload)),
            Method::SetState(on) => Some(
                if *on {
                    LightingResponse::power(ip, PowerMode::On)
                } else {
                    LightingResponse::power(ip, PowerMode::Off)
                },
            ),
            Method::Reboot => Some(LightingResponse::power(ip, PowerMode::Reboot)),
            Method::GetPilot => None,
        }
    }
}

/// The character that stands for a decimal digit.
pub open spec fn digit_char(digit: nat) -> char {
    if digit == 0 {
        '0'
    } else if digit == 1 {
        '1'
    } else if digit == 2 {
        '2'
    } else if digit == 3 {
        '3'
    } else if digit == 4 {
        '4'
    } else if digit == 5 {
        '5'
    } else if digit == 6 {
        '6'
    } else if digit == 7 {
        '7'
    } else if digit == 8 {
        '8'
    } else {
        '9'
    }
}

/// A number in decimal digits, with no zero in front of it.
pub open spec fn decimal_text(n: nat) -> Seq<char>
    decreases n,
{
    if n < 10 {
        seq![digit_char(n)]
    } else {
        decimal_text(n / 10).push(digit_char(n % 10))
    }
}

/// The value of a parameter as JSON: a number in decimal digits, or `true`
/// or `false`.
pub open spec fn value_text(value: ParamValue) -> Seq<char> {
    match value {
        ParamValue::Number(n) => decimal_text(n as nat),
        ParamValue::Flag(true) => "true"@,
        ParamValue::Flag(false) => "false"@,
    }
}

/// A parameter as a member of a JSON object: the key in double quotes, a
/// colon, and the value.
pub open spec fn param_text(param: (Seq<char>, ParamValue)) -> Seq<char> {
    "\""@ + param.0 + "\":"@ + value_text(param.1)
}

/// The parameters as the members of a JSON object, with commas between
/// them.
pub open spec fn params_text(params: Seq<(Seq<char>, ParamValue)>) -> Seq<char>
    decreases params.len(),
{
    if params.len() == 0 {
        Seq::empty()
    } else if params.len() == 1 {
        param_text(params[0])
    } else {
        params_text(params.drop_last()) + ","@ + param_text(params.last())
    }
}

impl MethodModel {
    /// The message as it is sent: one JSON object, without any space, that
    /// holds the name of the method under `method` and, for a method that
    /// takes parameters, an object of them under `params`.
    pub open spec fn text(self) -> Seq<char> {
        "{\"method\":\""@ + self.name() + "\""@ + (match self.params() {
            Some(params) => ",\"params\":{"@ + params_text(params) + "}"@,
            None => Seq::empty(),
        }) + "}"@
    }
}

/// The text of a decimal digit.
fn digit_str(digit: u16) -> (text: &'static str)
    requires
        digit < 10,
    ensures
        text@ == seq![digit_char(digit as nat)],
{
    proof {
        reveal_strlit("0");
        reveal_strlit("1");
        reveal_strlit("2");
        reveal_strlit("3");
        reveal_strlit("4");
        reveal_strlit("5");
        reveal_strlit("6");
        reveal_strlit("7");
        reveal_strlit("8");
        reveal_strlit("9");
    }
    let text = match digit {
        0 => "0",
        1 => "1",
        2 => "2",
        3 => "3",
        4 => "4",
        5 => "5",
        6 => "6",
        7 => "7",
        8 => "8",
        _ => "9",
    };
    assert(text@ =~= seq![digit_char(digit as nat)]);
    text
}

/// Writes a number in decimal digits at the end of the text.
fn append_decimal(out: &mut String, n: u16)
    ensures
        final(out)@ == old(out)@ + decimal_text(n as nat),
    decreases n,
{
    if n >= 10 {
        append_decimal(out, n / 10);
    }
    out.append(digit_str(n % 10));
    assert(out@ =~= old(out)@ + decimal_text(n as nat));
}

/// Writes a parameter, as a member of a JSON object, at the end of the
/// text.
fn append_param(out: &mut String, param: &Param)
    ensures
        final(out)@ == old(out)@ + param_text(param@),
{
    out.append("\"");
    out.append(param.key);
    out.append("\":");
    match param.value {
        ParamValue::Number(n) => append_decimal(out, n),
        ParamValue::Flag(true) => out.append("true"),
        ParamValue::Flag(false) => out.append("false"),
    }
    assert(out@ =~= old(out)@ + param_text(param@));
}

impl Method {
    /// The message as it is sent to the light.
    pub fn message(&self) -> (text: String)
        ensures
            text@ == self@.text(),
    {
        let mut out = String::from_str("{\"method\":\"");
        out.append(self.name());
        out.append("\"");
        let ghost head = out@;
        if let Some(params) = self.params() {
            out.append(",\"params\":{");
            let ghost open = out@;
            let ghost models = params@.map_values(|p: Param| p@);
            let mut i: usize = 0;
            while i < params.len()
                invariant
                    i <= params@.len(),
                    models == params@.map_values(|p: Param| p@),
                    out@ == open + params_text(models.take(i as int)),
                decreases params@.len() - i,
            {
                if i > 0 {
                    out.append(",");
                }
                append_param(&mut out, &params[i]);
                proof {
                    let upto = models.take(i + 1);
                    assert(upto.drop_last() =~= models.take(i as int));
                    assert(upto.last() == params@[i as int]@);
                    if i == 0 {
                        assert(params_text(models.take(0)) =~= Seq::<char>::empty());
                        assert(upto.len() == 1);
                        assert(out@ =~= open + params_text(upto));
                    } else {
                        assert(out@ =~= open + params_text(upto));
                    }
                }
                i = i + 1;
            }
            assert(models.take(i as int) =~= models);
            out.append("}");
            assert(out@ =~= head + (",\"params\":{"@ + params_text(models) + "}"@));
        } else {
            assert(out@ =~= head + Seq::<char>::empty());
        }
        out.append("}");
        assert(out@ =~= self@.text());
        out
    }
}

/// One step of a round trip with a light, on a socket of the caller.
#[derive(Clone, Copy, Debug, PartialEq, Eq, Structural)]
pub enum SocketAction {
    /// Get a socket from the system, on any free port
    Bind,
    /// Limit the time that a write may take, in seconds
    SetWriteTimeout(u64),
    /// Limit the time that a read may take, in seconds
    SetReadTimeout(u64),
    /// Connect to the light at the address, on the port
    Connect(Ipv4, u16),
    /// Send the message
    Send,
    /// Receive the reply, up to so many bytes
    Receive(usize),
}

impl SocketAction {
    /// The word that names the step in the error of a failure.
    pub open spec fn text(self) -> Seq<char> {
        match self {
            SocketAction::Bind => "bind"@,
            SocketAction::SetWriteTimeout(_) => "set_write_timeout"@,
            SocketAction::SetReadTimeout(_) => "set_read_timeout"@,
            SocketAction::Connect(_, _) => "connect"@,
            SocketAction::Send => "send"@,
            SocketAction::Receive(_) => "receive"@,
        }
    }

    /// The word that names the step in the error of a failure.
    pub fn name(&self) -> (name: &'static str)
        ensures
            name@ == self.text(),
    {
        match self {
            SocketAction::Bind => "bind",
            SocketAction::SetWriteTimeout(_) => "set_write_timeout",
            SocketAction::SetReadTimeout(_) => "set_read_timeout",
            SocketAction::Connect(_, _) => "connect",
            SocketAction::Send => "send",
            SocketAction::Receive(_) => "receive",
        }
    }

    /// The error of a round trip in which this step failed. `detail` holds
    /// what the system said.
    pub fn failure(&self, detail: &str) -> (e: Error)
        ensures
            e@ == (ErrorModel::Socket { action: self.text(), detail: detail@ }),
    {
        Error::socket(self.name(), detail)
    }
}

/// The steps of a round trip with the light at `ip`, in their order: bind a
/// socket, limit writes and reads to one second each, connect to the light's
/// port, send the message, and receive one reply of at most 4096 bytes. The
/// first step that fails ends the round trip: nothing is tried again.
pub open spec fn round_trip(ip: Ipv4) -> Seq<SocketAction> {
    seq![
        SocketAction::Bind,
        SocketAction::SetWriteTimeout(1),
        SocketAction::SetReadTimeout(1),
        SocketAction::Connect(ip, 38899),
        SocketAction::Send,
        SocketAction::Receive(4096),
    ]
}

/// The steps of a round trip with the light at `ip`, in their order.
pub fn exchange_plan(ip: Ipv4) -> (steps: Vec<SocketAction>)
    ensures
        steps@ == round_trip(ip),
{
    let mut steps: Vec<SocketAction> = Vec::new();
    steps.push(SocketAction::Bind);
    steps.push(SocketAction::SetWriteTimeout(TIMEOUT_SECS));
    steps.push(SocketAction::SetReadTimeout(TIMEOUT_SECS));
    steps.push(SocketAction::Connect(ip, PORT));
    steps.push(SocketAction::Send);
    steps.push(SocketAction::Receive(MAX_REPLY));
    assert(steps@ =~= round_trip(ip));
    steps
}

/// The text that the bytes hold.
///
/// Calls `String::from_utf8`, which succeeds on the bytes that are valid
/// UTF-8 and on no others. The string then holds the text that the bytes
/// encode. On a failure the words of the error are returned.
#[verifier::external_body]
fn string_from_utf8(bytes: Vec<u8>) -> (r: Result<String, String>)
    ensures
        r is Ok <==> valid_utf8(bytes@),
        r matches Ok(text) ==> encode_utf8(text@) == bytes@,
{
    match String::from_utf8(bytes) {
        Ok(text) => Ok(text),
        Err(e) => Err(e.to_string()),
    }
}

/// A JSON value, as `serde_json` holds it.
#[verifier::external_type_specification]
#[verifier::external_body]
pub struct ExJsonValue(serde_json::Value);

/// Whether `serde_json` reads the text as a JSON value.
pub uninterp spec fn is_json(text: Seq<char>) -> bool;

/// What `serde_json` reads in a text that is JSON: each JSON pointer that
/// leads to a member of the document that the text holds, with that member.
pub uninterp spec fn text_members(text: Seq<char>) -> Map<Seq<char>, FieldModel>;

/// The JSON value that the text holds.
///
/// Calls `serde_json::from_str` for a `serde_json::Value`, which succeeds on
/// the texts that it reads as a JSON value and on no others. The value then
/// holds the members that the text holds: reading is a function of the text
/// alone. On a failure the words of the error are returned.
#[verifier::external_body]
fn json_from_str(text: &str) -> (r: Result<serde_json::Value, String>)
    ensures
        r is Ok <==> is_json(text@),
        r matches Ok(value) ==> json_members(value) == text_members(text@),
{
    match serde_json::from_str(text) {
        Ok(value) => Ok(value),
        Err(e) => Err(e.to_string()),
    }
}

/// The text of a reply. Bytes that are not valid UTF-8 are a decoding error.
pub fn reply_text(bytes: Vec<u8>) -> (r: Result<String, Error>)
    ensures
        r is Ok <==> valid_utf8(bytes@),
        r matches Ok(text) ==> text@ == decode_utf8(bytes@),
        r matches Err(e) ==> e@ is Utf8Decode,
{
    match string_from_utf8(bytes) {
        Ok(text) => {
            proof {
                encode_utf8_decode_utf8(text@);
            }
            Ok(text)
        },
        Err(detail) => Err(Error::Utf8Decode(detail)),
    }
}

/// The JSON value that a reply holds, which holds the members that the text
/// of the reply holds. A reply has to be valid UTF-8, and its text has to be
/// JSON: a reply that is not is an error, of decoding in the first case and
/// of loading in the second, and nothing is tried again.
pub fn decode_reply(bytes: Vec<u8>) -> (r: Result<serde_json::Value, Error>)
    ensures
        r is Ok <==> valid_utf8(bytes@) && is_json(decode_utf8(bytes@)),
        r matches Ok(value) ==> json_members(value) == text_members(decode_utf8(bytes@)),
        r matches Err(e) ==> if valid_utf8(bytes@) {
            e@ is JsonLoad
        } else {
            e@ is Utf8Decode
        },
{
    match reply_text(bytes) {
        Ok(text) => match json_from_str(text.as_str()) {
            Ok(value) => Ok(value),
            Err(detail) => Err(Error::JsonLoad(detail)),
        },
        Err(e) => Err(e),
    }
}

} // verus!
