//! The answer of a light to a status query: which members the JSON object
//! has to hold, and of which type, for the answer to be a report.

use vstd::prelude::*;

use crate::errors::{Error, ErrorModel};
use crate::models::status::{BulbStatus, BulbStatusResult};

verus! {

/// A member of a JSON document, as far as a report is concerned.
#[derive(Clone, Debug, PartialEq, Eq)]
pub enum Field {
    /// There is no such member
    Missing,
    /// The member is `null`
    Null,
    /// A whole number that is not negative
    Number(u64),
    /// A whole number below zero
    Negative(i64),
    /// `true` or `false`
    Flag(bool),
    /// A string
    Text(String),
    /// Anything else: a number with a fraction, an array, an object
    Other,
}

/// The members of the answer to a status query, as they were found.
#[derive(Clone, Debug, PartialEq, Eq)]
pub struct RawReport {
    pub env: Field,
    pub method: Field,
    pub red: Field,
    pub green: Field,
    pub blue: Field,
    pub dimming: Field,
    pub mac: Field,
    pub emitting: Field,
    pub scene: Field,
    pub rssi: Field,
    pub cool: Field,
    pub warm: Field,
}

/// A member of a JSON document, with its text as a sequence of characters.
pub enum FieldModel {
    Missing,
    Null,
    Number(u64),
    Negative(i64),
    Flag(bool),
    Text(Seq<char>),
    Other,
}

impl View for Field {
    type V = FieldModel;

    open spec fn view(&self) -> FieldModel {
        match *self {
            Field::Missing => FieldModel::Missing,
            Field::Null => FieldModel::Null,
            Field::Number(n) => FieldModel::Number(n),
            Field::Negative(n) => FieldModel::Negative(n),
            Field::Flag(flag) => FieldModel::Flag(flag),
            Field::Text(text) => FieldModel::Text(text@),
            Field::Other => FieldModel::Other,
        }
    }
}

/// What a JSON document holds: each JSON pointer that leads to a member of
/// the document, with that member.
pub uninterp spec fn json_members(value: serde_json::Value) -> Map<Seq<char>, FieldModel>;

/// The member that the pointer leads to, which is missing where the pointer
/// leads nowhere.
pub open spec fn member_at(members: Map<Seq<char>, FieldModel>, pointer: Seq<char>) -> FieldModel {
    if members.contains_key(pointer) {
        members[pointer]
    } else {
        FieldModel::Missing
    }
}

/// The member of the document that the JSON pointer leads to.
///
/// Calls `serde_json::Value::pointer` and tells the variants of the value
/// apart; a number goes through `serde_json::Number::as_u64` and
/// `serde_json::Number::as_i64`. The result is the member that the document
/// holds at the pointer. Which members a document holds is not said here:
/// the document is only known by what is looked up in it.
#[verifier::external_body]
fn json_field(value: &serde_json::Value, pointer: &str) -> (field: Field)
    ensures
        field@ == member_at(json_members(*value), pointer@),
{
    match value.pointer(pointer) {
        None => Field::Missing,
        Some(serde_json::Value::Null) => Field::Null,
        Some(serde_json::Value::Bool(flag)) => Field::Flag(*flag),
        Some(serde_json::Value::Number(n)) => match (n.as_u64(), n.as_i64()) {
            (Some(u), _) => Field::Number(u),
            (None, Some(i)) => Field::Negative(i),
            (None, None) => Field::Other,
        },
        Some(serde_json::Value::String(text)) => Field::Text(text.clone()),
        Some(_) => Field::Other,
    }
}

impl Field {
    /// Whether the member can stand for a number from 0 to 255 that may be
    /// left out: it is missing, null, or such a number.
    pub open spec fn is_optional_byte(self) -> bool {
        self is Missing || self is Null || (self matches Field::Number(n) && n <= 255)
    }

    /// The number that the member stands for, if it holds one.
    pub open spec fn optional_byte(self) -> Option<u8> {
        match self {
            Field::Number(n) if n <= 255 => Some(n as u8),
            _ => None,
        }
    }

    /// Whether the member is a number from 0 to 255.
    pub open spec fn is_byte(self) -> bool {
        self matches Field::Number(n) && n <= 255
    }

    /// Whether the member is a whole number that a signed 32-bit number can
    /// hold.
    pub open spec fn is_i32(self) -> bool {
        ||| self matches Field::Number(n) && n <= i32::MAX
        ||| self matches Field::Negative(n) && i32::MIN <= n <= i32::MAX
    }

    /// The signed number that the member stands for.
    pub open spec fn i32_value(self) -> i32 {
        match self {
            Field::Number(n) => n as i32,
            Field::Negative(n) => n as i32,
            _ => 0,
        }
    }

    fn to_optional_byte(&self, key: &str) -> (r: Result<Option<u8>, Error>)
        ensures
            r is Ok <==> self.is_optional_byte(),
            r matches Ok(v) ==> v == self.optional_byte(),
            r matches Err(e) ==> e@ == ErrorModel::JsonLoad(key@),
    {
        match self {
            Field::Missing => Ok(None),
            Field::Null => Ok(None),
            Field::Number(n) => if *n <= 255 {
                Ok(Some(*n as u8))
            } else {
                Err(Error::JsonLoad(String::from_str(key)))
            },
            _ => Err(Error::JsonLoad(String::from_str(key))),
        }
    }

    fn to_byte(&self, key: &str) -> (r: Result<u8, Error>)
        ensures
            r is Ok <==> self.is_byte(),
            r matches Ok(v) ==> Some(v) == self.optional_byte(),
            r matches Err(e) ==> e@ == ErrorModel::JsonLoad(key@),
    {
        match self {
            Field::Number(n) => if *n <= 255 {
                Ok(*n as u8)
            } else {
                Err(Error::JsonLoad(String::from_str(key)))
            },
            _ => Err(Error::JsonLoad(String::from_str(key))),
        }
    }

    fn to_i32(&self, key: &str) -> (r: Result<i32, Error>)
        ensures
            r is Ok <==> self.is_i32(),
            r matches Ok(v) ==> v == self.i32_value(),
            r matches Err(e) ==> e@ == ErrorModel::JsonLoad(key@),
    {
        match self {
            Field::Number(n) => if *n <= 0x7fff_ffff {
                Ok(*n as i32)
            } else {
                Err(Error::JsonLoad(String::from_str(key)))
            },
            Field::Negative(n) => if -0x8000_0000 <= *n && *n <= 0x7fff_ffff {
                Ok(*n as i32)
            } else {
                Err(Error::JsonLoad(String::from_str(key)))
            },
            _ => Err(Error::JsonLoad(String::from_str(key))),
        }
    }

    fn to_flag(&self, key: &str) -> (r: Result<bool, Error>)
        ensures
            r is Ok <==> self is Flag,
            r matches Ok(v) ==> self == Field::Flag(v),
            r matches Err(e) ==> e@ == ErrorModel::JsonLoad(key@),
    {
        match self {
            Field::Flag(flag) => Ok(*flag),
            _ => Err(Error::JsonLoad(String::from_str(key))),
        }
    }

    fn to_text(&self, key: &str) -> (r: Result<String, Error>)
        ensures
            r is Ok <==> self is Text,
            r matches Ok(v) ==> self == Field::Text(v),
            r matches Err(e) ==> e@ == ErrorModel::JsonLoad(key@),
    {
        match self {
            Field::Text(text) => Ok(text.clone()),
            _ => Err(Error::JsonLoad(String::from_str(key))),
        }
    }
}

impl RawReport {
    /// The first member, in the order in which a report lists them, that is
    /// missing though it has to be there, or is of the wrong type: its place
    /// in the document. None if the members make up a report.
    ///
    /// A report has to hold the strings `env` and `method`, and under
    /// `result` the string `mac`, the flag `state`, the scene number
    /// `sceneId` from 0 to 255 and the signal strength `rssi`. The channels
    /// `r`, `g` and `b`, `dimming`, and the white values `c` and `w` may be
    /// left out, and are numbers from 0 to 255 where they are not.
    pub open spec fn fault(&self) -> Option<Seq<char>> {
        if !(self.env is Text) {
            Some("env"@)
        } else if !(self.method is Text) {
            Some("method"@)
        } else if !self.red.is_optional_byte() {
            Some("result.r"@)
        } else if !self.green.is_optional_byte() {
            Some("result.g"@)
        } else if !self.blue.is_optional_byte() {
            Some("result.b"@)
        } else if !self.dimming.is_optional_byte() {
            Some("result.dimming"@)
        } else if !(self.mac is Text) {
            Some("result.mac"@)
        } else if !(self.emitting is Flag) {
            Some("result.state"@)
        } else if !self.scene.is_byte() {
            Some("result.sceneId"@)
        } else if !self.rssi.is_i32() {
            Some("result.rssi"@)
        } else if !self.cool.is_optional_byte() {
            Some("result.c"@)
        } else if !self.warm.is_optional_byte() {
            Some("result.w"@)
        } else {
            None
        }
    }

    /// The report that the members make up.
    pub open spec fn report(&self) -> BulbStatus {
        BulbStatus {
            env: self.env->Text_0,
            method: self.method->Text_0,
            result: BulbStatusResult {
                red: self.red.optional_byte(),
                green: self.green.optional_byte(),
                blue: self.blue.optional_byte(),
                dimming: self.dimming.optional_byte(),
                mac: self.mac->Text_0,
                emitting: self.emitting->Flag_0,
                scene: self.scene.optional_byte()->0,
                rssi: self.rssi.i32_value(),
                cool: self.cool.optional_byte(),
                warm: self.warm.optional_byte(),
            },
        }
    }

    /// Whether `r` is what these members give: the report that they make
    /// up, or the error that names the first member at fault.
    pub open spec fn gives(&self, r: Result<BulbStatus, Error>) -> bool {
        match r {
            Ok(bulb) => self.fault() is None && bulb == self.report(),
            Err(e) => self.fault() matches Some(place) && e@ == ErrorModel::JsonLoad(place),
        }
    }

    /// Whether these are the members of a report as a document holds them:
    /// `env` and `method` at the top of the document, and the others under
    /// `result`, where the channels are `r`, `g` and `b`, the flag is
    /// `state`, the scene is `sceneId` and the white values are `c` and `w`.
    pub open spec fn found_in(&self, members: Map<Seq<char>, FieldModel>) -> bool {
        &&& self.env@ == member_at(members, "/env"@)
        &&& self.method@ == member_at(members, "/method"@)
        &&& self.red@ == member_at(members, "/result/r"@)
        &&& self.green@ == member_at(members, "/result/g"@)
        &&& self.blue@ == member_at(members, "/result/b"@)
        &&& self.dimming@ == member_at(members, "/result/dimming"@)
        &&& self.mac@ == member_at(members, "/result/mac"@)
        &&& self.emitting@ == member_at(members, "/result/state"@)
        &&& self.scene@ == member_at(members, "/result/sceneId"@)
        &&& self.rssi@ == member_at(members, "/result/rssi"@)
        &&& self.cool@ == member_at(members, "/result/c"@)
        &&& self.warm@ == member_at(members, "/result/w"@)
    }

    /// The members of the document, each looked up at its place.
    pub fn read(value: &serde_json::Value) -> (raw: RawReport)
        ensures
            raw.found_in(json_members(*value)),
    {
        RawReport {
            env: json_field(value, "/env"),
            method: json_field(value, "/method"),
            red: json_field(value, "/result/r"),
            green: json_field(value, "/result/g"),
            blue: json_field(value, "/result/b"),
            dimming: json_field(value, "/result/dimming"),
            mac: json_field(value, "/result/mac"),
            emitting: json_field(value, "/result/state"),
            scene: json_field(value, "/result/sceneId"),
            rssi: json_field(value, "/result/rssi"),
            cool: json_field(value, "/result/c"),
            warm: json_field(value, "/result/w"),
        }
    }
}

impl BulbStatus {
    /// The report that the members make up. If a member is missing that has
    /// to be there, or is of the wrong type, the answer is no report: the
    /// error names the first such member.
    pub fn from_fields(raw: &RawReport) -> (r: Result<BulbStatus, Error>)
        ensures
            raw.gives(r),
    {
        let env = match raw.env.to_text("env") {
            Ok(v) => v,
            Err(e) => return Err(e),
        };
        let method = match raw.method.to_text("method") {
            Ok(v) => v,
            Err(e) => return Err(e),
        };
        let red = match raw.red.to_optional_byte("result.r") {
            Ok(v) => v,
            Err(e) => return Err(e),
        };
        let green = match raw.green.to_optional_byte("result.g") {
            Ok(v) => v,
            Err(e) => return Err(e),
        };
        let blue = match raw.blue.to_optional_byte("result.b") {
            Ok(v) => v,
            Err(e) => return Err(e),
        };
        let dimming = match raw.dimming.to_optional_byte("result.dimming") {
            Ok(v) => v,
            Err(e) => return Err(e),
        };
        let mac = match raw.mac.to_text("result.mac") {
            Ok(v) => v,
            Err(e) => return Err(e),
        };
        let emitting = match raw.emitting.to_flag("result.state") {
            Ok(v) => v,
            Err(e) => return Err(e),
        };
        let scene = match raw.scene.to_byte("result.sceneId") {
            Ok(v) => v,
            Err(e) => return Err(e),
        };
        let rssi = match raw.rssi.to_i32("result.rssi") {
            Ok(v) => v,
            Err(e) => return Err(e),
        };
        let cool = match raw.cool.to_optional_byte("result.c") {
            Ok(v) => v,
            Err(e) => return Err(e),
        };
        let warm = match raw.warm.to_optional_byte("result.w") {
            Ok(v) => v,
            Err(e) => return Err(e),
        };
        Ok(
            BulbStatus {
                env,
                method,
                result: BulbStatusResult {
                    red,
                    green,
                    blue,
                    dimming,
                    mac,
                    emitting,
                    scene,
                    rssi,
                    cool,
                    warm,
                },
            },
        )
    }

    /// The report that the answer to a status query holds: what the members
    /// of the answer give. An answer that does not hold the members of a
    /// report is an error of loading.
    pub fn parse(value: &serde_json::Value) -> (r: Result<BulbStatus, Error>)
        ensures
            exists|raw: RawReport| raw.found_in(json_members(*value)) && #[trigger] raw.gives(r),
    {
        let raw = RawReport::read(value);
        let r = BulbStatus::from_fields(&raw);
        assert(raw.gives(r));
        r
    }
}

} // verus!
