//! Which sensor record a datagram's JSON is: the members that the two records
//! are made of, and the rule that tells the records apart.
//!
//! The wire carries no tag. A document is an inertial reading where it holds
//! every member of one, each of the right kind; failing that it is a ranging
//! measurement where it holds every member of one; failing both it is no
//! record. The inertial reading is tried first, so a document that holds the
//! members of both is an inertial reading. Members that neither record knows
//! are passed over.

use crate::common::{Envelope, InertialModel, JsonData, MPU6050DataInner, ParseError, RangingModel, Real, UWBDataInner};
use crate::json::{member, member_at, members, parsed, Member, MemberModel};
use vstd::prelude::*;

verus! {

/// What a document holds under the keys that the records are made of.
#[derive(Clone, Debug, PartialEq, Eq)]
pub struct Fields {
    pub source: Member,
    pub destination: Member,
    pub range: Member,
    pub frequency: Member,
    pub acc_x: Member,
    pub acc_y: Member,
    pub acc_z: Member,
    pub rot_x: Member,
    pub rot_y: Member,
    pub rot_z: Member,
    pub timestamp: Member,
}

/// The model of `Fields`.
pub struct FieldsModel {
    pub source: MemberModel,
    pub destination: MemberModel,
    pub range: MemberModel,
    pub frequency: MemberModel,
    pub acc_x: MemberModel,
    pub acc_y: MemberModel,
    pub acc_z: MemberModel,
    pub rot_x: MemberModel,
    pub rot_y: MemberModel,
    pub rot_z: MemberModel,
    pub timestamp: MemberModel,
}

impl View for Fields {
    type V = FieldsModel;

    open spec fn view(&self) -> FieldsModel {
        FieldsModel {
            source: self.source@,
            destination: self.destination@,
            range: self.range@,
            frequency: self.frequency@,
            acc_x: self.acc_x@,
            acc_y: self.acc_y@,
            acc_z: self.acc_z@,
            rot_x: self.rot_x@,
            rot_y: self.rot_y@,
            rot_z: self.rot_z@,
            timestamp: self.timestamp@,
        }
    }
}

/// The fields among the members of a document.
pub open spec fn fields_in(held: Map<Seq<char>, MemberModel>) -> FieldsModel {
    FieldsModel {
        source: member_at(held, "source"@),
        destination: member_at(held, "destination"@),
        range: member_at(held, "range"@),
        frequency: member_at(held, "frequency"@),
        acc_x: member_at(held, "acc_x"@),
        acc_y: member_at(held, "acc_y"@),
        acc_z: member_at(held, "acc_z"@),
        rot_x: member_at(held, "rot_x"@),
        rot_y: member_at(held, "rot_y"@),
        rot_z: member_at(held, "rot_z"@),
        timestamp: member_at(held, "timestamp"@),
    }
}

/// A member that must be a string: its text.
pub open spec fn text_of(m: MemberModel) -> Option<Seq<char>> {
    match m {
        MemberModel::Text(text) => Some(text),
        _ => None,
    }
}

/// A member that may be missing or null, and must else be a string.
pub open spec fn optional_text_of(m: MemberModel) -> Option<Option<Seq<char>>> {
    match m {
        MemberModel::Absent => Some(None),
        MemberModel::Null => Some(None),
        MemberModel::Text(text) => Some(Some(text)),
        _ => None,
    }
}

/// A member that must be a number: the text of the double that it is read as.
pub open spec fn real_of(m: MemberModel) -> Option<Seq<char>> {
    match m {
        MemberModel::Number(number) => number.double,
        _ => None,
    }
}

/// A member that must be an integer of 32 bits.
pub open spec fn frequency_of(m: MemberModel) -> Option<i32> {
    match m {
        MemberModel::Number(number) => match number.signed {
            Some(n) => if i32::MIN <= n <= i32::MAX {
                Some(n as i32)
            } else {
                None
            },
            None => None,
        },
        _ => None,
    }
}

/// A member that may be missing or null, and must else be an integer from 0
/// to `u64::MAX`.
pub open spec fn optional_stamp_of(m: MemberModel) -> Option<Option<u64>> {
    match m {
        MemberModel::Absent => Some(None),
        MemberModel::Null => Some(None),
        MemberModel::Number(number) => match number.unsigned {
            Some(t) => Some(Some(t)),
            None => None,
        },
        _ => None,
    }
}

/// Whether the fields hold every member of an inertial reading, each of the
/// right kind.
pub open spec fn is_inertial(f: FieldsModel) -> bool {
    &&& text_of(f.source) is Some
    &&& frequency_of(f.frequency) is Some
    &&& real_of(f.acc_x) is Some
    &&& real_of(f.acc_y) is Some
    &&& real_of(f.acc_z) is Some
    &&& real_of(f.rot_x) is Some
    &&& real_of(f.rot_y) is Some
    &&& real_of(f.rot_z) is Some
    &&& optional_stamp_of(f.timestamp) is Some
}

/// Whether the fields hold every member of a ranging measurement, each of the
/// right kind.
pub open spec fn is_ranging(f: FieldsModel) -> bool {
    &&& text_of(f.source) is Some
    &&& optional_text_of(f.destination) is Some
    &&& real_of(f.range) is Some
    &&& optional_stamp_of(f.timestamp) is Some
}

/// The inertial reading that the fields hold.
pub open spec fn inertial_of(f: FieldsModel) -> InertialModel
    recommends
        is_inertial(f),
{
    InertialModel {
        source: text_of(f.source)->0,
        frequency: frequency_of(f.frequency)->0,
        acc_x: real_of(f.acc_x)->0,
        acc_y: real_of(f.acc_y)->0,
        acc_z: real_of(f.acc_z)->0,
        rot_x: real_of(f.rot_x)->0,
        rot_y: real_of(f.rot_y)->0,
        rot_z: real_of(f.rot_z)->0,
        timestamp: optional_stamp_of(f.timestamp)->0,
    }
}

/// The ranging measurement that the fields hold.
pub open spec fn ranging_of(f: FieldsModel) -> RangingModel
    recommends
        is_ranging(f),
{
    RangingModel {
        source: text_of(f.source)->0,
        destination: optional_text_of(f.destination)->0,
        range: real_of(f.range)->0,
        timestamp: optional_stamp_of(f.timestamp)->0,
    }
}

/// The record that the fields are: an inertial reading where they hold one, a
/// ranging measurement where they hold that and no inertial reading, and none
/// else.
pub open spec fn classified(f: FieldsModel) -> Option<Envelope> {
    if is_inertial(f) {
        Some(Envelope::Inertial(inertial_of(f)))
    } else if is_ranging(f) {
        Some(Envelope::Ranging(ranging_of(f)))
    } else {
        None
    }
}

/// The record that a text is: the record of its members where the text is a
/// JSON document, and none else.
pub open spec fn record_of(text: Seq<char>) -> Option<Envelope> {
    match parsed(text) {
        Some(held) => classified(fields_in(held)),
        None => None,
    }
}

fn text_member(m: &Member) -> (r: Option<String>)
    ensures
        r matches Some(s) ==> text_of(m@) == Some(s@),
        (r is None) ==> (text_of(m@) is None),
{
    match m {
        Member::Text(text) => Some(text.clone()),
        _ => None,
    }
}

fn optional_text_member(m: &Member) -> (r: Option<Option<String>>)
    ensures
        r matches Some(Some(s)) ==> optional_text_of(m@) == Some(Some(s@)),
        r matches Some(None) ==> optional_text_of(m@) == Some(None::<Seq<char>>),
        (r is None) ==> (optional_text_of(m@) is None),
{
    match m {
        Member::Absent => Some(None),
        Member::Null => Some(None),
        Member::Text(text) => Some(Some(text.clone())),
        _ => None,
    }
}

fn real_member(m: &Member) -> (r: Option<Real>)
    ensures
        r matches Some(x) ==> real_of(m@) == Some(x@),
        (r is None) ==> (real_of(m@) is None),
{
    match m {
        Member::Number(number) => match &number.double {
            Some(text) => Some(Real { text: text.clone() }),
            None => None,
        },
        _ => None,
    }
}

fn frequency_member(m: &Member) -> (r: Option<i32>)
    ensures
        r == frequency_of(m@),
{
    match m {
        Member::Number(number) => match number.signed {
            Some(n) => if -2147483648 <= n && n <= 2147483647 {
                Some(n as i32)
            } else {
                None
            },
            None => None,
        },
        _ => None,
    }
}

fn optional_stamp_member(m: &Member) -> (r: Option<Option<u64>>)
    ensures
        r == optional_stamp_of(m@),
{
    match m {
        Member::Absent => Some(None),
        Member::Null => Some(None),
        Member::Number(number) => match number.unsigned {
            Some(t) => Some(Some(t)),
            None => None,
        },
        _ => None,
    }
}

fn inertial(f: &Fields) -> (r: Option<MPU6050DataInner>)
    ensures
        r matches Some(m) ==> is_inertial(f@) && m@ == inertial_of(f@),
        (r is None) ==> !is_inertial(f@),
{
    let source = match text_member(&f.source) {
        Some(x) => x,
        None => { return None; },
    };
    let frequency = match frequency_member(&f.frequency) {
        Some(x) => x,
        None => { return None; },
    };
    let acc_x = match real_member(&f.acc_x) {
        Some(x) => x,
        None => { return None; },
    };
    let acc_y = match real_member(&f.acc_y) {
        Some(x) => x,
        None => { return None; },
    };
    let acc_z = match real_member(&f.acc_z) {
        Some(x) => x,
        None => { return None; },
    };
    let rot_x = match real_member(&f.rot_x) {
        Some(x) => x,
        None => { return None; },
    };
    let rot_y = match real_member(&f.rot_y) {
        Some(x) => x,
        None => { return None; },
    };
    let rot_z = match real_member(&f.rot_z) {
        Some(x) => x,
        None => { return None; },
    };
    let timestamp = match optional_stamp_member(&f.timestamp) {
        Some(x) => x,
        None => { return None; },
    };
    Some(
        MPU6050DataInner {
            source,
            frequency,
            acc_x,
            acc_y,
            acc_z,
            rot_x,
            rot_y,
            rot_z,
            timestamp,
        },
    )
}

fn ranging(f: &Fields) -> (r: Option<UWBDataInner>)
    ensures
        r matches Some(u) ==> is_ranging(f@) && u@ == ranging_of(f@),
        (r is None) ==> !is_ranging(f@),
{
    let source = match text_member(&f.source) {
        Some(x) => x,
        None => { return None; },
    };
    let destination = match optional_text_member(&f.destination) {
        Some(x) => x,
        None => { return None; },
    };
    let range = match real_member(&f.range) {
        Some(x) => x,
        None => { return None; },
    };
    let timestamp = match optional_stamp_member(&f.timestamp) {
        Some(x) => x,
        None => { return None; },
    };
    Some(UWBDataInner { source, destination, range, timestamp })
}

/// Tells which record the fields are.
pub fn classify(f: &Fields) -> (r: Result<JsonData, ParseError>)
    ensures
        r matches Ok(data) ==> classified(f@) == Some(data@),
        (r is Err) ==> (classified(f@) is None),
{
    match inertial(f) {
        Some(m) => Ok(JsonData::MPU6050Data(m)),
        None => match ranging(f) {
            Some(u) => Ok(JsonData::UWBData(u)),
            None => Err(ParseError),
        },
    }
}

/// Reads the fields of a parsed document.
pub fn fields(document: &serde_json::Value) -> (r: Fields)
    ensures
        r@ == fields_in(members(*document)),
{
    Fields {
        source: member(document, "source"),
        destination: member(document, "destination"),
        range: member(document, "range"),
        frequency: member(document, "frequency"),
        acc_x: member(document, "acc_x"),
        acc_y: member(document, "acc_y"),
        acc_z: member(document, "acc_z"),
        rot_x: member(document, "rot_x"),
        rot_y: member(document, "rot_y"),
        rot_z: member(document, "rot_z"),
        timestamp: member(document, "timestamp"),
    }
}

} // verus!
