//! The boundary to `serde_json`: what the relay reads from a parsed datagram,
//! and the JSON text of a string. Nothing in this file is proved of
//! `serde_json`; the contracts below name its results and state how the
//! functions of this file hand them on.

use vstd::prelude::*;

verus! {

#[verifier::external_type_specification]
#[verifier::external_body]
pub struct ExValue(serde_json::Value);

#[verifier::external_type_specification]
#[verifier::external_body]
pub struct ExError(serde_json::Error);

/// A JSON number, as the accessors of `serde_json::Number` report it.
#[derive(Clone, Debug, PartialEq, Eq)]
pub struct Numeral {
    /// The number where it is an integer from 0 to `u64::MAX`.
    pub unsigned: Option<u64>,
    /// The number where it is an integer from `i64::MIN` to `i64::MAX`.
    pub signed: Option<i64>,
    /// The JSON text of the double that the number is read as.
    pub double: Option<String>,
}

/// What a JSON document holds under one key.
#[derive(Clone, Debug, PartialEq, Eq)]
pub enum Member {
    /// The document is no object, or it is one without the key.
    Absent,
    Null,
    Text(String),
    Number(Numeral),
    /// A boolean, an array or an object.
    Other,
}

/// The model of a `Numeral`.
pub struct NumeralModel {
    pub unsigned: Option<u64>,
    pub signed: Option<i64>,
    pub double: Option<Seq<char>>,
}

/// The model of a `Member`.
pub enum MemberModel {
    Absent,
    Null,
    Text(Seq<char>),
    Number(NumeralModel),
    Other,
}

impl View for Numeral {
    type V = NumeralModel;

    open spec fn view(&self) -> NumeralModel {
        NumeralModel {
            unsigned: self.unsigned,
            signed: self.signed,
            double: match self.double {
                Some(text) => Some(text@),
                None => None,
            },
        }
    }
}

impl View for Member {
    type V = MemberModel;

    open spec fn view(&self) -> MemberModel {
        match self {
            Member::Absent => MemberModel::Absent,
            Member::Null => MemberModel::Null,
            Member::Text(text) => MemberModel::Text(text@),
            Member::Number(number) => MemberModel::Number(number@),
            Member::Other => MemberModel::Other,
        }
    }
}

/// What a parsed document holds: for a JSON object, each of its keys with
/// what stands under it; for any other document, nothing.
pub uninterp spec fn members(document: serde_json::Value) -> Map<Seq<char>, MemberModel>;

/// What `serde_json::from_str` makes of a text: the members of the document
/// that the text is, or `None` where the text is no JSON document.
pub uninterp spec fn parsed(text: Seq<char>) -> Option<Map<Seq<char>, MemberModel>>;

/// What `serde_json::to_string` makes of a string: its JSON text, in quotes
/// and escaped.
pub uninterp spec fn quoted(text: Seq<char>) -> Seq<char>;

/// What stands under `key` among `held`.
pub open spec fn member_at(held: Map<Seq<char>, MemberModel>, key: Seq<char>) -> MemberModel {
    if held.contains_key(key) {
        held[key]
    } else {
        MemberModel::Absent
    }
}

/// `serde_json::from_str`, for a `serde_json::Value`: whether it succeeds, and
/// what the document then holds, is what `parsed` names for the text.
#[verifier::external_body]
pub(crate) fn parse(text: &str) -> (r: Result<serde_json::Value, serde_json::Error>)
    ensures
        r matches Ok(document) ==> parsed(text@) == Some(members(document)),
        (r is Err) ==> (parsed(text@) is None),
{
    serde_json::from_str::<serde_json::Value>(text)
}

/// `serde_json::Value::get` with a string key, and what it finds told apart by
/// its variant. A string is copied. A number is reported by
/// `Number::as_u64`, `Number::as_i64` and, for `double`, by
/// `serde_json::to_string` of the double that `Number::as_f64` gives. The
/// result is what `members` names for the document under the key.
#[verifier::external_body]
pub(crate) fn member(document: &serde_json::Value, key: &str) -> (r: Member)
    ensures
        r@ == member_at(members(*document), key@),
{
    let number = match document.get(key) {
        Some(serde_json::Value::Number(number)) => number,
        Some(serde_json::Value::String(text)) => return Member::Text(text.clone()),
        Some(serde_json::Value::Null) => return Member::Null,
        Some(_) => return Member::Other,
        None => return Member::Absent,
    };
    let double = match number.as_f64() {
        Some(value) => serde_json::to_string(&value).ok(),
        None => None,
    };
    Member::Number(Numeral { unsigned: number.as_u64(), signed: number.as_i64(), double })
}

/// `serde_json::to_string`, for a string: it succeeds, and the text that it
/// gives is what `quoted` names for the string. It writes the string into a
/// vector in memory, and only a failed write can make it fail.
#[verifier::external_body]
pub(crate) fn quote(text: &str) -> (r: Result<String, serde_json::Error>)
    ensures
        r is Ok,
        r matches Ok(json) ==> json@ == quoted(text@),
{
    serde_json::to_string(text)
}

/// The JSON text of a string.
pub(crate) fn quoted_text(text: &str) -> (json: String)
    ensures
        json@ == quoted(text@),
{
    match quote(text) {
        Ok(json) => json,
        Err(_) => unreached(),
    }
}

} // verus!
