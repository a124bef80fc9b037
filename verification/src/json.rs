//! What the library reads of a JSON value.
//!
//! A `serde_json::Value` is opaque to the proofs.  The four functions that the
//! library calls on one are given names here, and every contract that speaks
//! of a JSON value speaks of it through those names.

use serde_json::Value;
use vstd::prelude::*;

verus! {

/// `serde_json::Value`, taken as it is: nothing is known of what is inside.
#[verifier::external_type_specification]
#[verifier::external_body]
pub struct ExValue(serde_json::Value);

/// What `serde_json::Value::is_object` returns on `json`.
pub uninterp spec fn json_is_object(json: Value) -> bool;

/// What `serde_json::Value::get` returns on `json` for the string index `key`.
pub uninterp spec fn json_member(json: Value, key: Seq<char>) -> Option<Value>;

/// What `serde_json::Value::as_str` returns on `json`, as characters.
pub uninterp spec fn json_string(json: Value) -> Option<Seq<char>>;

/// What `serde_json::Value::as_i64` returns on `json`.
pub uninterp spec fn json_integer(json: Value) -> Option<i64>;

/// `serde_json::Value::is_object`: the result is the one named
/// [`json_is_object`].
pub assume_specification[ serde_json::Value::is_object ](json: &Value) -> (r: bool)
    ensures
        r == json_is_object(*json),
;

/// `serde_json::Value::as_str`: the result is the one named [`json_string`].
pub assume_specification[ serde_json::Value::as_str ](json: &Value) -> (r: Option<&str>)
    ensures
        match r {
            Some(s) => json_string(*json) == Some(s@),
            None => json_string(*json) is None,
        },
;

/// `serde_json::Value::as_i64`: the result is the one named [`json_integer`].
pub assume_specification[ serde_json::Value::as_i64 ](json: &Value) -> (r: Option<i64>)
    ensures
        r == json_integer(*json),
;

/// `serde_json::Value::get` with a string index: the result is the one named
/// [`json_member`].
#[verifier::external_body]
fn get_member<'a>(json: &'a Value, key: &str) -> (r: Option<&'a Value>)
    ensures
        match r {
            Some(v) => json_member(*json, key@) == Some(*v),
            None => json_member(*json, key@) is None,
        },
{
    json.get(key)
}

/// A member of a JSON object, as far as the library tells members apart.
#[derive(Clone, Debug, PartialEq, Eq)]
pub enum Member {
    /// The object has no member of that name, or the value is no object.
    Absent,
    /// The member is a JSON string.
    Text(String),
    /// The member is a number that is an integer and fits an `i64`.
    Integer(i64),
    /// The member is anything else.
    Other,
}

/// A [`Member`] with its text as a sequence of characters.
pub enum MemberView {
    Absent,
    Text(Seq<char>),
    Integer(i64),
    Other,
}

impl View for Member {
    type V = MemberView;

    open spec fn view(&self) -> MemberView {
        match self {
            Member::Absent => MemberView::Absent,
            Member::Text(s) => MemberView::Text(s@),
            Member::Integer(n) => MemberView::Integer(*n),
            Member::Other => MemberView::Other,
        }
    }
}

/// The member `key` of `json`.
pub open spec fn member_of(json: Value, key: Seq<char>) -> MemberView {
    match json_member(json, key) {
        None => MemberView::Absent,
        Some(v) => match json_string(v) {
            Some(s) => MemberView::Text(s),
            None => match json_integer(v) {
                Some(n) => MemberView::Integer(n),
                None => MemberView::Other,
            },
        },
    }
}

/// Reads the member `key` of `json`.
pub fn read_member(json: &Value, key: &str) -> (m: Member)
    ensures
        m@ == member_of(*json, key@),
{
    match get_member(json, key) {
        None => Member::Absent,
        Some(v) => match v.as_str() {
            Some(s) => Member::Text(s.to_owned()),
            None => match v.as_i64() {
                Some(n) => Member::Integer(n),
                None => Member::Other,
            },
        },
    }
}

} // verus!
