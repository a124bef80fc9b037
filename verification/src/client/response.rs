//! Reading a response: the members it holds, and the errors of its shape.

use crate::json::json_is_object;
use crate::json::member_of;
use crate::json::read_member;
use crate::json::Member;
use crate::json::MemberView;
use crate::time::Timestamp;
use serde_json::Value;
use vstd::prelude::*;

verus! {

/// What is wrong with the shape of a response.
#[derive(Clone, Copy, Debug, PartialEq, Eq)]
pub enum ParseError {
    /// The response is not of the named type.
    ExpectedType(&'static str),
    /// The named field is missing, or is not of the named type.
    ExpectedFieldType(&'static str, &'static str),
    /// The named field has the right type, but not the named value.
    ExpectedFieldValue(&'static str, &'static str),
    /// The named field is present where it must not be.
    UnexpectedField(&'static str),
}

/// The members of a response that the library reads, each as it was found.
#[derive(Clone, Debug, PartialEq, Eq)]
pub struct Fields {
    /// Whether the response is a JSON object at all.
    pub object: bool,
    pub token_type: Member,
    pub access_token: Member,
    pub scope: Member,
    pub id_token: Member,
    pub expires_in: Member,
    pub refresh_token: Member,
    pub error: Member,
    pub error_description: Member,
    pub error_uri: Member,
}

/// [`Fields`] with every text as a sequence of characters.
pub struct FieldsView {
    pub object: bool,
    pub token_type: MemberView,
    pub access_token: MemberView,
    pub scope: MemberView,
    pub id_token: MemberView,
    pub expires_in: MemberView,
    pub refresh_token: MemberView,
    pub error: MemberView,
    pub error_description: MemberView,
    pub error_uri: MemberView,
}

impl View for Fields {
    type V = FieldsView;

    open spec fn view(&self) -> FieldsView {
        FieldsView {
            object: self.object,
            token_type: self.token_type@,
            access_token: self.access_token@,
            scope: self.scope@,
            id_token: self.id_token@,
            expires_in: self.expires_in@,
            refresh_token: self.refresh_token@,
            error: self.error@,
            error_description: self.error_description@,
            error_uri: self.error_uri@,
        }
    }
}

/// The fields that `json` holds.
pub open spec fn fields_of(json: Value) -> FieldsView {
    FieldsView {
        object: json_is_object(json),
        token_type: member_of(json, "token_type"@),
        access_token: member_of(json, "access_token"@),
        scope: member_of(json, "scope"@),
        id_token: member_of(json, "id_token"@),
        expires_in: member_of(json, "expires_in"@),
        refresh_token: member_of(json, "refresh_token"@),
        error: member_of(json, "error"@),
        error_description: member_of(json, "error_description"@),
        error_uri: member_of(json, "error_uri"@),
    }
}

impl Fields {
    /// Reads the fields of `json`.
    pub fn read(json: &Value) -> (fields: Fields)
        ensures
            fields@ == fields_of(*json),
    {
        Fields {
            object: json.is_object(),
            token_type: read_member(json, "token_type"),
            access_token: read_member(json, "access_token"),
            scope: read_member(json, "scope"),
            id_token: read_member(json, "id_token"),
            expires_in: read_member(json, "expires_in"),
            refresh_token: read_member(json, "refresh_token"),
            error: read_member(json, "error"),
            error_description: read_member(json, "error_description"),
            error_uri: read_member(json, "error_uri"),
        }
    }
}

/// The text of a member that must be a string.
pub open spec fn required_text(member: MemberView, field: &'static str) -> Result<
    Seq<char>,
    ParseError,
> {
    match member {
        MemberView::Text(s) => Ok(s),
        _ => Err(ParseError::ExpectedFieldType(field, "string")),
    }
}

/// The text of a member that may be left out: none where the member is
/// absent, its text where it is a string.  A member that is there but is no
/// string is an error of the field's type, as it is for a required member.
pub open spec fn optional_text(member: MemberView, field: &'static str) -> Result<
    Option<Seq<char>>,
    ParseError,
> {
    match member {
        MemberView::Absent => Ok(None),
        MemberView::Text(s) => Ok(Some(s)),
        _ => Err(ParseError::ExpectedFieldType(field, "string")),
    }
}

/// The view of what reading an optional string hands back.
pub open spec fn view_optional_result(result: Result<Option<String>, ParseError>) -> Result<
    Option<Seq<char>>,
    ParseError,
> {
    match result {
        Ok(text) => Ok(view_option(text)),
        Err(error) => Err(error),
    }
}

/// The number of a member that must be an integer.
pub open spec fn required_integer(member: MemberView, field: &'static str) -> Result<
    i64,
    ParseError,
> {
    match member {
        MemberView::Integer(n) => Ok(n),
        _ => Err(ParseError::ExpectedFieldType(field, "i64")),
    }
}

/// The view of an optional string.
pub open spec fn view_option(text: Option<String>) -> Option<Seq<char>> {
    match text {
        Some(s) => Some(s@),
        None => None,
    }
}

/// The view of what a parser hands back: a value by its view, an error as it
/// is.
pub open spec fn view_result<T: View>(result: Result<T, ParseError>) -> Result<T::V, ParseError> {
    match result {
        Ok(value) => Ok(value@),
        Err(error) => Err(error),
    }
}

impl Member {
    /// The text of a member that must be a string, see [`required_text`].
    pub fn required_text(&self, field: &'static str) -> (r: Result<String, ParseError>)
        ensures
            view_result(r) == required_text(self@, field),
    {
        match self {
            Member::Text(s) => Ok(s.clone()),
            _ => Err(ParseError::ExpectedFieldType(field, "string")),
        }
    }

    /// The text of a member that may be left out, see [`optional_text`].
    pub fn optional_text(&self, field: &'static str) -> (r: Result<Option<String>, ParseError>)
        ensures
            view_optional_result(r) == optional_text(self@, field),
    {
        match self {
            Member::Absent => Ok(None),
            Member::Text(s) => Ok(Some(s.clone())),
            _ => Err(ParseError::ExpectedFieldType(field, "string")),
        }
    }

    /// The number of a member that must be an integer, see
    /// [`required_integer`].
    pub fn required_integer(&self, field: &'static str) -> (r: Result<i64, ParseError>)
        ensures
            r == required_integer(self@, field),
    {
        match self {
            Member::Integer(n) => Ok(*n),
            _ => Err(ParseError::ExpectedFieldType(field, "i64")),
        }
    }

    /// Whether the member is there at all, whatever its type.
    pub fn is_present(&self) -> (r: bool)
        ensures
            r == !(self@ is Absent),
    {
        match self {
            Member::Absent => false,
            _ => true,
        }
    }
}

/// A value that is built from a response.
///
/// `parsed` and `parsed_inherit` say what is built from given fields at a given
/// time; the functions compute it.  A refresh builds from the new response and
/// from the value that it replaces.
pub trait FromResponse: Sized + View {
    /// What [`FromResponse::from_fields`] builds.
    spec fn parsed(fields: FieldsView, now: Timestamp) -> Result<Self::V, ParseError>;

    /// What [`FromResponse::from_fields_inherit`] builds.
    spec fn parsed_inherit(fields: FieldsView, prev: Self::V, now: Timestamp) -> Result<
        Self::V,
        ParseError,
    >;

    /// Builds the value from the fields of a response received at `now`.
    fn from_fields(fields: &Fields, now: Timestamp) -> (r: Result<Self, ParseError>)
        ensures
            view_result(r) == Self::parsed(fields@, now),
    ;

    /// Builds the value from the fields of a refresh response received at
    /// `now`, and from the value `prev` that it replaces.
    fn from_fields_inherit(fields: &Fields, prev: &Self, now: Timestamp) -> (r: Result<
        Self,
        ParseError,
    >)
        ensures
            view_result(r) == Self::parsed_inherit(fields@, prev@, now),
    ;

    /// Builds the value from a response, at the time the system clock shows,
    /// which lies at or before the last instant.
    fn from_response(json: &Value) -> (r: Result<Self, ParseError>)
        ensures
            exists|now: Timestamp|
                now.in_range() && view_result(r) == #[trigger] Self::parsed(fields_of(*json), now),
    {
        let fields = Fields::read(json);
        let now = Timestamp::now();
        Self::from_fields(&fields, now)
    }

    /// Builds the value from a refresh response and the value that it
    /// replaces, at the time the system clock shows.
    fn from_response_inherit(json: &Value, prev: &Self) -> (r: Result<Self, ParseError>)
        ensures
            exists|now: Timestamp|
                now.in_range() && view_result(r) == #[trigger] Self::parsed_inherit(
                    fields_of(*json),
                    prev@,
                    now,
                ),
    {
        let fields = Fields::read(json);
        let now = Timestamp::now();
        Self::from_fields_inherit(&fields, prev, now)
    }
}

} // verus!
