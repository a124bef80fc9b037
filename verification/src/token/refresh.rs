//! The lifetime of a token that expires and can be refreshed.

use crate::client::response::optional_text;
use crate::client::response::required_integer;
use crate::client::response::view_result;
use crate::client::response::Fields;
use crate::client::response::FieldsView;
use crate::client::response::FromResponse;
use crate::client::response::ParseError;
use crate::json::MemberView;
use crate::text::eq_ignore_case;
use crate::time::Timestamp;
use crate::token::Bearer;
use crate::token::BearerView;
use crate::token::Lifetime;
use vstd::prelude::*;

verus! {

/// An expiring token which can be refreshed.
#[derive(Clone, Debug, PartialEq, Eq)]
pub struct Refresh {
    refresh_token: String,
    expires: Timestamp,
}

/// What a [`Refresh`] holds.
pub struct RefreshView {
    pub refresh_token: Seq<char>,
    pub expires: Timestamp,
}

impl View for Refresh {
    type V = RefreshView;

    closed spec fn view(&self) -> RefreshView {
        RefreshView { refresh_token: self.refresh_token@, expires: self.expires }
    }
}

/// The refresh token that a lifetime is built with: the one that the response
/// names, where it names one; the inherited one, where the response has no
/// `refresh_token` at all and there is one to inherit.  A `refresh_token` that
/// is there but is no string is never made up for by the inherited one.
pub open spec fn refresh_token_of(fields: FieldsView, inherited: Option<Seq<char>>) -> Option<
    Seq<char>,
> {
    match optional_text(fields.refresh_token, "refresh_token") {
        Ok(Some(refresh_token)) => Some(refresh_token),
        Ok(None) => inherited,
        Err(_) => None,
    }
}

/// The refreshable lifetime that the fields of a response received at `now`
/// give, where `inherited` is the refresh token of the lifetime that is
/// replaced, if one is.
///
/// The response must be an object, its `refresh_token` must be a string, or
/// be absent where one is inherited, and its `expires_in` must be an integer;
/// the first of these that fails decides the error.  The expiry time is that
/// of an expiring token.
pub open spec fn refresh_parsed(
    fields: FieldsView,
    inherited: Option<Seq<char>>,
    now: Timestamp,
) -> Result<RefreshView, ParseError> {
    if !fields.object {
        Err(ParseError::ExpectedType("object"))
    } else {
        match refresh_token_of(fields, inherited) {
            None => Err(ParseError::ExpectedFieldType("refresh_token", "string")),
            Some(refresh_token) => match required_integer(fields.expires_in, "expires_in") {
                Ok(expires_in) => Ok(
                    RefreshView { refresh_token, expires: now.after(expires_in as int) },
                ),
                Err(error) => Err(error),
            },
        }
    }
}

impl Refresh {
    /// A lifetime that ends at `expires` and is renewed with `refresh_token`.
    pub fn new(refresh_token: String, expires: Timestamp) -> (r: Refresh)
        ensures
            r@ == (RefreshView { refresh_token: refresh_token@, expires }),
    {
        Refresh { refresh_token, expires }
    }

    /// Returns the refresh token.
    pub fn refresh_token(&self) -> (s: &str)
        ensures
            s@ == self@.refresh_token,
    {
        self.refresh_token.as_str()
    }

    /// Returns the expiry time of the access token.
    pub fn expires(&self) -> (t: Timestamp)
        ensures
            t == self@.expires,
    {
        self.expires
    }

    /// Builds the lifetime from the fields of a response received at `now`;
    /// `inherited` is the refresh token to fall back on.
    fn from_fields_or(fields: &Fields, inherited: Option<&str>, now: Timestamp) -> (r: Result<
        Refresh,
        ParseError,
    >)
        ensures
            view_result(r) == refresh_parsed(
                fields@,
                match inherited {
                    Some(s) => Some(s@),
                    None => None,
                },
                now,
            ),
    {
        if !fields.object {
            return Err(ParseError::ExpectedType("object"));
        }
        let refresh_token = match fields.refresh_token.optional_text("refresh_token") {
            Ok(Some(refresh_token)) => refresh_token,
            Ok(None) => match inherited {
                Some(refresh_token) => refresh_token.to_owned(),
                None => {
                    return Err(ParseError::ExpectedFieldType("refresh_token", "string"));
                },
            },
            Err(error) => {
                return Err(error);
            },
        };
        match fields.expires_in.required_integer("expires_in") {
            Ok(expires_in) => Ok(Refresh { refresh_token, expires: now.add_secs(expires_in) }),
            Err(error) => Err(error),
        }
    }
}

impl FromResponse for Refresh {
    /// A first response has no refresh token to fall back on.
    open spec fn parsed(fields: FieldsView, now: Timestamp) -> Result<RefreshView, ParseError> {
        refresh_parsed(fields, None, now)
    }

    /// A refresh response may leave the refresh token out: the one of the
    /// lifetime that is replaced is then kept.
    open spec fn parsed_inherit(fields: FieldsView, prev: RefreshView, now: Timestamp) -> Result<
        RefreshView,
        ParseError,
    > {
        refresh_parsed(fields, Some(prev.refresh_token), now)
    }

    fn from_fields(fields: &Fields, now: Timestamp) -> (r: Result<Refresh, ParseError>) {
        Refresh::from_fields_or(fields, None, now)
    }

    fn from_fields_inherit(fields: &Fields, prev: &Refresh, now: Timestamp) -> (r: Result<
        Refresh,
        ParseError,
    >) {
        Refresh::from_fields_or(fields, Some(prev.refresh_token.as_str()), now)
    }
}

impl Lifetime for Refresh {
    /// A refreshable token is no longer valid once its expiry time lies
    /// strictly before `now`.
    open spec fn ended(view: RefreshView, now: Timestamp) -> bool {
        view.expires.before(now)
    }

    fn expired_at(&self, now: Timestamp) -> (r: bool) {
        self.expires.is_before(now)
    }
}

/// A refresh response that has no `refresh_token` keeps the refresh token of
/// the lifetime that it replaces.  The expiry time comes from the new
/// response.
pub proof fn lemma_refresh_inherits(fields: FieldsView, prev: RefreshView, now: Timestamp)
    requires
        fields.object,
        fields.refresh_token is Absent,
        fields.expires_in is Integer,
    ensures
        Refresh::parsed_inherit(fields, prev, now) == Ok::<RefreshView, ParseError>(
            RefreshView {
                refresh_token: prev.refresh_token,
                expires: now.after(fields.expires_in->Integer_0 as int),
            },
        ),
{
}

/// A refresh response that names a refresh token replaces the one of the
/// lifetime that it replaces.
pub proof fn lemma_refresh_replaces(
    fields: FieldsView,
    prev: RefreshView,
    now: Timestamp,
    refresh_token: Seq<char>,
)
    requires
        fields.object,
        fields.refresh_token == MemberView::Text(refresh_token),
        fields.expires_in is Integer,
    ensures
        Refresh::parsed_inherit(fields, prev, now) == Ok::<RefreshView, ParseError>(
            RefreshView { refresh_token, expires: now.after(fields.expires_in->Integer_0 as int) },
        ),
{
}

/// A refresh response whose `refresh_token` is there but is no string is
/// refused for the type of that field: nothing is inherited in its place.
pub proof fn lemma_refresh_refuses_mistyped_token(
    fields: FieldsView,
    prev: RefreshView,
    now: Timestamp,
)
    requires
        fields.object,
        !(fields.refresh_token is Absent),
        !(fields.refresh_token is Text),
    ensures
        Refresh::parsed_inherit(fields, prev, now) == Err::<RefreshView, ParseError>(
            ParseError::ExpectedFieldType("refresh_token", "string"),
        ),
{
}

/// A first response must name its refresh token: one that names none as a
/// string gives no refreshable lifetime.
pub proof fn lemma_refresh_needs_token(fields: FieldsView, now: Timestamp)
    requires
        fields.object,
        !(fields.refresh_token is Text),
    ensures
        Refresh::parsed(fields, now) == Err::<RefreshView, ParseError>(
            ParseError::ExpectedFieldType("refresh_token", "string"),
        ),
{
}

/// Refreshing a bearer token takes the access token from the new response and,
/// where that response has no `refresh_token`, keeps the refresh token of the
/// token that is refreshed.
pub proof fn lemma_bearer_refresh_inherits(
    fields: FieldsView,
    prev: BearerView<RefreshView>,
    now: Timestamp,
    token_type: Seq<char>,
    access_token: Seq<char>,
)
    requires
        fields.object,
        fields.token_type == MemberView::Text(token_type),
        eq_ignore_case(token_type, "bearer"@),
        fields.access_token == MemberView::Text(access_token),
        access_token.len() > 0,
        optional_text(fields.scope, "scope") is Ok,
        optional_text(fields.id_token, "id_token") is Ok,
        fields.expires_in is Integer,
        fields.refresh_token is Absent,
    ensures
        Bearer::<Refresh>::parsed_inherit(fields, prev, now) matches Ok(token)
            && token.access_token == access_token && token.lifetime.refresh_token
            == prev.lifetime.refresh_token,
{
}

} // verus!
