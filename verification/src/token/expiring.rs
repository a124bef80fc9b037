//! The lifetime of a token that expires and cannot be refreshed.

use crate::client::response::required_integer;
use crate::client::response::Fields;
use crate::client::response::FieldsView;
use crate::client::response::FromResponse;
use crate::client::response::ParseError;
use crate::json::MemberView;
use crate::time::lemma_after_in_window;
use crate::time::Timestamp;
use crate::time::LAST_NANOS;
use crate::time::NANOS_PER_SEC;
use crate::token::Lifetime;
use vstd::prelude::*;

verus! {

/// An expiring token.
#[derive(Clone, Copy, Debug, PartialEq, Eq)]
pub struct Expiring {
    expires: Timestamp,
}

/// What an [`Expiring`] holds.
pub struct ExpiringView {
    pub expires: Timestamp,
}

impl View for Expiring {
    type V = ExpiringView;

    closed spec fn view(&self) -> ExpiringView {
        ExpiringView { expires: self.expires }
    }
}

/// The expiring lifetime that the fields of a response received at `now` give.
///
/// The response must be an object, must hold no `refresh_token` of any type,
/// and its `expires_in` must be an integer; the first of these that fails
/// decides the error.  The token expires `expires_in` seconds after `now`; a
/// negative number of seconds, or one that leads past the last instant that the
/// clock counts to, makes it expire at `now`.
pub open spec fn expiring_parsed(fields: FieldsView, now: Timestamp) -> Result<
    ExpiringView,
    ParseError,
> {
    if !fields.object {
        Err(ParseError::ExpectedType("object"))
    } else if !(fields.refresh_token is Absent) {
        Err(ParseError::UnexpectedField("refresh_token"))
    } else {
        match required_integer(fields.expires_in, "expires_in") {
            Ok(expires_in) => Ok(ExpiringView { expires: now.after(expires_in as int) }),
            Err(error) => Err(error),
        }
    }
}

impl Expiring {
    /// A lifetime that ends at `expires`.
    pub fn new(expires: Timestamp) -> (r: Expiring)
        ensures
            r@ == (ExpiringView { expires }),
    {
        Expiring { expires }
    }

    /// Returns the expiry time of the access token.
    pub fn expires(&self) -> (t: Timestamp)
        ensures
            t == self@.expires,
    {
        self.expires
    }
}

impl FromResponse for Expiring {
    open spec fn parsed(fields: FieldsView, now: Timestamp) -> Result<ExpiringView, ParseError> {
        expiring_parsed(fields, now)
    }

    /// A refresh builds an expiring lifetime from the new response alone.
    open spec fn parsed_inherit(fields: FieldsView, prev: ExpiringView, now: Timestamp) -> Result<
        ExpiringView,
        ParseError,
    > {
        expiring_parsed(fields, now)
    }

    fn from_fields(fields: &Fields, now: Timestamp) -> (r: Result<Expiring, ParseError>) {
        if !fields.object {
            return Err(ParseError::ExpectedType("object"));
        }
        if fields.refresh_token.is_present() {
            return Err(ParseError::UnexpectedField("refresh_token"));
        }
        match fields.expires_in.required_integer("expires_in") {
            Ok(expires_in) => Ok(Expiring { expires: now.add_secs(expires_in) }),
            Err(error) => Err(error),
        }
    }

    fn from_fields_inherit(fields: &Fields, prev: &Expiring, now: Timestamp) -> (r: Result<
        Expiring,
        ParseError,
    >) {
        Expiring::from_fields(fields, now)
    }
}

impl Lifetime for Expiring {
    /// An expiring token is no longer valid once its expiry time lies strictly
    /// before `now`.
    open spec fn ended(view: ExpiringView, now: Timestamp) -> bool {
        view.expires.before(now)
    }

    fn expired_at(&self, now: Timestamp) -> (r: bool) {
        self.expires.is_before(now)
    }
}

/// A response object that holds a `refresh_token`, of whatever type, gives no
/// expiring lifetime: it is refused for that field.
pub proof fn lemma_expiring_refuses_refresh_token(fields: FieldsView, now: Timestamp)
    requires
        fields.object,
        !(fields.refresh_token is Absent),
    ensures
        Expiring::parsed(fields, now) == Err::<ExpiringView, ParseError>(
            ParseError::UnexpectedField("refresh_token"),
        ),
{
}

/// A token that is valid for a positive number of seconds, which lead from
/// `now` to a time at or before the last instant, expires strictly after
/// `now`, and that many seconds after it.
pub proof fn lemma_expiring_window(fields: FieldsView, now: Timestamp, expires_in: i64)
    requires
        fields.object,
        fields.refresh_token is Absent,
        fields.expires_in == MemberView::Integer(expires_in),
        0 < expires_in,
        now.nanos + expires_in * NANOS_PER_SEC <= LAST_NANOS,
    ensures
        Expiring::parsed(fields, now) matches Ok(lifetime) && now.before(lifetime.expires)
            && lifetime.expires.nanos == now.nanos + expires_in * NANOS_PER_SEC
            && !Expiring::ended(lifetime, now),
{
    lemma_after_in_window(now, expires_in as int);
}

/// A number of seconds that is negative, or that leads from `now` past the
/// last instant, makes the token expire at `now`.
pub proof fn lemma_expiring_clamps(fields: FieldsView, now: Timestamp, expires_in: i64)
    requires
        fields.object,
        fields.refresh_token is Absent,
        fields.expires_in == MemberView::Integer(expires_in),
        expires_in < 0 || now.nanos + expires_in * NANOS_PER_SEC > LAST_NANOS,
    ensures
        Expiring::parsed(fields, now) == Ok::<ExpiringView, ParseError>(
            ExpiringView { expires: now },
        ),
{
}

} // verus!
