//! The lifetime of a token that never expires.

use crate::client::response::Fields;
use crate::client::response::FieldsView;
use crate::client::response::FromResponse;
use crate::client::response::ParseError;
use crate::time::Timestamp;
use crate::token::Lifetime;
use vstd::prelude::*;

verus! {

/// A static, non-expiring token.
#[derive(Clone, Copy, Debug, PartialEq, Eq)]
pub struct Static;

impl View for Static {
    type V = Static;

    open spec fn view(&self) -> Static {
        Static
    }
}

impl FromResponse for Static {
    /// Every response gives a static lifetime: no field is consulted.
    open spec fn parsed(fields: FieldsView, now: Timestamp) -> Result<Static, ParseError> {
        Ok(Static)
    }

    open spec fn parsed_inherit(fields: FieldsView, prev: Static, now: Timestamp) -> Result<
        Static,
        ParseError,
    > {
        Ok(Static)
    }

    fn from_fields(fields: &Fields, now: Timestamp) -> (r: Result<Static, ParseError>) {
        Ok(Static)
    }

    fn from_fields_inherit(fields: &Fields, prev: &Static, now: Timestamp) -> (r: Result<
        Static,
        ParseError,
    >) {
        Ok(Static)
    }
}

impl Lifetime for Static {
    /// A static token is valid at every time.
    open spec fn ended(view: Static, now: Timestamp) -> bool {
        false
    }

    fn expired_at(&self, now: Timestamp) -> (r: bool) {
        false
    }

    fn expired(&self) -> (r: bool)
        ensures
            !r,
    {
        assert(!Self::ended(self@, Timestamp { nanos: 0 }));
        false
    }
}

} // verus!
