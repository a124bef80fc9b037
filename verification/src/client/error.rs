//! The errors of an exchange with a provider.

use crate::client::response::ParseError;
use crate::error::OAuth2Error;
use crate::error::OAuth2ErrorView;
use vstd::prelude::*;
use vstd::std_specs::convert::FromSpecImpl;

verus! {

/// `serde_json::Error`, taken as it is: nothing is known of what is inside.
#[verifier::external_type_specification]
#[verifier::external_body]
pub struct ExJsonError(serde_json::Error);

/// Errors that can occur during authorization.
#[derive(Debug)]
pub enum ClientError {
    /// The body of a response is no JSON text.
    Json(serde_json::Error),
    /// The response is JSON, but not of the shape of a token.
    Parse(ParseError),
    /// The provider answered with an OAuth 2.0 error.
    OAuth2(OAuth2Error),
}

/// A [`ClientError`] with what it holds by its view.
pub enum ClientErrorView {
    Json(serde_json::Error),
    Parse(ParseError),
    OAuth2(OAuth2ErrorView),
}

impl View for ClientError {
    type V = ClientErrorView;

    open spec fn view(&self) -> ClientErrorView {
        match self {
            ClientError::Json(error) => ClientErrorView::Json(*error),
            ClientError::Parse(error) => ClientErrorView::Parse(*error),
            ClientError::OAuth2(error) => ClientErrorView::OAuth2(error@),
        }
    }
}

impl From<serde_json::Error> for ClientError {
    fn from(err: serde_json::Error) -> (r: ClientError) {
        ClientError::Json(err)
    }
}

impl FromSpecImpl<serde_json::Error> for ClientError {
    open spec fn obeys_from_spec() -> bool {
        true
    }

    open spec fn from_spec(err: serde_json::Error) -> ClientError {
        ClientError::Json(err)
    }
}

impl From<ParseError> for ClientError {
    fn from(err: ParseError) -> (r: ClientError) {
        ClientError::Parse(err)
    }
}

impl FromSpecImpl<ParseError> for ClientError {
    open spec fn obeys_from_spec() -> bool {
        true
    }

    open spec fn from_spec(err: ParseError) -> ClientError {
        ClientError::Parse(err)
    }
}

impl From<OAuth2Error> for ClientError {
    fn from(err: OAuth2Error) -> (r: ClientError) {
        ClientError::OAuth2(err)
    }
}

impl FromSpecImpl<OAuth2Error> for ClientError {
    open spec fn obeys_from_spec() -> bool {
        true
    }

    open spec fn from_spec(err: OAuth2Error) -> ClientError {
        ClientError::OAuth2(err)
    }
}

} // verus!
