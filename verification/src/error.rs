//! The errors that a provider reports.

use crate::client::response::optional_text;
use crate::client::response::view_option;
use crate::client::response::Fields;
use crate::client::response::FieldsView;
use crate::client::response::FromResponse;
use crate::client::response::ParseError;
use crate::json::Member;
use crate::json::MemberView;
use crate::text::str_eq;
use crate::time::Timestamp;
use vstd::prelude::*;

verus! {

/// The code of an OAuth 2.0 error.
///
/// See [RFC 6749, section 5.2](http://tools.ietf.org/html/rfc6749#section-5.2).
#[derive(Clone, Debug, PartialEq, Eq)]
pub enum OAuth2ErrorCode {
    /// The request is missing a required parameter, or is otherwise malformed.
    InvalidRequest,
    /// Client authentication failed.
    InvalidClient,
    /// The authorization grant or the refresh token is invalid.
    InvalidGrant,
    /// The client may not use this grant type.
    UnauthorizedClient,
    /// The authorization server does not support the grant type.
    UnsupportedGrantType,
    /// The requested scope is invalid.
    InvalidScope,
    /// A code that is none of the above, as the provider wrote it.
    Unrecognized(String),
}

/// An [`OAuth2ErrorCode`] with its text as a sequence of characters.
pub enum OAuth2ErrorCodeView {
    InvalidRequest,
    InvalidClient,
    InvalidGrant,
    UnauthorizedClient,
    UnsupportedGrantType,
    InvalidScope,
    Unrecognized(Seq<char>),
}

impl View for OAuth2ErrorCode {
    type V = OAuth2ErrorCodeView;

    open spec fn view(&self) -> OAuth2ErrorCodeView {
        match self {
            OAuth2ErrorCode::InvalidRequest => OAuth2ErrorCodeView::InvalidRequest,
            OAuth2ErrorCode::InvalidClient => OAuth2ErrorCodeView::InvalidClient,
            OAuth2ErrorCode::InvalidGrant => OAuth2ErrorCodeView::InvalidGrant,
            OAuth2ErrorCode::UnauthorizedClient => OAuth2ErrorCodeView::UnauthorizedClient,
            OAuth2ErrorCode::UnsupportedGrantType => OAuth2ErrorCodeView::UnsupportedGrantType,
            OAuth2ErrorCode::InvalidScope => OAuth2ErrorCodeView::InvalidScope,
            OAuth2ErrorCode::Unrecognized(code) => OAuth2ErrorCodeView::Unrecognized(code@),
        }
    }
}

/// The error code that the text `code` stands for.
pub open spec fn code_of(code: Seq<char>) -> OAuth2ErrorCodeView {
    if code == "invalid_request"@ {
        OAuth2ErrorCodeView::InvalidRequest
    } else if code == "invalid_client"@ {
        OAuth2ErrorCodeView::InvalidClient
    } else if code == "invalid_grant"@ {
        OAuth2ErrorCodeView::InvalidGrant
    } else if code == "unauthorized_client"@ {
        OAuth2ErrorCodeView::UnauthorizedClient
    } else if code == "unsupported_grant_type"@ {
        OAuth2ErrorCodeView::UnsupportedGrantType
    } else if code == "invalid_scope"@ {
        OAuth2ErrorCodeView::InvalidScope
    } else {
        OAuth2ErrorCodeView::Unrecognized(code)
    }
}

impl OAuth2ErrorCode {
    /// The error code that the text `code` stands for.
    pub fn from_code(code: &str) -> (r: OAuth2ErrorCode)
        ensures
            r@ == code_of(code@),
    {
        if str_eq(code, "invalid_request") {
            OAuth2ErrorCode::InvalidRequest
        } else if str_eq(code, "invalid_client") {
            OAuth2ErrorCode::InvalidClient
        } else if str_eq(code, "invalid_grant") {
            OAuth2ErrorCode::InvalidGrant
        } else if str_eq(code, "unauthorized_client") {
            OAuth2ErrorCode::UnauthorizedClient
        } else if str_eq(code, "unsupported_grant_type") {
            OAuth2ErrorCode::UnsupportedGrantType
        } else if str_eq(code, "invalid_scope") {
            OAuth2ErrorCode::InvalidScope
        } else {
            OAuth2ErrorCode::Unrecognized(code.to_owned())
        }
    }
}

/// An OAuth 2.0 error, as a provider reports it in place of a token.
///
/// See [RFC 6749, section 5.2](http://tools.ietf.org/html/rfc6749#section-5.2).
#[derive(Clone, Debug, PartialEq, Eq)]
pub struct OAuth2Error {
    /// The error code.
    pub code: OAuth2ErrorCode,
    /// What the provider says of the error, for a human reader.
    pub description: Option<String>,
    /// Where to read more about the error.
    pub uri: Option<String>,
}

/// What an [`OAuth2Error`] holds.
pub struct OAuth2ErrorView {
    pub code: OAuth2ErrorCodeView,
    pub description: Option<Seq<char>>,
    pub uri: Option<Seq<char>>,
}

impl View for OAuth2Error {
    type V = OAuth2ErrorView;

    open spec fn view(&self) -> OAuth2ErrorView {
        OAuth2ErrorView {
            code: self.code@,
            description: view_option(self.description),
            uri: view_option(self.uri),
        }
    }
}

/// The error that the fields of a response report.
///
/// The response must be an object, its `error` a string, and its
/// `error_description` and its `error_uri` each a string or absent; the first
/// of these that fails, in this order, decides the error.  The two optional
/// fields are held to the rule of every field: one that is there with another
/// type is an error of that field's type, and is not passed over.  A response
/// with such a field therefore reports no OAuth 2.0 error, whatever its
/// `error` says.
pub open spec fn error_parsed(fields: FieldsView) -> Result<OAuth2ErrorView, ParseError> {
    if !fields.object {
        Err(ParseError::ExpectedType("object"))
    } else {
        match fields.error {
            MemberView::Text(code) => match optional_text(
                fields.error_description,
                "error_description",
            ) {
                Err(error) => Err(error),
                Ok(description) => match optional_text(fields.error_uri, "error_uri") {
                    Err(error) => Err(error),
                    Ok(uri) => Ok(OAuth2ErrorView { code: code_of(code), description, uri }),
                },
            },
            _ => Err(ParseError::ExpectedFieldType("error", "string")),
        }
    }
}

impl FromResponse for OAuth2Error {
    open spec fn parsed(fields: FieldsView, now: Timestamp) -> Result<OAuth2ErrorView, ParseError> {
        error_parsed(fields)
    }

    open spec fn parsed_inherit(
        fields: FieldsView,
        prev: OAuth2ErrorView,
        now: Timestamp,
    ) -> Result<OAuth2ErrorView, ParseError> {
        error_parsed(fields)
    }

    fn from_fields(fields: &Fields, now: Timestamp) -> (r: Result<OAuth2Error, ParseError>) {
        if !fields.object {
            return Err(ParseError::ExpectedType("object"));
        }
        match &fields.error {
            Member::Text(code) => {
                let description = match fields.error_description.optional_text(
                    "error_description",
                ) {
                    Ok(description) => description,
                    Err(error) => {
                        return Err(error);
                    },
                };
                let uri = match fields.error_uri.optional_text("error_uri") {
                    Ok(uri) => uri,
                    Err(error) => {
                        return Err(error);
                    },
                };
                Ok(OAuth2Error { code: OAuth2ErrorCode::from_code(code.as_str()), description, uri })
            },
            _ => Err(ParseError::ExpectedFieldType("error", "string")),
        }
    }

    fn from_fields_inherit(fields: &Fields, prev: &OAuth2Error, now: Timestamp) -> (r: Result<
        OAuth2Error,
        ParseError,
    >) {
        OAuth2Error::from_fields(fields, now)
    }
}

} // verus!
