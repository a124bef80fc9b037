//! The client side of the authorization-code grant.
//!
//! A [`Client`] builds the authorization URI to send the user to, and the
//! bodies of the two token requests; it reads the response to either as a
//! token, or as the error that the provider reports.  Sending the request is
//! the caller's part.

pub mod error;
pub mod http_client;
pub mod response;

pub use self::error::ClientError;
pub use self::error::ClientErrorView;

use crate::client::response::fields_of;
use crate::client::response::optional_text;
use crate::client::response::view_option;
use crate::client::response::Fields;
use crate::client::response::FieldsView;
use crate::client::response::FromResponse;
use crate::error::code_of;
use crate::error::error_parsed;
use crate::error::OAuth2Error;
use crate::json::MemberView;
use crate::query::form_append_pair;
use crate::query::form_with_optional_pair;
use crate::query::form_with_pair;
use crate::query::measure_optional_pair;
use crate::query::measure_pair;
use crate::query::optional_pair_cost;
use crate::query::pair_cost;
use crate::query::url_append_pair;
use crate::query::url_len;
use crate::query::url_text;
use crate::query::url_with_optional_pair;
use crate::query::url_with_pair;
use crate::query::view_str_option;
use crate::query::URL_MAX_LEN;
use crate::time::Timestamp;
use crate::token::Bearer;
use crate::token::Refresh;
use serde_json::Value;
use url::Url;
use vstd::prelude::*;

verus! {

/// An OAuth 2.0 provider: where it authorizes, where it hands out tokens, and
/// whether it wants the client credentials in the body of a token request.
#[derive(Clone, Debug)]
pub struct Provider {
    /// The authorization endpoint URI.
    pub auth_uri: Url,
    /// The token endpoint URI.
    pub token_uri: Url,
    /// Whether the provider reads the client credentials from the body of a
    /// token request, and not from its HTTP Basic authentication.
    pub credentials_in_body: bool,
}

/// An OAuth 2.0 client: its credentials and its provider.
#[derive(Clone, Debug)]
pub struct Client {
    /// Client ID.
    pub client_id: String,
    /// Client secret.
    pub client_secret: String,
    /// Redirect URI.
    pub redirect_uri: Option<String>,
    /// The provider that the client is registered with.
    pub provider: Provider,
}

/// The authorization URI: `base` with `response_type=code` and the client ID
/// appended to its query, then the redirect URI, the scope and the state, each
/// where there is one.  Nothing is appended for a value that is left out.
pub open spec fn authorize_uri(
    base: Url,
    client_id: Seq<char>,
    redirect_uri: Option<Seq<char>>,
    scope: Option<Seq<char>>,
    state: Option<Seq<char>>,
) -> Url {
    let uri = url_with_pair(base, "response_type"@, "code"@);
    let uri = url_with_pair(uri, "client_id"@, client_id);
    let uri = url_with_optional_pair(uri, "redirect_uri"@, redirect_uri);
    let uri = url_with_optional_pair(uri, "scope"@, scope);
    url_with_optional_pair(uri, "state"@, state)
}

/// The bytes that the pairs of an authorization URI add to its base at most.
pub open spec fn authorize_cost(
    client_id: Seq<char>,
    redirect_uri: Option<Seq<char>>,
    scope: Option<Seq<char>>,
    state: Option<Seq<char>>,
) -> nat {
    pair_cost("response_type"@, "code"@) + pair_cost("client_id"@, client_id) + optional_pair_cost(
        "redirect_uri"@,
        redirect_uri,
    ) + optional_pair_cost("scope"@, scope) + optional_pair_cost("state"@, state)
}

/// The body of the request that exchanges the authorization code `code` for a
/// token: the grant type, the code, and the redirect URI where there is one.
pub open spec fn request_token_form(code: Seq<char>, redirect_uri: Option<Seq<char>>) -> Seq<char> {
    let form = form_with_pair(Seq::empty(), "grant_type"@, "authorization_code"@);
    let form = form_with_pair(form, "code"@, code);
    form_with_optional_pair(form, "redirect_uri"@, redirect_uri)
}

/// The body of the request that refreshes a token: the grant type, the refresh
/// token, and the scope where one is asked for.
pub open spec fn refresh_token_form(refresh_token: Seq<char>, scope: Option<Seq<char>>) -> Seq<
    char,
> {
    let form = form_with_pair(Seq::empty(), "grant_type"@, "refresh_token"@);
    let form = form_with_pair(form, "refresh_token"@, refresh_token);
    form_with_optional_pair(form, "scope"@, scope)
}

/// The body of a token request with the client credentials, for a provider
/// that reads them there; for any other provider the body as it is.
pub open spec fn form_with_credentials(
    form: Seq<char>,
    credentials_in_body: bool,
    client_id: Seq<char>,
    client_secret: Seq<char>,
) -> Seq<char> {
    if credentials_in_body {
        form_with_pair(form_with_pair(form, "client_id"@, client_id), "client_secret"@, client_secret)
    } else {
        form
    }
}

/// What the response to a token request comes to.
///
/// A response that reports an OAuth 2.0 error, as [`error_parsed`] reads one,
/// gives that error, whatever else it holds; the token is looked for only in
/// a response that reports none.
pub open spec fn token_outcome<T: FromResponse>(fields: FieldsView, now: Timestamp) -> Result<
    T::V,
    ClientErrorView,
> {
    match error_parsed(fields) {
        Ok(error) => Err(ClientErrorView::OAuth2(error)),
        Err(_) => match T::parsed(fields, now) {
            Ok(token) => Ok(token),
            Err(error) => Err(ClientErrorView::Parse(error)),
        },
    }
}

/// What the response to a refresh request comes to, where `prev` is the token
/// that is refreshed.  An error that the provider reports comes first here
/// too.
pub open spec fn refresh_outcome<T: FromResponse>(
    fields: FieldsView,
    prev: T::V,
    now: Timestamp,
) -> Result<T::V, ClientErrorView> {
    match error_parsed(fields) {
        Ok(error) => Err(ClientErrorView::OAuth2(error)),
        Err(_) => match T::parsed_inherit(fields, prev, now) {
            Ok(token) => Ok(token),
            Err(error) => Err(ClientErrorView::Parse(error)),
        },
    }
}

/// The view of what an exchange hands back: a token by its view, an error by
/// its view.
pub open spec fn view_outcome<T: View>(outcome: Result<T, ClientError>) -> Result<
    T::V,
    ClientErrorView,
> {
    match outcome {
        Ok(token) => Ok(token@),
        Err(error) => Err(error@),
    }
}

impl Provider {
    /// A provider with the given endpoints.
    pub fn new(auth_uri: Url, token_uri: Url, credentials_in_body: bool) -> (r: Provider)
        ensures
            r.auth_uri == auth_uri,
            r.token_uri == token_uri,
            r.credentials_in_body == credentials_in_body,
    {
        Provider { auth_uri, token_uri, credentials_in_body }
    }
}

impl Client {
    /// Creates a client.
    pub fn new(
        provider: Provider,
        client_id: String,
        client_secret: String,
        redirect_uri: Option<String>,
    ) -> (r: Client)
        ensures
            r.provider == provider,
            r.client_id == client_id,
            r.client_secret == client_secret,
            r.redirect_uri == redirect_uri,
    {
        Client { client_id, client_secret, redirect_uri, provider }
    }

    /// Whether the authorization URI for `scope` and `state` is short enough
    /// for a URL to hold.
    pub open spec fn auth_uri_fits(&self, scope: Option<Seq<char>>, state: Option<Seq<char>>) -> bool {
        url_len(self.provider.auth_uri) + authorize_cost(
            self.client_id@,
            view_option(self.redirect_uri),
            scope,
            state,
        ) <= URL_MAX_LEN
    }

    /// Returns an authorization endpoint URI to direct the user to.
    ///
    /// See [RFC 6749, section 3.1](http://tools.ietf.org/html/rfc6749#section-3.1).
    pub fn auth_uri(&self, scope: Option<&str>, state: Option<&str>) -> (uri: Url)
        requires
            self.auth_uri_fits(view_str_option(scope), view_str_option(state)),
        ensures
            uri == authorize_uri(
                self.provider.auth_uri,
                self.client_id@,
                view_option(self.redirect_uri),
                view_str_option(scope),
                view_str_option(state),
            ),
    {
        let uri = self.provider.auth_uri.clone();
        let uri = url_append_pair(uri, "response_type", "code");
        let uri = url_append_pair(uri, "client_id", self.client_id.as_str());
        let uri = match &self.redirect_uri {
            Some(redirect_uri) => url_append_pair(uri, "redirect_uri", redirect_uri.as_str()),
            None => uri,
        };
        let uri = match scope {
            Some(scope) => url_append_pair(uri, "scope", scope),
            None => uri,
        };
        match state {
            Some(state) => url_append_pair(uri, "state", state),
            None => uri,
        }
    }

    /// Returns the authorization endpoint URI of [`Client::auth_uri`], or
    /// `None` where it would be too long for a URL to hold.
    pub fn checked_auth_uri(&self, scope: Option<&str>, state: Option<&str>) -> (r: Option<Url>)
        ensures
            match r {
                Some(uri) => self.auth_uri_fits(view_str_option(scope), view_str_option(state))
                    && uri == authorize_uri(
                    self.provider.auth_uri,
                    self.client_id@,
                    view_option(self.redirect_uri),
                    view_str_option(scope),
                    view_str_option(state),
                ),
                None => !self.auth_uri_fits(view_str_option(scope), view_str_option(state)),
            },
    {
        let redirect_uri: Option<&str> = match &self.redirect_uri {
            Some(redirect_uri) => Some(redirect_uri.as_str()),
            None => None,
        };
        let base_len: usize = self.provider.auth_uri.as_str().as_bytes().len();
        let cost: u128 = measure_pair("response_type", "code") + measure_pair(
            "client_id",
            self.client_id.as_str(),
        ) + measure_optional_pair("redirect_uri", redirect_uri) + measure_optional_pair(
            "scope",
            scope,
        ) + measure_optional_pair("state", state);
        if base_len as u128 + cost <= URL_MAX_LEN as u128 {
            Some(self.auth_uri(scope, state))
        } else {
            None
        }
    }

    /// The body of the request that exchanges an authorization code for a
    /// token, in `application/x-www-form-urlencoded` syntax.
    ///
    /// See [RFC 6749, section 4.1.3](http://tools.ietf.org/html/rfc6749#section-4.1.3).
    pub fn request_token_body(&self, code: &str) -> (body: String)
        ensures
            body@ == request_token_form(code@, view_option(self.redirect_uri)),
    {
        let body = form_append_pair(String::new(), "grant_type", "authorization_code");
        let body = form_append_pair(body, "code", code);
        match &self.redirect_uri {
            Some(redirect_uri) => form_append_pair(body, "redirect_uri", redirect_uri.as_str()),
            None => body,
        }
    }

    /// The body of the request that refreshes `token`, in
    /// `application/x-www-form-urlencoded` syntax.
    ///
    /// See [RFC 6749, section 6](http://tools.ietf.org/html/rfc6749#section-6).
    pub fn refresh_token_body(&self, token: &Bearer<Refresh>, scope: Option<&str>) -> (body: String)
        ensures
            body@ == refresh_token_form(token@.lifetime.refresh_token, view_str_option(scope)),
    {
        let body = form_append_pair(String::new(), "grant_type", "refresh_token");
        let body = form_append_pair(body, "refresh_token", token.lifetime().refresh_token());
        match scope {
            Some(scope) => form_append_pair(body, "scope", scope),
            None => body,
        }
    }

    /// Appends the client credentials to the body of a token request, for a
    /// provider that reads them there.
    pub fn with_credentials(&self, body: String) -> (r: String)
        ensures
            r@ == form_with_credentials(
                body@,
                self.provider.credentials_in_body,
                self.client_id@,
                self.client_secret@,
            ),
    {
        if self.provider.credentials_in_body {
            let body = form_append_pair(body, "client_id", self.client_id.as_str());
            form_append_pair(body, "client_secret", self.client_secret.as_str())
        } else {
            body
        }
    }

    /// Reads the fields of a response to a token request, received at `now`,
    /// see [`token_outcome`].
    pub fn token_from_fields<T: FromResponse>(fields: &Fields, now: Timestamp) -> (r: Result<
        T,
        ClientError,
    >)
        ensures
            view_outcome(r) == token_outcome::<T>(fields@, now),
    {
        match OAuth2Error::from_fields(fields, now) {
            Ok(error) => Err(ClientError::OAuth2(error)),
            Err(_) => match T::from_fields(fields, now) {
                Ok(token) => Ok(token),
                Err(error) => Err(ClientError::Parse(error)),
            },
        }
    }

    /// Reads the fields of a response to the request that refreshes `prev`,
    /// received at `now`, see [`refresh_outcome`].
    pub fn token_from_fields_inherit<T: FromResponse>(
        fields: &Fields,
        prev: &T,
        now: Timestamp,
    ) -> (r: Result<T, ClientError>)
        ensures
            view_outcome(r) == refresh_outcome::<T>(fields@, prev@, now),
    {
        match OAuth2Error::from_fields(fields, now) {
            Ok(error) => Err(ClientError::OAuth2(error)),
            Err(_) => match T::from_fields_inherit(fields, prev, now) {
                Ok(token) => Ok(token),
                Err(error) => Err(ClientError::Parse(error)),
            },
        }
    }

    /// Reads the response to a token request, at the time the system clock
    /// shows.
    pub fn request_token_response<T: FromResponse>(json: &Value) -> (r: Result<T, ClientError>)
        ensures
            exists|now: Timestamp|
                now.in_range() && view_outcome(r) == #[trigger] token_outcome::<T>(
                    fields_of(*json),
                    now,
                ),
    {
        let fields = Fields::read(json);
        let now = Timestamp::now();
        Client::token_from_fields(&fields, now)
    }

    /// Reads the response to the request that refreshes `prev`, at the time
    /// the system clock shows.
    pub fn refresh_token_response<T: FromResponse>(json: &Value, prev: &T) -> (r: Result<
        T,
        ClientError,
    >)
        ensures
            exists|now: Timestamp|
                now.in_range() && view_outcome(r) == #[trigger] refresh_outcome::<T>(
                    fields_of(*json),
                    prev@,
                    now,
                ),
    {
        let fields = Fields::read(json);
        let now = Timestamp::now();
        Client::token_from_fields_inherit(&fields, prev, now)
    }
}

/// A response object whose `error` is a string, and whose `error_description`
/// and `error_uri` are each a string or absent, comes to the error that the
/// provider reports, with the code that the string stands for, both for a token
/// request and for a refresh: whatever else the response holds, no token is
/// read from it.
pub proof fn lemma_provider_error_first<T: FromResponse>(
    fields: FieldsView,
    prev: T::V,
    now: Timestamp,
    code: Seq<char>,
)
    requires
        fields.object,
        fields.error == MemberView::Text(code),
        optional_text(fields.error_description, "error_description") is Ok,
        optional_text(fields.error_uri, "error_uri") is Ok,
    ensures
        token_outcome::<T>(fields, now) matches Err(ClientErrorView::OAuth2(error)) && error.code
            == code_of(code),
        refresh_outcome::<T>(fields, prev, now) == token_outcome::<T>(fields, now),
{
}

/// A response that reports no error comes to what the token parser makes of
/// it: one that is no object, one whose `error` is no string, and one whose
/// `error_description` or `error_uri` is there with another type.
pub proof fn lemma_token_without_error<T: FromResponse>(fields: FieldsView, now: Timestamp)
    requires
        !fields.object || !(fields.error is Text) || optional_text(
            fields.error_description,
            "error_description",
        ) is Err || optional_text(fields.error_uri, "error_uri") is Err,
    ensures
        token_outcome::<T>(fields, now) == (match T::parsed(fields, now) {
            Ok(token) => Ok::<T::V, ClientErrorView>(token),
            Err(error) => Err(ClientErrorView::Parse(error)),
        }),
{
}

/// An authorization URI without scope and without state has no pair for
/// either: it is the base with the response type, the client ID and, where
/// there is one, the redirect URI, and nothing after them.
pub proof fn lemma_auth_uri_omits_absent(
    base: Url,
    client_id: Seq<char>,
    redirect_uri: Option<Seq<char>>,
)
    ensures
        authorize_uri(base, client_id, redirect_uri, None, None) == url_with_optional_pair(
            url_with_pair(url_with_pair(base, "response_type"@, "code"@), "client_id"@, client_id),
            "redirect_uri"@,
            redirect_uri,
        ),
{
}

/// Two authorization URIs that one client builds for the same scope and the
/// same state are the same URL, with the same text.
pub proof fn lemma_auth_uri_idempotent(
    client: Client,
    scope: Option<Seq<char>>,
    state: Option<Seq<char>>,
    first: Url,
    second: Url,
)
    requires
        first == authorize_uri(
            client.provider.auth_uri,
            client.client_id@,
            view_option(client.redirect_uri),
            scope,
            state,
        ),
        second == authorize_uri(
            client.provider.auth_uri,
            client.client_id@,
            view_option(client.redirect_uri),
            scope,
            state,
        ),
    ensures
        first == second,
        url_text(first) == url_text(second),
{
}

} // verus!
