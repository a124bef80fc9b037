//! The bearer token.

use crate::client::response::optional_text;
use crate::client::response::view_option;
use crate::client::response::view_result;
use crate::client::response::Fields;
use crate::client::response::FieldsView;
use crate::client::response::FromResponse;
use crate::client::response::ParseError;
use crate::json::Member;
use crate::json::MemberView;
use crate::text::eq_ignore_case;
use crate::text::str_eq_ignore_case;
use crate::time::Timestamp;
use crate::token::Lifetime;
use vstd::prelude::*;

verus! {

/// The bearer token type: an access credential that is presented as it is,
/// with the lifetime `L` that says how long it is valid.
///
/// The access token of a `Bearer` is never empty.
#[derive(Debug, PartialEq, Eq)]
pub struct Bearer<L: Lifetime> {
    access_token: String,
    scope: Option<String>,
    id_token: Option<String>,
    lifetime: L,
}

/// What a [`Bearer`] holds, with `LV` the view of its lifetime.
pub struct BearerView<LV> {
    pub access_token: Seq<char>,
    pub scope: Option<Seq<char>>,
    pub id_token: Option<Seq<char>>,
    pub lifetime: LV,
}

impl<L: Lifetime> View for Bearer<L> {
    type V = BearerView<L::V>;

    closed spec fn view(&self) -> BearerView<L::V> {
        BearerView {
            access_token: self.access_token@,
            scope: view_option(self.scope),
            id_token: view_option(self.id_token),
            lifetime: self.lifetime@,
        }
    }
}

/// The bearer token that the fields of a response give, with the lifetime that
/// was built from the same response.
///
/// The response must be an object, its `token_type` a string that is `bearer`
/// in any ASCII case, its `access_token` a string that is not empty, and its
/// `scope` and its `id_token` each a string or absent.  The first of these
/// that fails, in this order, decides the error; an error of the lifetime
/// comes after them.
pub open spec fn bearer_parsed<LV>(fields: FieldsView, lifetime: Result<LV, ParseError>) -> Result<
    BearerView<LV>,
    ParseError,
> {
    if !fields.object {
        Err(ParseError::ExpectedType("object"))
    } else {
        match fields.token_type {
            MemberView::Text(token_type) => if !eq_ignore_case(token_type, "bearer"@) {
                Err(ParseError::ExpectedFieldValue("token_type", "Bearer"))
            } else {
                match fields.access_token {
                    MemberView::Text(access_token) => if access_token.len() == 0 {
                        Err(ParseError::ExpectedFieldValue("access_token", "non-empty string"))
                    } else {
                        match optional_text(fields.scope, "scope") {
                            Err(error) => Err(error),
                            Ok(scope) => match optional_text(fields.id_token, "id_token") {
                                Err(error) => Err(error),
                                Ok(id_token) => match lifetime {
                                    Ok(lifetime) => Ok(
                                        BearerView { access_token, scope, id_token, lifetime },
                                    ),
                                    Err(error) => Err(error),
                                },
                            },
                        }
                    },
                    _ => Err(ParseError::ExpectedFieldType("access_token", "string")),
                }
            },
            _ => Err(ParseError::ExpectedFieldType("token_type", "string")),
        }
    }
}

impl<L: Lifetime> Bearer<L> {
    #[verifier::type_invariant]
    spec fn has_access_token(self) -> bool {
        self.access_token@.len() > 0
    }

    /// A token with the given parts, or `None` where the access token is
    /// empty.
    pub fn new(
        access_token: String,
        scope: Option<String>,
        id_token: Option<String>,
        lifetime: L,
    ) -> (r: Option<Self>)
        ensures
            match r {
                Some(token) => access_token@.len() > 0 && token@ == (BearerView {
                    access_token: access_token@,
                    scope: view_option(scope),
                    id_token: view_option(id_token),
                    lifetime: lifetime@,
                }),
                None => access_token@.len() == 0,
            },
    {
        if access_token.as_str().is_empty() {
            None
        } else {
            Some(Bearer { access_token, scope, id_token, lifetime })
        }
    }

    /// The access token.
    pub fn access_token(&self) -> (s: &str)
        ensures
            s@ == self@.access_token,
            s@.len() > 0,
    {
        proof {
            use_type_invariant(self);
        }
        self.access_token.as_str()
    }

    /// The scope that the token was granted, where the response named one.
    pub fn scope(&self) -> (s: Option<&str>)
        ensures
            match s {
                Some(scope) => self@.scope == Some(scope@),
                None => self@.scope is None,
            },
    {
        match &self.scope {
            Some(scope) => Some(scope.as_str()),
            None => None,
        }
    }

    /// The ID token, where the response held one.
    pub fn id_token(&self) -> (s: Option<&str>)
        ensures
            match s {
                Some(id_token) => self@.id_token == Some(id_token@),
                None => self@.id_token is None,
            },
    {
        match &self.id_token {
            Some(id_token) => Some(id_token.as_str()),
            None => None,
        }
    }

    /// The lifetime of the token.
    pub fn lifetime(&self) -> (l: &L)
        ensures
            l@ == self@.lifetime,
    {
        &self.lifetime
    }

    /// Builds the token from the fields of a response and from the lifetime
    /// that was built from the same response, see [`bearer_parsed`].
    fn from_response_and_lifetime(fields: &Fields, lifetime: Result<L, ParseError>) -> (r: Result<
        Self,
        ParseError,
    >)
        ensures
            view_result(r) == bearer_parsed(fields@, view_result(lifetime)),
    {
        if !fields.object {
            return Err(ParseError::ExpectedType("object"));
        }
        match &fields.token_type {
            Member::Text(token_type) => {
                if !str_eq_ignore_case(token_type.as_str(), "bearer") {
                    return Err(ParseError::ExpectedFieldValue("token_type", "Bearer"));
                }
            },
            _ => {
                return Err(ParseError::ExpectedFieldType("token_type", "string"));
            },
        }
        let access_token = match fields.access_token.required_text("access_token") {
            Ok(access_token) => access_token,
            Err(error) => {
                return Err(error);
            },
        };
        if access_token.as_str().is_empty() {
            return Err(ParseError::ExpectedFieldValue("access_token", "non-empty string"));
        }
        let scope = match fields.scope.optional_text("scope") {
            Ok(scope) => scope,
            Err(error) => {
                return Err(error);
            },
        };
        let id_token = match fields.id_token.optional_text("id_token") {
            Ok(id_token) => id_token,
            Err(error) => {
                return Err(error);
            },
        };
        let lifetime = match lifetime {
            Ok(lifetime) => lifetime,
            Err(error) => {
                return Err(error);
            },
        };
        Ok(Bearer { access_token, scope, id_token, lifetime })
    }
}

impl<L: Lifetime + Clone> Clone for Bearer<L> {
    fn clone(&self) -> (r: Self)
        ensures
            r@.access_token == self@.access_token,
            r@.scope == self@.scope,
            r@.id_token == self@.id_token,
    {
        proof {
            use_type_invariant(self);
        }
        Bearer {
            access_token: self.access_token.clone(),
            scope: match &self.scope {
                Some(scope) => Some(scope.clone()),
                None => None,
            },
            id_token: match &self.id_token {
                Some(id_token) => Some(id_token.clone()),
                None => None,
            },
            lifetime: self.lifetime.clone(),
        }
    }
}

impl<L: Lifetime> FromResponse for Bearer<L> {
    open spec fn parsed(fields: FieldsView, now: Timestamp) -> Result<BearerView<L::V>, ParseError> {
        bearer_parsed(fields, L::parsed(fields, now))
    }

    /// A refresh takes the access token, the scope and the ID token from the
    /// new response alone; only the lifetime looks at the token that is
    /// replaced.
    open spec fn parsed_inherit(
        fields: FieldsView,
        prev: BearerView<L::V>,
        now: Timestamp,
    ) -> Result<BearerView<L::V>, ParseError> {
        bearer_parsed(fields, L::parsed_inherit(fields, prev.lifetime, now))
    }

    fn from_fields(fields: &Fields, now: Timestamp) -> (r: Result<Self, ParseError>) {
        let lifetime = L::from_fields(fields, now);
        Bearer::from_response_and_lifetime(fields, lifetime)
    }

    fn from_fields_inherit(fields: &Fields, prev: &Self, now: Timestamp) -> (r: Result<
        Self,
        ParseError,
    >) {
        let lifetime = L::from_fields_inherit(fields, &prev.lifetime, now);
        Bearer::from_response_and_lifetime(fields, lifetime)
    }
}

/// A response that is an object, whose token type is `bearer` in any ASCII
/// case, whose access token is a string that is not empty, whose scope and ID
/// token are each a string or absent, and from which the lifetime can be
/// built, gives a token; the token holds the access token, the scope and the
/// ID token just as the response does, and the lifetime that was built.
pub proof fn lemma_bearer_round_trip<L: Lifetime>(
    fields: FieldsView,
    now: Timestamp,
    token_type: Seq<char>,
    access_token: Seq<char>,
)
    requires
        fields.object,
        fields.token_type == MemberView::Text(token_type),
        eq_ignore_case(token_type, "bearer"@),
        fields.access_token == MemberView::Text(access_token),
        access_token.len() > 0,
        optional_text(fields.scope, "scope") is Ok,
        optional_text(fields.id_token, "id_token") is Ok,
        L::parsed(fields, now) is Ok,
    ensures
        Bearer::<L>::parsed(fields, now) matches Ok(token) && token.access_token == access_token
            && Ok::<Option<Seq<char>>, ParseError>(token.scope) == optional_text(
            fields.scope,
            "scope",
        ) && Ok::<Option<Seq<char>>, ParseError>(token.id_token) == optional_text(
            fields.id_token,
            "id_token",
        ) && Ok::<L::V, ParseError>(token.lifetime) == L::parsed(fields, now),
{
}

/// A response whose token type and access token are in order, but whose scope
/// or ID token is there and is no string, is refused for the type of that
/// field: for the scope first, and before any error of the lifetime.
pub proof fn lemma_bearer_refuses_mistyped_options<L: Lifetime>(
    fields: FieldsView,
    now: Timestamp,
    token_type: Seq<char>,
    access_token: Seq<char>,
)
    requires
        fields.object,
        fields.token_type == MemberView::Text(token_type),
        eq_ignore_case(token_type, "bearer"@),
        fields.access_token == MemberView::Text(access_token),
        access_token.len() > 0,
    ensures
        !(fields.scope is Absent) && !(fields.scope is Text) ==> Bearer::<L>::parsed(fields, now)
            == Err::<BearerView<L::V>, ParseError>(
            ParseError::ExpectedFieldType("scope", "string"),
        ),
        optional_text(fields.scope, "scope") is Ok && !(fields.id_token is Absent) && !(
        fields.id_token is Text) ==> Bearer::<L>::parsed(fields, now) == Err::<
            BearerView<L::V>,
            ParseError,
        >(ParseError::ExpectedFieldType("id_token", "string")),
{
}

/// A response object whose token type is a string other than `bearer`, in
/// whatever ASCII case, is refused for the value of that field, whatever else
/// it holds and whatever the lifetime.
pub proof fn lemma_bearer_refuses_other_types<L: Lifetime>(
    fields: FieldsView,
    now: Timestamp,
    token_type: Seq<char>,
)
    requires
        fields.object,
        fields.token_type == MemberView::Text(token_type),
        !eq_ignore_case(token_type, "bearer"@),
    ensures
        Bearer::<L>::parsed(fields, now) == Err::<BearerView<L::V>, ParseError>(
            ParseError::ExpectedFieldValue("token_type", "Bearer"),
        ),
{
}

/// A token of [`Bearer::parsed`] or [`Bearer::parsed_inherit`] never has an
/// empty access token.
pub proof fn lemma_bearer_access_token_not_empty<L: Lifetime>(
    fields: FieldsView,
    prev: BearerView<L::V>,
    now: Timestamp,
)
    ensures
        Bearer::<L>::parsed(fields, now) matches Ok(token) ==> token.access_token.len() > 0,
        Bearer::<L>::parsed_inherit(fields, prev, now) matches Ok(token)
            ==> token.access_token.len() > 0,
{
}

} // verus!
