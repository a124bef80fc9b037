//! Name and value pairs in `application/x-www-form-urlencoded` syntax: in the
//! query of a URL, and as the body of a request.
//!
//! The encoding is that of the `url` crate.  What it yields has a name here,
//! and the contracts of the library say which pairs are appended to what, and
//! in which order.

use url::form_urlencoded::Serializer;
use url::Url;
use vstd::prelude::*;
use vstd::utf8::encode_utf8;

verus! {

/// `url::Url`, taken as it is: nothing is known of what is inside.
#[verifier::external_type_specification]
#[verifier::external_body]
pub struct ExUrl(url::Url);

/// The text of `url`: what `url::Url::as_str` returns on it.
pub uninterp spec fn url_text(url: Url) -> Seq<char>;

/// The URL that `url` becomes when the pair `key`, `value` is appended to its
/// query with `url::Url::query_pairs_mut` and
/// `url::form_urlencoded::Serializer::append_pair`.
pub uninterp spec fn url_with_pair(url: Url, key: Seq<char>, value: Seq<char>) -> Url;

/// The text that `form` becomes when the pair `key`, `value` is appended to it
/// with `url::form_urlencoded::Serializer::append_pair`.
pub uninterp spec fn form_with_pair(form: Seq<char>, key: Seq<char>, value: Seq<char>) -> Seq<
    char,
>;

/// The longest text of a URL, in bytes, that the `url` crate can hold.
pub const URL_MAX_LEN: u32 = u32::MAX;

/// The length of the text of `url`, in bytes.
pub open spec fn url_len(url: Url) -> nat {
    encode_utf8(url_text(url)).len()
}

/// The most bytes that appending the pair `key`, `value` adds to a text: each
/// byte of the two may become three, and two separators stand with them.
pub open spec fn pair_cost(key: Seq<char>, value: Seq<char>) -> nat {
    3 * (encode_utf8(key).len() + encode_utf8(value).len()) + 2
}

/// `url::Url::as_str`: the result is the text named [`url_text`].
pub assume_specification[ url::Url::as_str ](url: &Url) -> (text: &str)
    ensures
        text@ == url_text(*url),
;

/// `Clone::clone` of a `url::Url`: the copy is the same URL.
pub assume_specification[ <url::Url as Clone>::clone ](url: &Url) -> (copy: Url)
    ensures
        copy == *url,
;

/// `url::Url::query_pairs_mut`, then `append_pair` on what it returns: the
/// result is the URL named [`url_with_pair`].  Its text is longer than that of
/// `url` by [`pair_cost`] at most: a `?` or a `&`, the encoded key, a `=` and
/// the encoded value are added, and the encoding writes one byte as one byte
/// or as three.  The `url` crate panics where the query would start past
/// [`URL_MAX_LEN`], or a fragment would be put back past it; every call that
/// could make the text longer than that is ruled out, which leaves out these
/// and more.
#[verifier::external_body]
pub(crate) fn url_append_pair(url: Url, key: &str, value: &str) -> (r: Url)
    requires
        url_len(url) + pair_cost(key@, value@) <= URL_MAX_LEN,
    ensures
        r == url_with_pair(url, key@, value@),
        url_len(r) <= url_len(url) + pair_cost(key@, value@),
{
    let mut url = url;
    url.query_pairs_mut().append_pair(key, value);
    url
}

/// `url::form_urlencoded::Serializer::append_pair` on a serializer over
/// `form`: the result is the text named [`form_with_pair`].
#[verifier::external_body]
pub(crate) fn form_append_pair(form: String, key: &str, value: &str) -> (r: String)
    ensures
        r@ == form_with_pair(form@, key@, value@),
{
    let mut serializer = Serializer::new(form);
    serializer.append_pair(key, value);
    serializer.finish()
}

/// `url` with the pair appended to its query, where there is a value.
pub open spec fn url_with_optional_pair(url: Url, key: Seq<char>, value: Option<Seq<char>>) -> Url {
    match value {
        Some(value) => url_with_pair(url, key, value),
        None => url,
    }
}

/// `form` with the pair appended, where there is a value.
pub open spec fn form_with_optional_pair(
    form: Seq<char>,
    key: Seq<char>,
    value: Option<Seq<char>>,
) -> Seq<char> {
    match value {
        Some(value) => form_with_pair(form, key, value),
        None => form,
    }
}

/// The bytes that appending the pair adds at most, where there is a value.
pub open spec fn optional_pair_cost(key: Seq<char>, value: Option<Seq<char>>) -> nat {
    match value {
        Some(value) => pair_cost(key, value),
        None => 0,
    }
}

/// The view of an optional string slice.
pub open spec fn view_str_option(text: Option<&str>) -> Option<Seq<char>> {
    match text {
        Some(s) => Some(s@),
        None => None,
    }
}

/// The bytes that appending the pair `key`, `value` adds at most.
pub fn measure_pair(key: &str, value: &str) -> (cost: u128)
    ensures
        cost == pair_cost(key@, value@),
        cost <= 6 * usize::MAX + 2,
{
    let key_len: usize = key.as_bytes().len();
    let value_len: usize = value.as_bytes().len();
    3 * (key_len as u128 + value_len as u128) + 2
}

/// The bytes that appending the pair adds at most, where there is a value.
pub fn measure_optional_pair(key: &str, value: Option<&str>) -> (cost: u128)
    ensures
        cost == optional_pair_cost(key@, view_str_option(value)),
        cost <= 6 * usize::MAX + 2,
{
    match value {
        Some(value) => measure_pair(key, value),
        None => 0,
    }
}

} // verus!
