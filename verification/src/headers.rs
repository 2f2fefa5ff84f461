//! Request headers: lower-case names, each with its values in order. A value is a
//! run of bytes that may or may not be readable as text.

use axum::http::{HeaderMap, HeaderValue};
use vstd::prelude::*;
use vstd::string::*;

use crate::text;

verus! {

/// `http::HeaderMap`, seen from outside: what it holds is given by `header_contents`.
#[verifier::external_type_specification]
#[verifier::external_body]
#[verifier::reject_recursive_types(T)]
pub struct ExHeaderMap<T>(axum::http::HeaderMap<T>);

/// `http::HeaderValue`, seen from outside: what it holds is given by `header_bytes`.
#[verifier::external_type_specification]
#[verifier::external_body]
pub struct ExHeaderValue(axum::http::HeaderValue);

/// The header that names the organisation a request acts for.
pub const CUSTOMER_ORG_HEADER: &'static str = "x-fiducia-org-id";

/// The header that makes a mutation safe to repeat.
pub const IDEMPOTENCY_KEY_HEADER: &'static str = "idempotency-key";

/// The header that carries the cross-site request token of a browser.
pub const CUSTOMER_CSRF_HEADER: &'static str = "x-fiducia-csrf";

/// The header that carries an explicit credential.
pub const AUTHORIZATION: &'static str = "authorization";

/// The header that carries the cookies of a browser.
pub const COOKIE: &'static str = "cookie";

/// The header that names the host a request was sent to.
pub const HOST: &'static str = "host";

/// How many names a map is sure to hold, however they collide.
pub const MAX_HEADER_NAMES: usize = 6554;

/// The values of each header of a map, in order, by the header's lower-case name.
pub uninterp spec fn header_contents(headers: axum::http::HeaderMap) -> Map<Seq<char>, Seq<Seq<u8>>>;

/// The bytes of a header value.
pub uninterp spec fn header_bytes(value: axum::http::HeaderValue) -> Seq<u8>;

/// A header name in lower case, made of letters, digits and hyphens.
pub open spec fn is_name(s: Seq<char>) -> bool {
    &&& 0 < s.len() <= 64
    &&& forall|i: int| 0 <= i < s.len() ==> is_name_char(#[trigger] s[i])
}

/// A character that a header name is made of here.
pub open spec fn is_name_char(c: char) -> bool {
    text::is_digit(c) || 0x61 <= c as u32 <= 0x7a || c == '-'
}

/// A byte of visible ASCII, a space or a tab.
pub open spec fn is_visible(b: u8) -> bool {
    32 <= b < 127 || b == 9
}

/// The text of a header value: it has one where every byte is visible.
pub open spec fn readable(bytes: Seq<u8>) -> Option<Seq<char>> {
    if forall|i: int| 0 <= i < bytes.len() ==> is_visible(#[trigger] bytes[i]) {
        Some(bytes.map_values(|b: u8| b as char))
    } else {
        None
    }
}

/// A byte that may stand in a header value: no control character but the tab.
pub open spec fn is_value_byte(b: u8) -> bool {
    (b >= 32 && b != 127) || b == 9
}

/// A text that can be sent as a header value.
pub open spec fn is_value(s: Seq<char>) -> bool {
    forall|i: int|
        0 <= i < vstd::utf8::encode_utf8(s).len() ==> is_value_byte(
            #[trigger] vstd::utf8::encode_utf8(s)[i],
        )
}

/// The bytes of an ASCII text.
pub open spec fn ascii_bytes(s: Seq<char>) -> Seq<u8> {
    s.map_values(|c: char| c as u32 as u8)
}

/// A text of visible ASCII characters, spaces and tabs.
pub open spec fn is_visible_text(s: Seq<char>) -> bool {
    forall|i: int|
        0 <= i < s.len() ==> (32 <= (#[trigger] s[i]) as u32 && (s[i] as u32) < 127) || s[i] as u32
            == 9
}

/// The values of the header `name`.
pub open spec fn values_of(headers: HeaderMap, name: Seq<char>) -> Seq<Seq<u8>> {
    if header_contents(headers).contains_key(name) {
        header_contents(headers)[name]
    } else {
        Seq::empty()
    }
}

/// The first value of the header `name`.
pub open spec fn first_value(headers: HeaderMap, name: Seq<char>) -> Option<Seq<u8>> {
    if values_of(headers, name).len() > 0 {
        Some(values_of(headers, name)[0])
    } else {
        None
    }
}

/// The texts of the values of the header `name`.
pub open spec fn texts_of(headers: HeaderMap, name: Seq<char>) -> Seq<Option<Seq<char>>> {
    values_of(headers, name).map_values(|v: Seq<u8>| readable(v))
}

/// The bytes of an optional header value.
pub open spec fn opt_bytes(value: Option<HeaderValue>) -> Option<Seq<u8>> {
    match value {
        Some(v) => Some(header_bytes(v)),
        None => None,
    }
}

/// `HeaderMap::get_all`, its values cloned: all values of the header, in order.
#[verifier::external_body]
pub(crate) fn get_all(headers: &HeaderMap, name: &str) -> (r: Vec<HeaderValue>)
    requires
        is_name(name@),
    ensures
        r@.map_values(|v: HeaderValue| header_bytes(v)) == values_of(*headers, name@),
{
    headers.get_all(name).iter().cloned().collect()
}

/// `HeaderValue::to_str`: the text of a value whose bytes are all visible.
#[verifier::external_body]
pub(crate) fn to_str(value: &HeaderValue) -> (r: Option<String>)
    ensures
        text::opt_view(r) == readable(header_bytes(*value)),
{
    value.to_str().ok().map(|text| text.to_owned())
}

/// `HeaderValue::from_str`: the value with the UTF-8 bytes of the text, where each of
/// them may stand in a header value.
#[verifier::external_body]
pub(crate) fn from_str(s: &str) -> (r: Option<HeaderValue>)
    ensures
        opt_bytes(r) == if is_value(s@) {
            Some(vstd::utf8::encode_utf8(s@))
        } else {
            None
        },
{
    HeaderValue::from_str(s).ok()
}

/// `HeaderValue::from_static`: the value with the bytes of the text. It panics where one of them
/// is not visible.
#[verifier::external_body]
pub(crate) fn from_static(s: &'static str) -> (r: HeaderValue)
    requires
        is_visible_text(s@),
    ensures
        header_bytes(r) == ascii_bytes(s@),
{
    HeaderValue::from_static(s)
}

/// `HeaderValue::clone`: a value with the same bytes.
#[verifier::external_body]
pub(crate) fn copy_of(value: &HeaderValue) -> (r: HeaderValue)
    ensures
        header_bytes(r) == header_bytes(*value),
{
    value.clone()
}

/// Whether a map is sure to take so many more values, each under a name of its own or over the
/// values of a name that it has.
pub open spec fn has_room(headers: HeaderMap, more: nat) -> bool {
    header_contents(headers).dom().finite() && header_contents(headers).len() + more
        <= MAX_HEADER_NAMES
}

/// `HeaderMap::try_insert` under a name given by `HeaderName::from_static`: the header has this
/// one value from now on, unless the map would outgrow its 32768 slots, in which case it stays
/// as it is. A map that holds fewer than 6554 names never does: it doubles its slots when three
/// quarters of them are taken or, where names collide much, a fifth. When it refuses above that
/// rests on how its names collide, and is not stated. `from_static` panics on a name that is not
/// a lower-case header name.
#[verifier::external_body]
pub(crate) fn insert(headers: &mut HeaderMap, name: &'static str, value: HeaderValue) -> (r: bool)
    requires
        is_name(name@),
    ensures
        header_contents(*final(headers)) == if r {
            header_contents(*old(headers)).insert(name@, seq![header_bytes(value)])
        } else {
            header_contents(*old(headers))
        },
        has_room(*old(headers), 1) ==> r,
{
    headers.try_insert(axum::http::HeaderName::from_static(name), value).is_ok()
}

/// The names of this module are header names.
pub proof fn lemma_names()
    ensures
        is_name(CUSTOMER_ORG_HEADER@),
        is_name(IDEMPOTENCY_KEY_HEADER@),
        is_name(AUTHORIZATION@),
        is_name(COOKIE@),
        is_name(HOST@),
        CUSTOMER_ORG_HEADER@ != IDEMPOTENCY_KEY_HEADER@,
{
    reveal_strlit("x-fiducia-org-id");
    reveal_strlit("idempotency-key");
    reveal_strlit("authorization");
    reveal_strlit("cookie");
    reveal_strlit("host");
}

/// The first value of the header `name`.
pub fn get(headers: &HeaderMap, name: &str) -> (r: Option<HeaderValue>)
    requires
        is_name(name@),
    ensures
        opt_bytes(r) == first_value(*headers, name@),
{
    let values = get_all(headers, name);
    let ghost all = values@.map_values(|v: HeaderValue| header_bytes(v));
    assert(all.len() == values@.len());
    if values.len() > 0 {
        assert(all[0] == header_bytes(values@[0]));
        Some(copy_of(&values[0]))
    } else {
        None
    }
}

/// Whether there is a header `name`.
pub fn contains(headers: &HeaderMap, name: &str) -> (r: bool)
    requires
        is_name(name@),
    ensures
        r == (values_of(*headers, name@).len() > 0),
{
    let values = get_all(headers, name);
    assert(values@.map_values(|v: HeaderValue| header_bytes(v)).len() == values@.len());
    values.len() > 0
}

/// The text of the first value of the header `name`, where it is readable.
pub fn get_text(headers: &HeaderMap, name: &str) -> (r: Option<String>)
    requires
        is_name(name@),
    ensures
        text::opt_view(r) == match first_value(*headers, name@) {
            Some(bytes) => readable(bytes),
            None => None,
        },
{
    match get(headers, name) {
        Some(value) => to_str(&value),
        None => None,
    }
}

/// The texts of all values of the header `name`.
pub fn get_texts(headers: &HeaderMap, name: &str) -> (r: Vec<Option<String>>)
    requires
        is_name(name@),
    ensures
        r@.map_values(|t: Option<String>| text::opt_view(t)) == texts_of(*headers, name@),
{
    let values = get_all(headers, name);
    let ghost all = values@.map_values(|v: HeaderValue| header_bytes(v));
    let mut texts: Vec<Option<String>> = Vec::new();
    let mut i: usize = 0;
    while i < values.len()
        invariant
            i <= values.len(),
            texts@.len() == i,
            forall|j: int|
                0 <= j < i ==> text::opt_view(#[trigger] texts@[j]) == readable(
                    header_bytes(values@[j]),
                ),
        decreases values.len() - i,
    {
        texts.push(to_str(&values[i]));
        i += 1;
    }
    proof {
        let got = texts@.map_values(|t: Option<String>| text::opt_view(t));
        assert forall|j: int| 0 <= j < got.len() implies #[trigger] got[j] == texts_of(
            *headers,
            name@,
        )[j] by {
            assert(all[j] == header_bytes(values@[j]));
        }
        assert(got =~= texts_of(*headers, name@));
    }
    texts
}

} // verus!
