//! Which organisation a request acts for, and what makes a mutation safe to repeat.

use axum::http::{HeaderMap, HeaderValue};
use vstd::prelude::*;
use vstd::string::*;

use crate::auth::CustomerCtx;
use crate::headers;
use crate::reply;
use crate::reply::{Reply, ReplyView};
use crate::text;

verus! {

/// The longest organisation id, in bytes.
pub const MAX_ORG_ID_BYTES: usize = 128;

/// The longest idempotency key.
pub const MAX_IDEMPOTENCY_KEY_CHARS: usize = 200;

/// A well-formed organisation id.
pub open spec fn is_org_id(s: Seq<char>) -> bool {
    &&& 0 < s.len()
    &&& vstd::utf8::encode_utf8(s).len() <= MAX_ORG_ID_BYTES
    &&& !text::has_control(s)
    &&& !text::has_white_space(s)
}

/// The organisation that a request asks for: the explicit one, else that of its header.
/// A header that cannot be read is an error.
pub open spec fn requested_org(header: Option<Seq<u8>>, explicit: Option<Seq<char>>) -> Result<
    Option<Seq<char>>,
    ReplyView,
> {
    match explicit {
        Some(org) => Ok(Some(org)),
        None => match header {
            Some(bytes) => match headers::readable(bytes) {
                Some(org) => Ok(Some(org)),
                None => Err(reply::refusal(400, "invalid_org_selection"@)),
            },
            None => Ok(None),
        },
    }
}

/// The organisation that a request of a member of `orgs` acts for. One that is asked for
/// must be one of theirs; without that, they must have exactly one.
pub open spec fn selected_org(
    orgs: Seq<Seq<char>>,
    header: Option<Seq<u8>>,
    explicit: Option<Seq<char>>,
) -> Result<Seq<char>, ReplyView> {
    match requested_org(header, explicit) {
        Err(refused) => Err(refused),
        Ok(Some(org)) => if !is_org_id(org) {
            Err(reply::refusal(400, "invalid_org_selection"@))
        } else if orgs.contains(org) {
            Ok(org)
        } else {
            Err(reply::refusal(403, "forbidden_org"@))
        },
        Ok(None) => if orgs.len() == 0 {
            Err(reply::refusal(403, "no_org_membership"@))
        } else if orgs.len() == 1 {
            Ok(orgs[0])
        } else {
            Err(reply::refusal(400, "org_selection_required"@))
        },
    }
}

/// The organisation that a page shows: where none is asked for, the first of several.
pub open spec fn page_org(
    orgs: Seq<Seq<char>>,
    header: Option<Seq<u8>>,
    explicit: Option<Seq<char>>,
) -> Result<Seq<char>, ReplyView> {
    if explicit is None && header is None && orgs.len() > 1 {
        Ok(orgs[0])
    } else {
        selected_org(orgs, header, explicit)
    }
}

/// The first organisation header of a request.
pub open spec fn org_header(headers: HeaderMap) -> Option<Seq<u8>> {
    headers::first_value(headers, headers::CUSTOMER_ORG_HEADER@)
}

/// The choice of an organisation, as a mathematical value.
pub open spec fn choice_view(r: Result<String, Reply>) -> Result<Seq<char>, ReplyView> {
    match r {
        Ok(org) => Ok(org@),
        Err(refused) => Err(refused@),
    }
}

/// Whether `value` is a well-formed organisation id.
pub fn valid_org_id(value: &str) -> (r: bool)
    ensures
        r == is_org_id(value@),
{
    if value.is_empty() || text::byte_len(value) > MAX_ORG_ID_BYTES {
        return false;
    }
    !text::contains_control(value) && !text::contains_white_space(value)
}

/// Whether `wanted` is one of `items`.
pub fn contains_text(items: &Vec<String>, wanted: &str) -> (r: bool)
    ensures
        r == text::views(items@).contains(wanted@),
{
    let mut i: usize = 0;
    while i < items.len()
        invariant
            i <= items.len(),
            forall|j: int| 0 <= j < i ==> text::views(items@)[j] != wanted@,
        decreases items.len() - i,
    {
        if text::same(items[i].as_str(), wanted) {
            assert(text::views(items@)[i as int] == wanted@);
            return true;
        }
        i += 1;
    }
    false
}

/// The organisation that a request acts for, where `explicit` goes before the header.
pub fn selected_customer_org_from(
    ctx: &CustomerCtx,
    headers: &HeaderMap,
    explicit: Option<&str>,
) -> (r: Result<String, Reply>)
    ensures
        choice_view(r) == selected_org(ctx@.orgs, org_header(*headers), text::opt_str_view(explicit)),
{
    proof {
        headers::lemma_names();
        assert(text::views(ctx.orgs@).len() == ctx.orgs@.len());
    }
    let requested: Option<String> = match explicit {
        Some(org) => Some(org.to_owned()),
        None => match headers::get(headers, headers::CUSTOMER_ORG_HEADER) {
            Some(value) => match headers::to_str(&value) {
                Some(org) => Some(org),
                None => return Err(reply::deny(400, "invalid_org_selection")),
            },
            None => None,
        },
    };
    match requested {
        Some(org) => {
            if !valid_org_id(org.as_str()) {
                return Err(reply::deny(400, "invalid_org_selection"));
            }
            if contains_text(&ctx.orgs, org.as_str()) {
                return Ok(org);
            }
            Err(reply::deny(403, "forbidden_org"))
        },
        None => {
            if ctx.orgs.len() == 0 {
                Err(reply::deny(403, "no_org_membership"))
            } else if ctx.orgs.len() == 1 {
                Ok(ctx.orgs[0].clone())
            } else {
                Err(reply::deny(400, "org_selection_required"))
            }
        },
    }
}

/// The organisation that a request acts for.
pub fn selected_customer_org(ctx: &CustomerCtx, headers: &HeaderMap) -> (r: Result<String, Reply>)
    ensures
        choice_view(r) == selected_org(ctx@.orgs, org_header(*headers), None),
{
    selected_customer_org_from(ctx, headers, None)
}

/// The organisation that a page shows.
pub fn customer_page_org(ctx: &CustomerCtx, headers: &HeaderMap, explicit: Option<&str>) -> (r:
    Result<String, Reply>)
    ensures
        choice_view(r) == page_org(ctx@.orgs, org_header(*headers), text::opt_str_view(explicit)),
{
    proof {
        headers::lemma_names();
        assert(text::views(ctx.orgs@).len() == ctx.orgs@.len());
    }
    if explicit.is_some() || headers::contains(headers, headers::CUSTOMER_ORG_HEADER)
        || ctx.orgs.len() <= 1 {
        selected_customer_org_from(ctx, headers, explicit)
    } else {
        Ok(ctx.orgs[0].clone())
    }
}

/// A well-formed idempotency key: visible ASCII, without spaces.
pub open spec fn is_idempotency_key(bytes: Seq<u8>) -> bool {
    &&& 0 < bytes.len() <= MAX_IDEMPOTENCY_KEY_CHARS
    &&& forall|i: int| 0 <= i < bytes.len() ==> 0x21 <= #[trigger] bytes[i] <= 0x7e
}

/// The idempotency key of a request, of which every mutation needs one.
pub open spec fn required_key(header: Option<Seq<u8>>) -> Result<Seq<u8>, ReplyView> {
    match header {
        None => Err(reply::refusal(400, "idempotency_key_required"@)),
        Some(bytes) => if is_idempotency_key(bytes) {
            Ok(bytes)
        } else {
            Err(reply::refusal(400, "invalid_idempotency_key"@))
        },
    }
}

/// The first idempotency header of a request.
pub open spec fn key_header(headers: HeaderMap) -> Option<Seq<u8>> {
    headers::first_value(headers, headers::IDEMPOTENCY_KEY_HEADER@)
}

/// Whether every character of `s` is visible ASCII and no space.
fn only_visible(s: &str) -> (r: bool)
    ensures
        r == (forall|i: int| 0 <= i < s@.len() ==> 0x21 <= (#[trigger] s@[i]) as u32 <= 0x7e),
{
    let v = text::chars_of(s);
    let mut i: usize = 0;
    while i < v.len()
        invariant
            i <= v.len(),
            v@ == s@,
            forall|j: int| 0 <= j < i ==> 0x21 <= (#[trigger] s@[j]) as u32 <= 0x7e,
        decreases v.len() - i,
    {
        let u = v[i] as u32;
        if u < 0x21 || u > 0x7e {
            assert(!(0x21 <= s@[i as int] as u32 <= 0x7e));
            return false;
        }
        i += 1;
    }
    true
}

/// The idempotency key of a request.
pub fn require_idempotency_key(headers: &HeaderMap) -> (r: Result<HeaderValue, Reply>)
    ensures
        match r {
            Ok(value) => required_key(key_header(*headers)) == Ok::<Seq<u8>, ReplyView>(
                headers::header_bytes(value),
            ),
            Err(refused) => required_key(key_header(*headers)) == Err::<Seq<u8>, ReplyView>(
                refused@,
            ),
        },
{
    proof {
        headers::lemma_names();
    }
    match headers::get(headers, headers::IDEMPOTENCY_KEY_HEADER) {
        None => Err(reply::deny(400, "idempotency_key_required")),
        Some(value) => {
            let valid = match headers::to_str(&value) {
                Some(key) => {
                    let long = key.as_str().unicode_len();
                    0 < long && long <= MAX_IDEMPOTENCY_KEY_CHARS && only_visible(key.as_str())
                },
                None => false,
            };
            proof {
                let bytes = headers::header_bytes(value);
                match headers::readable(bytes) {
                    Some(s) => {
                        assert(s.len() == bytes.len());
                        assert forall|i: int| 0 <= i < bytes.len() implies #[trigger] s[i] as u32
                            == bytes[i] as u32 by {}
                        if valid {
                            assert forall|i: int| 0 <= i < bytes.len() implies 0x21
                                <= #[trigger] bytes[i] <= 0x7e by {
                                assert(s[i] as u32 == bytes[i] as u32);
                            }
                        }
                        assert(valid == is_idempotency_key(bytes));
                    },
                    None => {
                        if is_idempotency_key(bytes) {
                            assert forall|i: int| 0 <= i < bytes.len() implies headers::is_visible(
                                #[trigger] bytes[i],
                            ) by {}
                        }
                    },
                }
            }
            if valid {
                Ok(value)
            } else {
                Err(reply::deny(400, "invalid_idempotency_key"))
            }
        },
    }
}

/// The headers of a mutation that comes from a form, where the organisation and the
/// idempotency key are fields: those of the request with these two in place of its own.
pub open spec fn form_headers(
    contents: Map<Seq<char>, Seq<Seq<u8>>>,
    orgs: Seq<Seq<char>>,
    explicit_org: Seq<char>,
    idempotency_key: Seq<char>,
) -> Result<Map<Seq<char>, Seq<Seq<u8>>>, ReplyView> {
    match selected_org(orgs, None, Some(explicit_org)) {
        Err(refused) => Err(refused),
        Ok(org) => if !headers::is_value(org) {
            Err(reply::refusal(400, "invalid_org_selection"@))
        } else if !headers::is_value(idempotency_key) || !is_idempotency_key(
            vstd::utf8::encode_utf8(idempotency_key),
        ) {
            Err(reply::refusal(400, "invalid_idempotency_key"@))
        } else {
            Ok(
                contents.insert(
                    headers::CUSTOMER_ORG_HEADER@,
                    seq![vstd::utf8::encode_utf8(org)],
                ).insert(
                    headers::IDEMPOTENCY_KEY_HEADER@,
                    seq![vstd::utf8::encode_utf8(idempotency_key)],
                ),
            )
        },
    }
}

/// The headers of a mutation that comes from a form. There are none where the request has so
/// many headers that no more can be added; a map of some thousand names is far from that.
pub fn form_mutation_headers(
    headers: HeaderMap,
    customer: &CustomerCtx,
    explicit_org: &str,
    idempotency_key: &str,
) -> (r: Option<Result<HeaderMap, Reply>>)
    ensures
        ({
            let expected = form_headers(
                headers::header_contents(headers),
                customer@.orgs,
                explicit_org@,
                idempotency_key@,
            );
            match r {
                Some(Ok(out)) => expected == Ok::<Map<Seq<char>, Seq<Seq<u8>>>, ReplyView>(
                    headers::header_contents(out),
                ),
                Some(Err(refused)) => expected == Err::<
                    Map<Seq<char>, Seq<Seq<u8>>>,
                    ReplyView,
                >(refused@),
                None => !headers::has_room(headers, 2) && selected_org(
                    customer@.orgs,
                    None,
                    Some(explicit_org@),
                ) is Ok && headers::is_value(explicit_org@) && headers::is_value(idempotency_key@),
            }
        }),
{
    proof {
        headers::lemma_names();
    }
    let org = match selected_customer_org_from(customer, &headers, Some(explicit_org)) {
        Ok(org) => org,
        Err(refused) => return Some(Err(refused)),
    };
    let org_value = match headers::from_str(org.as_str()) {
        Some(value) => value,
        None => return Some(Err(reply::deny(400, "invalid_org_selection"))),
    };
    let key_value = match headers::from_str(idempotency_key) {
        Some(value) => value,
        None => return Some(Err(reply::deny(400, "invalid_idempotency_key"))),
    };
    let mut out = headers;
    if !headers::insert(&mut out, headers::CUSTOMER_ORG_HEADER, org_value) {
        return None;
    }
    if !headers::insert(&mut out, headers::IDEMPOTENCY_KEY_HEADER, key_value) {
        return None;
    }
    match require_idempotency_key(&out) {
        Ok(_) => Some(Ok(out)),
        Err(refused) => Some(Err(refused)),
    }
}

} // verus!
