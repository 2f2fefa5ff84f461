//! What the choice of an organisation guarantees.

use vstd::prelude::*;
use vstd::string::*;

use crate::answer_laws;
use crate::headers;
use crate::orgs;
use crate::reply;
use crate::reply::ReplyView;
use crate::text;

verus! {

/// Nobody acts for, or is shown, an organisation that they are no member of.
pub proof fn law_selection_stays_within_memberships(
    orgs: Seq<Seq<char>>,
    header: Option<Seq<u8>>,
    explicit: Option<Seq<char>>,
)
    ensures
        orgs::selected_org(orgs, header, explicit) matches Ok(org) ==> orgs.contains(org),
        orgs::page_org(orgs, header, explicit) matches Ok(org) ==> orgs.contains(org),
{
    if orgs.len() >= 1 {
        assert(orgs.contains(orgs[0]));
    }
}

/// An organisation asked for explicitly makes the header irrelevant.
pub proof fn law_explicit_selection_wins(
    orgs: Seq<Seq<char>>,
    header: Option<Seq<u8>>,
    other_header: Option<Seq<u8>>,
    explicit: Seq<char>,
)
    ensures
        orgs::selected_org(orgs, header, Some(explicit)) == orgs::selected_org(
            orgs,
            other_header,
            Some(explicit),
        ),
        orgs::page_org(orgs, header, Some(explicit)) == orgs::selected_org(
            orgs,
            header,
            Some(explicit),
        ),
{
}

/// A member of several organisations changes nothing without naming one of them.
pub proof fn law_no_organisation_is_guessed(orgs: Seq<Seq<char>>)
    requires
        orgs.len() > 1,
    ensures
        orgs::selected_org(orgs, None, None) == Err::<Seq<char>, ReplyView>(
            reply::refusal(400, "org_selection_required"@),
        ),
{
}

/// The headers made for a form select the organisation of the form and carry a key that
/// allows the mutation, where the organisation's id is ASCII.
pub proof fn law_form_headers_carry_the_form(
    contents: Map<Seq<char>, Seq<Seq<u8>>>,
    orgs: Seq<Seq<char>>,
    explicit_org: Seq<char>,
    idempotency_key: Seq<char>,
)
    requires
        vstd::utf8::is_ascii_chars(explicit_org),
    ensures
        orgs::form_headers(contents, orgs, explicit_org, idempotency_key) matches Ok(out) ==> {
            &&& out.contains_key(headers::CUSTOMER_ORG_HEADER@)
            &&& orgs::selected_org(orgs, Some(out[headers::CUSTOMER_ORG_HEADER@][0]), None) == Ok::<
                Seq<char>,
                ReplyView,
            >(explicit_org)
            &&& out.contains_key(headers::IDEMPOTENCY_KEY_HEADER@)
            &&& orgs::required_key(Some(out[headers::IDEMPOTENCY_KEY_HEADER@][0])) == Ok::<
                Seq<u8>,
                ReplyView,
            >(vstd::utf8::encode_utf8(idempotency_key))
        },
{
    headers::lemma_names();
    match orgs::form_headers(contents, orgs, explicit_org, idempotency_key) {
        Ok(out) => {
            let bytes = vstd::utf8::encode_utf8(explicit_org);
            vstd::utf8::is_ascii_chars_encode_utf8(explicit_org);
            assert(bytes =~= Seq::new(explicit_org.len(), |i: int| explicit_org[i] as u8));
            assert forall|i: int| 0 <= i < bytes.len() implies headers::is_visible(
                #[trigger] bytes[i],
            ) && bytes[i] as char == explicit_org[i] by {
                assert(headers::is_value_byte(bytes[i]));
                assert((explicit_org[i] as u32) < 128);
            }
            assert(headers::readable(bytes)->0 =~= explicit_org);
        },
        Err(_) => {},
    }
}

/// A member who names one of their organisations by a well-formed id acts for it, whether they
/// name it explicitly or in the header; one with a single organisation need not name it.
pub proof fn law_members_act_for_the_organisation_they_name(
    orgs: Seq<Seq<char>>,
    org: Seq<char>,
    header: Option<Seq<u8>>,
    bytes: Seq<u8>,
)
    requires
        orgs.contains(org),
        orgs::is_org_id(org),
        headers::readable(bytes) == Some(org),
    ensures
        orgs::selected_org(orgs, header, Some(org)) == Ok::<Seq<char>, ReplyView>(org),
        orgs::selected_org(orgs, Some(bytes), None) == Ok::<Seq<char>, ReplyView>(org),
        orgs::page_org(orgs, header, Some(org)) == Ok::<Seq<char>, ReplyView>(org),
        orgs::page_org(orgs, Some(bytes), None) == Ok::<Seq<char>, ReplyView>(org),
{
}

/// Without a name the one organisation of a member is theirs, whatever its id; a page shows
/// the first of several.
pub proof fn law_the_only_organisation_needs_no_name(orgs: Seq<Seq<char>>)
    ensures
        orgs.len() == 1 ==> orgs::selected_org(orgs, None, None) == Ok::<Seq<char>, ReplyView>(
            orgs[0],
        ),
        orgs.len() >= 1 ==> orgs::page_org(orgs, None, None) == Ok::<Seq<char>, ReplyView>(orgs[0]),
{
}

/// Every refusal of a choice tells why.
pub proof fn law_refused_choices_are_told_why(
    orgs: Seq<Seq<char>>,
    org: Seq<char>,
    header: Option<Seq<u8>>,
    bytes: Seq<u8>,
)
    ensures
        !orgs::is_org_id(org) ==> (orgs::selected_org(orgs, header, Some(org)) matches Err(r)
            && answer_laws::refuses(r, 400, "invalid_org_selection"@)),
        headers::readable(bytes) is None ==> (orgs::selected_org(
            orgs,
            Some(bytes),
            None,
        ) matches Err(r) && answer_laws::refuses(r, 400, "invalid_org_selection"@)),
        orgs::is_org_id(org) && !orgs.contains(org) ==> (orgs::selected_org(
            orgs,
            header,
            Some(org),
        ) matches Err(r) && answer_laws::refuses(r, 403, "forbidden_org"@)),
        headers::readable(bytes) == Some(org) ==> orgs::selected_org(orgs, Some(bytes), None)
            == orgs::selected_org(orgs, header, Some(org)),
        orgs.len() == 0 ==> (orgs::selected_org(orgs, None, None) matches Err(r)
            && answer_laws::refuses(r, 403, "no_org_membership"@)),
        orgs.len() == 0 ==> (orgs::page_org(orgs, None, None) matches Err(r)
            && answer_laws::refuses(r, 403, "no_org_membership"@)),
        orgs.len() > 1 ==> (orgs::selected_org(orgs, None, None) matches Err(r)
            && answer_laws::refuses(r, 400, "org_selection_required"@)),
        orgs::page_org(orgs, Some(bytes), None) == orgs::selected_org(orgs, Some(bytes), None),
{
    answer_laws::law_refusals_tell_their_code(400, "invalid_org_selection"@);
    answer_laws::law_refusals_tell_their_code(403, "forbidden_org"@);
    answer_laws::law_refusals_tell_their_code(403, "no_org_membership"@);
    answer_laws::law_refusals_tell_their_code(400, "org_selection_required"@);
}

/// An organisation id is any text of 1 to 128 bytes without white space and control characters.
pub proof fn law_organisation_ids(s: Seq<char>)
    ensures
        orgs::is_org_id(s) <==> {
            &&& 1 <= s.len()
            &&& vstd::utf8::encode_utf8(s).len() <= 128
            &&& forall|i: int|
                0 <= i < s.len() ==> !text::is_white_space(#[trigger] s[i])
                    && !text::is_control_char(s[i])
        },
{
    if orgs::is_org_id(s) {
        assert forall|i: int| 0 <= i < s.len() implies !text::is_white_space(#[trigger] s[i])
            && !text::is_control_char(s[i]) by {}
    }
}

/// An idempotency key is any run of 1 to 200 visible ASCII characters without a space; it is
/// passed on as it is, and anything else is refused.
pub proof fn law_idempotency_keys(bytes: Seq<u8>)
    ensures
        (1 <= bytes.len() <= 200 && forall|i: int|
            0 <= i < bytes.len() ==> 33 <= #[trigger] bytes[i] <= 126) ==> orgs::required_key(
            Some(bytes),
        ) == Ok::<Seq<u8>, ReplyView>(bytes),
        orgs::required_key(Some(bytes)) matches Ok(key) ==> key == bytes && 1 <= bytes.len() <= 200
            && forall|i: int| 0 <= i < bytes.len() ==> 33 <= #[trigger] bytes[i] <= 126,
        orgs::required_key(Some(bytes)) matches Err(r) ==> answer_laws::refuses(
            r,
            400,
            "invalid_idempotency_key"@,
        ),
        orgs::required_key(None) matches Err(r) && answer_laws::refuses(
            r,
            400,
            "idempotency_key_required"@,
        ),
{
    answer_laws::law_refusals_tell_their_code(400, "invalid_idempotency_key"@);
    answer_laws::law_refusals_tell_their_code(400, "idempotency_key_required"@);
}

/// The headers made for a form are the request's own, but for the organisation and the key,
/// which are the form's. There are such headers exactly where the organisation may be acted for
/// and both can be sent.
pub proof fn law_form_headers_keep_the_rest(
    contents: Map<Seq<char>, Seq<Seq<u8>>>,
    orgs: Seq<Seq<char>>,
    explicit_org: Seq<char>,
    idempotency_key: Seq<char>,
    name: Seq<char>,
)
    requires
        name != "x-fiducia-org-id"@,
        name != "idempotency-key"@,
    ensures
        orgs::form_headers(contents, orgs, explicit_org, idempotency_key) is Ok <==> {
            &&& orgs.contains(explicit_org)
            &&& orgs::is_org_id(explicit_org)
            &&& headers::is_value(explicit_org)
            &&& headers::is_value(idempotency_key)
            &&& orgs::is_idempotency_key(vstd::utf8::encode_utf8(idempotency_key))
        },
        orgs::form_headers(contents, orgs, explicit_org, idempotency_key) matches Ok(out) ==> {
            &&& out.contains_key(name) <==> contents.contains_key(name)
            &&& contents.contains_key(name) ==> out[name] == contents[name]
            &&& out["x-fiducia-org-id"@] == seq![vstd::utf8::encode_utf8(explicit_org)]
            &&& out["idempotency-key"@] == seq![vstd::utf8::encode_utf8(idempotency_key)]
        },
{
    headers::lemma_names();
}

/// A form whose organisation cannot be chosen is told so as any request would be; one whose
/// organisation or idempotency key cannot be sent on is told which of the two it is.
pub proof fn law_refused_forms_are_told_why(
    contents: Map<Seq<char>, Seq<Seq<u8>>>,
    orgs: Seq<Seq<char>>,
    explicit_org: Seq<char>,
    idempotency_key: Seq<char>,
)
    ensures
        ({
            let r = orgs::form_headers(contents, orgs, explicit_org, idempotency_key);
            let org = orgs::selected_org(orgs, None, Some(explicit_org));
            let sendable = headers::is_value(explicit_org);
            let key = headers::is_value(idempotency_key) && orgs::is_idempotency_key(
                vstd::utf8::encode_utf8(idempotency_key),
            );
            &&& org is Err ==> r is Err && r->Err_0 == org->Err_0
            &&& org is Ok && !sendable ==> r is Err && answer_laws::refuses(
                r->Err_0,
                400,
                "invalid_org_selection"@,
            )
            &&& org is Ok && sendable && !key ==> r is Err && answer_laws::refuses(
                r->Err_0,
                400,
                "invalid_idempotency_key"@,
            )
        }),
{
    reveal_strlit("x-fiducia-org-id");
    reveal_strlit("idempotency-key");
    assert("x-fiducia-org-id"@.len() > 0);
    assert("idempotency-key"@.len() > 0);
    law_form_headers_keep_the_rest(contents, orgs, explicit_org, idempotency_key, Seq::empty());
    answer_laws::law_refusals_tell_their_code(400, "invalid_org_selection"@);
    answer_laws::law_refusals_tell_their_code(400, "invalid_idempotency_key"@);
}

} // verus!
