//! What logins by way of Supabase Auth guarantee.

use vstd::prelude::*;
use vstd::string::*;

use crate::auth;
use crate::json;
use crate::json::JsonNodes;
use crate::supabase_answers;
use crate::supabase_answers::SupabaseOutcomeView;
use crate::supabase_auth;
use crate::supabase_auth::{ErrorView, Factor, FactorView, OtpChannel, ProjectView, SupabaseAuthError};
use crate::text;
use crate::text_laws;
use crate::upstream::Verb;

verus! {

/// A text without white space is what trimming it leaves, and so is removing its white space.
proof fn lemma_nothing_to_remove(s: Seq<char>)
    requires
        !text::has_white_space(s),
    ensures
        text::trimmed(s) == s,
        text::without_white_space(s) == s,
    decreases s.len(),
{
    let keep = |c: char| !text::is_white_space(c);
    reveal(Seq::filter);
    if s.len() > 0 {
        assert(!text::is_white_space(s[0]));
        assert(!text::is_white_space(s.last()));
        let front = s.drop_last();
        assert forall|i: int| 0 <= i < front.len() implies !text::is_white_space(
            #[trigger] front[i],
        ) by {
            assert(front[i] == s[i]);
        }
        lemma_nothing_to_remove(front);
        assert(front.push(s.last()) =~= s);
    } else {
        assert(s.filter(keep) =~= s);
    }
}

/// White space consists of what removing white space removes.
proof fn lemma_all_removed(s: Seq<char>)
    requires
        text::all_white_space(s),
    ensures
        text::without_white_space(s) == Seq::<char>::empty(),
    decreases s.len(),
{
    reveal(Seq::filter);
    if s.len() > 0 {
        assert(text::is_white_space(s.last()));
        let front = s.drop_last();
        assert forall|i: int| 0 <= i < front.len() implies text::is_white_space(
            #[trigger] front[i],
        ) by {
            assert(front[i] == s[i]);
        }
        lemma_all_removed(front);
    }
}

/// A telephone number and a code hold no white space.
proof fn lemma_digits_are_solid(s: Seq<char>)
    requires
        supabase_auth::is_e164(s) || supabase_auth::is_code(s),
    ensures
        !text::has_white_space(s),
{
    assert forall|i: int| 0 <= i < s.len() implies !text::is_white_space(#[trigger] s[i]) by {
        if supabase_auth::is_e164(s) && i > 0 {
            assert(text::is_digit(s.skip(1)[i - 1]));
        }
    }
}

/// What a recipient is sent as is accepted again, and is sent as itself.
pub proof fn law_normal_recipients_are_stable(channel: OtpChannel, identifier: Seq<char>)
    ensures
        supabase_auth::normalized(channel, identifier) matches Ok(s) ==> supabase_auth::normalized(
            channel,
            s,
        ) == Ok::<Seq<char>, ErrorView>(s),
{
    match supabase_auth::normalized(channel, identifier) {
        Ok(s) => {
            if channel == OtpChannel::Phone {
                lemma_digits_are_solid(s);
            }
            lemma_nothing_to_remove(s);
        },
        Err(_) => {},
    }
}

/// What a code is sent as is accepted again, and is sent as itself.
pub proof fn law_normal_codes_are_stable(token: Seq<char>)
    ensures
        supabase_auth::normalized_code(token) matches Ok(s) ==> supabase_auth::is_code(s)
            && supabase_auth::normalized_code(s) == Ok::<Seq<char>, ErrorView>(s),
{
    match supabase_auth::normalized_code(token) {
        Ok(s) => {
            lemma_digits_are_solid(s);
            lemma_nothing_to_remove(s);
        },
        Err(_) => {},
    }
}

/// However a telephone number is spaced, it is the same number.
pub proof fn law_spacing_of_phones_is_ignored(a: Seq<char>, b: Seq<char>)
    requires
        text::without_white_space(a) == text::without_white_space(b),
    ensures
        supabase_auth::normalized(OtpChannel::Phone, a) == supabase_auth::normalized(
            OtpChannel::Phone,
            b,
        ),
{
    lemma_trimming_removes_white_space(a);
    lemma_trimming_removes_white_space(b);
}

/// Trimming takes away nothing but white space.
proof fn lemma_trimming_removes_white_space(s: Seq<char>)
    ensures
        text::without_white_space(text::trimmed(s)) == text::without_white_space(s),
{
    let keep = |c: char| !text::is_white_space(c);
    let n = text::lemma_trim_front_splits(s);
    let mid = s.skip(n);
    let m = text::lemma_trim_back_splits(mid);
    lemma_all_removed(s.take(n));
    lemma_all_removed(mid.skip(m));
    Seq::filter_distributes_over_add(s.take(n), mid, keep);
    Seq::filter_distributes_over_add(mid.take(m), mid.skip(m), keep);
    assert(s =~= s.take(n) + mid);
    assert(mid =~= mid.take(m) + mid.skip(m));
    assert(text::without_white_space(s) =~= text::without_white_space(mid));
    assert(text::without_white_space(mid) =~= text::without_white_space(mid.take(m)));
}

/// What Supabase refuses is an error with a reason, and what cannot be reached or understood
/// is an outage: neither gives a document that a session could be read from.
pub proof fn law_failures_give_no_document(status: int, body: Seq<char>, reason: Seq<char>)
    requires
        !auth::is_success(status),
    ensures
        supabase_answers::expected(SupabaseOutcomeView::Answered(status, body)) matches Err(
            ErrorView::Rejected(detail),
        ) && detail.len() > 0,
        supabase_answers::expected(SupabaseOutcomeView::Failed(reason)) == Err::<
            crate::json::JsonNodes,
            ErrorView,
        >(ErrorView::Unavailable(reason)),
{
    reveal_strlit("supabase returned a non-success status with no body");
}

/// A second factor is asked for exactly where the user has finished enrolling one.
pub proof fn law_step_up_exactly_for_verified(factors: Seq<FactorView>)
    ensures
        supabase_auth::first_verified(factors) is Some <==> exists|i: int|
            0 <= i < factors.len() && supabase_auth::verified_totp(#[trigger] factors[i]),
        supabase_auth::first_verified(factors) matches Some(id) ==> exists|i: int|
            0 <= i < factors.len() && supabase_auth::verified_totp(#[trigger] factors[i])
                && factors[i].id == id,
    decreases factors.len(),
{
    if factors.len() > 0 {
        let rest = factors.drop_first();
        law_step_up_exactly_for_verified(rest);
        assert forall|i: int| 0 <= i < rest.len() implies #[trigger] rest[i] == factors[i + 1] by {}
        if supabase_auth::verified_totp(factors[0]) {
        } else {
            if exists|i: int|
                0 <= i < factors.len() && supabase_auth::verified_totp(#[trigger] factors[i]) {
                let i = choose|i: int|
                    0 <= i < factors.len() && supabase_auth::verified_totp(#[trigger] factors[i]);
                assert(rest[i - 1] == factors[i]);
            }
        }
    }
}

/// An enrollment that was not finished locks nobody out: it changes nothing about who must
/// show which factor.
pub proof fn law_unfinished_enrollments_do_not_count(
    before: Seq<FactorView>,
    unfinished: FactorView,
    behind: Seq<FactorView>,
)
    requires
        !supabase_auth::verified_totp(unfinished),
    ensures
        supabase_auth::first_verified(before + seq![unfinished] + behind)
            == supabase_auth::first_verified(before + behind),
    decreases before.len(),
{
    let long = before + seq![unfinished] + behind;
    let short = before + behind;
    if before.len() == 0 {
        assert(long.drop_first() =~= behind);
        assert(short =~= behind);
        assert(long[0] == unfinished);
    } else {
        let rest = before.drop_first();
        assert(long[0] == before[0]);
        assert(short[0] == before[0]);
        assert(long.drop_first() =~= rest + seq![unfinished] + behind);
        assert(short.drop_first() =~= rest + behind);
        law_unfinished_enrollments_do_not_count(rest, unfinished, behind);
    }
}

/// A plus and 7 to 15 ASCII digits, of which the first is one of 1 to 9.
pub open spec fn is_international(s: Seq<char>) -> bool {
    &&& 8 <= s.len() <= 16
    &&& s[0] == '+'
    &&& '1' as u32 <= s[1] as u32 <= '9' as u32
    &&& forall|i: int| 1 <= i < s.len() ==> '0' as u32 <= #[trigger] s[i] as u32 <= '9' as u32
}

/// Every telephone number of the world, written as a plus and 7 to 15 digits of which the first is
/// no zero, is accepted and sent as itself, however it is spaced; nothing else is accepted.
pub proof fn law_phones_of_every_country_are_accepted(s: Seq<char>)
    ensures
        is_international(s) ==> supabase_auth::normalized(OtpChannel::Phone, s) == Ok::<
            Seq<char>,
            ErrorView,
        >(s),
        is_international(text::without_white_space(s)) ==> supabase_auth::normalized(
            OtpChannel::Phone,
            s,
        ) == Ok::<Seq<char>, ErrorView>(text::without_white_space(s)),
        !is_international(text::without_white_space(s)) ==> supabase_auth::normalized(
            OtpChannel::Phone,
            s,
        ) == Err::<Seq<char>, ErrorView>(
            ErrorView::Invalid("phone must be E.164, e.g. +14155550123"@),
        ),
        supabase_auth::is_e164(s) <==> is_international(s),
{
    lemma_international(s);
    lemma_international(text::without_white_space(s));
    lemma_trimming_removes_white_space(s);
    if is_international(s) {
        lemma_digits_are_solid(s);
        lemma_nothing_to_remove(s);
    }
}

/// A character that is not a zero has another number than a zero.
proof fn lemma_no_zero(c: char)
    requires
        c != '0',
    ensures
        c as u32 != '0' as u32,
{
}

/// A telephone number is one of the world's.
proof fn lemma_international(s: Seq<char>)
    ensures
        supabase_auth::is_e164(s) <==> is_international(s),
{
    if supabase_auth::is_e164(s) {
        assert forall|i: int| 1 <= i < s.len() implies '0' as u32 <= #[trigger] s[i] as u32
            <= '9' as u32 by {
            assert(text::is_digit(s.skip(1)[i - 1]));
        }
        assert(text::is_digit(s.skip(1)[0]));
        lemma_no_zero(s[1]);
    }
    if is_international(s) {
        assert forall|i: int| 0 <= i < s.skip(1).len() implies text::is_digit(
            #[trigger] s.skip(1)[i],
        ) by {
            assert(s.skip(1)[i] == s[i + 1]);
        }
    }
}

/// Two telephone numbers that differ are sent differently.
pub proof fn law_different_phones_are_sent_differently(a: Seq<char>, b: Seq<char>)
    requires
        is_international(a),
        is_international(b),
        a != b,
    ensures
        supabase_auth::normalized(OtpChannel::Phone, a) != supabase_auth::normalized(
            OtpChannel::Phone,
            b,
        ),
{
    law_phones_of_every_country_are_accepted(a);
    law_phones_of_every_country_are_accepted(b);
}

/// A mail address is a name, an `@` and a domain: the name is not empty, the domain has a full
/// stop that is neither its first nor its last character, and there is no white space and no
/// other `@`. An address of at most 320 bytes of this form is accepted.
pub proof fn law_mail_addresses_are_a_name_at_a_domain(
    name: Seq<char>,
    domain: Seq<char>,
    s: Seq<char>,
)
    ensures
        ({
            let whole = name + seq!['@'] + domain;
            &&& name.len() > 0
            &&& !name.contains('@')
            &&& !domain.contains('@')
            &&& domain.contains('.')
            &&& domain[0] != '.'
            &&& domain.last() != '.'
            &&& !text::has_white_space(whole)
            &&& vstd::utf8::encode_utf8(whole).len() <= 320
        }) ==> supabase_auth::is_email(name + seq!['@'] + domain),
        supabase_auth::is_email(s) ==> !text::has_white_space(s) && vstd::utf8::encode_utf8(s).len()
            <= 320 && exists|l: Seq<char>, d: Seq<char>|
            s == #[trigger] (l + seq!['@'] + d) && l.len() > 0 && !l.contains('@') && !d.contains(
                '@',
            ) && d.contains('.') && d[0] != '.' && d.last() != '.',
{
    let parts = seq![name, domain];
    if !name.contains('@') && !domain.contains('@') {
        text_laws::law_pieces_undo_joining(parts, '@');
        text_laws::law_joining_goes_part_by_part(seq![name], seq![domain], seq!['@']);
        text_laws::law_joining_goes_part_by_part(seq![domain], seq![name], seq!['@']);
        assert(seq![name] + seq![domain] =~= parts);
    }
    if supabase_auth::is_email(s) {
        let p = text::pieces(s, '@');
        text_laws::law_pieces_make_up_the_text(s, '@');
        text_laws::law_joining_goes_part_by_part(seq![p[0]], seq![p[1]], seq!['@']);
        text_laws::law_joining_goes_part_by_part(seq![p[1]], seq![p[0]], seq!['@']);
        assert(seq![p[0]] + seq![p[1]] =~= p);
        assert(s == p[0] + seq!['@'] + p[1]);
    }
}

/// A mail address is sent without the white space around it and otherwise as it was typed;
/// anything else is told to be malformed.
pub proof fn law_mail_addresses_are_sent_trimmed(s: Seq<char>)
    ensures
        supabase_auth::is_email(s) ==> supabase_auth::normalized(OtpChannel::Email, s) == Ok::<
            Seq<char>,
            ErrorView,
        >(s),
        supabase_auth::is_email(text::trimmed(s)) ==> supabase_auth::normalized(
            OtpChannel::Email,
            s,
        ) == Ok::<Seq<char>, ErrorView>(text::trimmed(s)),
        !supabase_auth::is_email(text::trimmed(s)) ==> supabase_auth::normalized(
            OtpChannel::Email,
            s,
        ) == Err::<Seq<char>, ErrorView>(ErrorView::Invalid("email is not well-formed"@)),
{
    if supabase_auth::is_email(s) {
        lemma_nothing_to_remove(s);
    }
}

/// A code is 6 to 8 ASCII digits with nothing but white space around them; it is sent without
/// that, and nothing else is accepted.
pub proof fn law_codes_are_six_to_eight_digits(s: Seq<char>)
    ensures
        ({
            let t = text::trimmed(s);
            let fine = 6 <= t.len() <= 8 && forall|i: int|
                0 <= i < t.len() ==> '0' as u32 <= #[trigger] t[i] as u32 <= '9' as u32;
            &&& fine ==> supabase_auth::normalized_code(s) == Ok::<Seq<char>, ErrorView>(t)
            &&& !fine ==> supabase_auth::normalized_code(s) == Err::<Seq<char>, ErrorView>(
                ErrorView::Invalid("code must be 6–8 digits"@),
            )
        }),
{
    let t = text::trimmed(s);
    if supabase_auth::is_code(t) {
        assert forall|i: int| 0 <= i < t.len() implies '0' as u32 <= #[trigger] t[i] as u32
            <= '9' as u32 by {
            assert(text::is_digit(t[i]));
        }
    }
}

/// The address of a part of the Auth interface is the project's, the interface's root and the
/// part; slashes in front of the part do not count.
pub proof fn law_addresses_of_parts(base: Seq<char>, part: Seq<char>, slashes: Seq<char>)
    requires
        part.len() > 0 ==> part[0] != '/',
        text_laws::is_run(slashes, '/'),
    ensures
        supabase_auth::endpoint_of(base, part) == base + "/auth/v1/"@ + part,
        supabase_auth::endpoint_of(base, slashes + part) == base + "/auth/v1/"@ + part,
{
    text_laws::law_runs_are_dropped(part, slashes, '/');
}

/// A request to a project goes to the project's own address with the project's own key, and
/// carries the verb, the token and the body that it was made with.
pub proof fn law_requests_carry_what_they_are_made_of(
    project: ProjectView,
    verb: Verb,
    part: Seq<char>,
    bearer: Option<Seq<char>>,
    body: Option<JsonNodes>,
)
    requires
        part.len() > 0 ==> part[0] != '/',
    ensures
        ({
            let call = supabase_auth::call_of(project, verb, part, bearer, body);
            &&& call.verb == verb
            &&& call.url == project.base_url + "/auth/v1/"@ + part
            &&& call.apikey == project.publishable_key
            &&& call.bearer == bearer
            &&& call.body == body
        }),
{
}

/// The factor that must be shown is the first of those that are fully enrolled.
pub proof fn law_the_first_enrolled_factor_is_shown(
    before: Seq<FactorView>,
    factor: FactorView,
    behind: Seq<FactorView>,
)
    requires
        forall|i: int|
            0 <= i < before.len() ==> (#[trigger] before[i]).factor_type != Some("totp"@)
                || before[i].status != Some("verified"@),
        factor.factor_type == Some("totp"@),
        factor.status == Some("verified"@),
    ensures
        supabase_auth::first_verified(before + seq![factor] + behind) == Some(factor.id),
        supabase_auth::first_verified(before) is None,
    decreases before.len(),
{
    let all = before + seq![factor] + behind;
    if before.len() == 0 {
        assert(all[0] == factor);
    } else {
        let rest = before.drop_first();
        assert forall|i: int| 0 <= i < rest.len() implies (#[trigger] rest[i]).factor_type != Some(
            "totp"@,
        ) || rest[i].status != Some("verified"@) by {
            assert(rest[i] == before[i + 1]);
        }
        law_the_first_enrolled_factor_is_shown(rest, factor, behind);
        assert(all[0] == before[0]);
        assert(all.drop_first() =~= rest + seq![factor] + behind);
    }
}

/// The reason for a refusal is the filled text that comes first in a fixed order of members; else
/// the first 200 characters of the trimmed body; else that there was none.
pub proof fn law_refusals_give_the_first_reason(
    document: JsonNodes,
    reason: Seq<char>,
    body: Seq<char>,
)
    requires
        reason.len() > 0,
    ensures
        ({
            let said = |key: Seq<char>| json::member_text(document, key) matches Some(s) && s.len()
                > 0;
            let tells = |key: Seq<char>| json::member_text(document, key) == Some(reason);
            let r = supabase_answers::refusal_reason(body, Some(document));
            &&& tells("error_description"@) ==> r == reason
            &&& !said("error_description"@) && tells("msg"@) ==> r == reason
            &&& !said("error_description"@) && !said("msg"@) && tells("message"@) ==> r == reason
            &&& !said("error_description"@) && !said("msg"@) && !said("message"@) && tells(
                "error"@,
            ) ==> r == reason
            &&& !said("error_description"@) && !said("msg"@) && !said("message"@) && !said(
                "error"@,
            ) ==> r == supabase_answers::refusal_reason(body, None)
        }),
        ({
            let t = text::trimmed(body);
            let r = supabase_answers::refusal_reason(body, None);
            &&& t.len() == 0 ==> r == "supabase returned a non-success status with no body"@
            &&& 0 < t.len() <= 200 ==> r == t
            &&& t.len() > 200 ==> r.len() == 200 && r.is_prefix_of(t)
        }),
{
    let t = text::trimmed(body);
    if t.len() > 200 {
        assert(t.take(200) =~= t.subrange(0, 200));
    }
}

/// The document of a success is what its body parses to, and null where there is none; a body
/// that is no document is an outage, and a refusal is told with its reason.
pub proof fn law_successes_are_what_they_parse_to(status: int, body: Seq<char>)
    ensures
        200 <= status <= 299 && text::trimmed(body).len() == 0 ==> (supabase_answers::expected(
            SupabaseOutcomeView::Answered(status, body),
        ) matches Ok(nodes) && json::is_null(nodes)),
        200 <= status <= 299 && text::trimmed(body).len() > 0 ==> match (
            supabase_answers::expected(SupabaseOutcomeView::Answered(status, body)),
            json::json_document(body),
        ) {
            (Ok(nodes), Ok(parsed)) => nodes == parsed,
            (Err(ErrorView::Unavailable(told)), Err(message)) => told == message,
            _ => false,
        },
        status < 200 || status > 299 ==> supabase_answers::expected(
            SupabaseOutcomeView::Answered(status, body),
        ) == Err::<JsonNodes, ErrorView>(
            ErrorView::Rejected(
                match json::json_document(body) {
                    Ok(parsed) => supabase_answers::refusal_reason(body, Some(parsed)),
                    Err(_) => supabase_answers::refusal_reason(body, None),
                },
            ),
        ),
{
}

/// Every item that was read as a factor is kept, in order, and no other.
pub proof fn law_read_factors_are_kept_in_order(
    a: Seq<Option<Factor>>,
    b: Seq<Option<Factor>>,
    factor: Factor,
)
    ensures
        supabase_answers::read_factors(a + b) == supabase_answers::read_factors(a)
            + supabase_answers::read_factors(b),
        supabase_answers::read_factors(seq![Some(factor)]) == seq![factor],
        supabase_answers::read_factors(seq![None::<Factor>]).len() == 0,
    decreases b.len(),
{
    assert(seq![Some(factor)].drop_last() =~= Seq::<Option<Factor>>::empty());
    assert(supabase_answers::read_factors(Seq::<Option<Factor>>::empty()) =~= Seq::empty());
    assert(seq![Some(factor)].last() == Some(factor));
    assert(supabase_answers::read_factors(seq![Some(factor)]) =~= seq![factor]);
    assert(seq![None::<Factor>].drop_last() =~= Seq::<Option<Factor>>::empty());
    assert(seq![None::<Factor>].last() is None);
    assert(supabase_answers::read_factors(seq![None::<Factor>]) =~= Seq::empty());
    if b.len() == 0 {
        assert(a + b =~= a);
        assert(supabase_answers::read_factors(a) + supabase_answers::read_factors(b)
            =~= supabase_answers::read_factors(a));
    } else {
        let front = b.drop_last();
        law_read_factors_are_kept_in_order(a, front, factor);
        assert((a + b).drop_last() =~= a + front);
        assert((a + b).last() == b.last());
        if let Some(f) = b.last() {
            assert(supabase_answers::read_factors(a + front).push(f)
                =~= supabase_answers::read_factors(a) + supabase_answers::read_factors(
                front,
            ).push(f));
        }
    }
}

/// The factors of a user are the items under that name; where there is no such list, there are
/// none.
pub proof fn law_factors_are_the_items_of_that_name(document: JsonNodes)
    ensures
        match json::member_items(document, "factors"@) {
            Some(items) => supabase_answers::factor_documents(document) == items,
            None => supabase_answers::factor_documents(document).len() == 0,
        },
{
}

/// An enrollment is accepted exactly where it names a factor and a secret, and then tells each of
/// its parts as they stand in the answer.
pub proof fn law_enrollments_tell_the_answer(document: JsonNodes, totp: JsonNodes)
    requires
        json::member(document, "totp"@) == Some(totp),
    ensures
        ({
            let filled = |nodes: JsonNodes, key: Seq<char>|
                json::member_text(nodes, key) matches Some(s) && s.len() > 0;
            let r = supabase_answers::enrollment(document);
            &&& r is Ok <==> filled(document, "id"@) && filled(totp, "secret"@)
            &&& r matches Ok(e) ==> {
                &&& json::member_text(document, "id"@) == Some(e.factor_id)
                &&& json::member_text(totp, "secret"@) == Some(e.secret)
                &&& json::member_text(totp, "qr_code"@) matches Some(s) ==> e.qr_code == s
                &&& json::member_text(totp, "qr_code"@) is None ==> e.qr_code.len() == 0
                &&& json::member_text(totp, "uri"@) matches Some(s) ==> e.uri == s
                &&& json::member_text(totp, "uri"@) is None ==> e.uri.len() == 0
            }
            &&& r matches Err(error) ==> error == ErrorView::Unavailable(
                "enroll response missing factor id or secret"@,
            )
        }),
{
    reveal_strlit("");
}

/// An enrollment without anything about the app is of no use.
pub proof fn law_enrollments_need_the_app(document: JsonNodes)
    requires
        json::member(document, "totp"@) is None,
    ensures
        supabase_answers::enrollment(document) == Err::<supabase_auth::EnrollmentView, ErrorView>(
            ErrorView::Unavailable("enroll response missing factor id or secret"@),
        ),
{
    reveal_strlit("");
}

/// An error is told in words that end with its own.
pub proof fn law_errors_are_told_in_words(error: SupabaseAuthError)
    ensures
        error@ matches ErrorView::Invalid(reason) ==> error.words() == "invalid input: "@ + reason,
        error@ matches ErrorView::Rejected(detail) ==> error.words()
            == "supabase rejected request: "@ + detail,
        error@ matches ErrorView::Unavailable(detail) ==> error.words()
            == "supabase unavailable: "@ + detail,
{
}

} // verus!
