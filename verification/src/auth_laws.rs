//! What authentication guarantees as a whole.

use vstd::prelude::*;
use vstd::string::*;

use crate::answer_laws;
use crate::auth;
use crate::auth::{
    AuthStepView, AuthenticatorView, CredentialView, CustomerView, OutcomeView, SelectionView,
};
use crate::reply;
use crate::reply::ReplyView;
use crate::text;
use crate::text_laws;

verus! {

/// What authentication comes to, for a request that presents the given credential and an
/// auth service that, where it is asked, answers as given.
pub open spec fn decided(
    auth: AuthenticatorView,
    selection: SelectionView,
    outcome: OutcomeView,
) -> Result<CustomerView, ReplyView> {
    match auth::first_step(auth, selection) {
        AuthStepView::Settled(r) => r,
        AuthStepView::Verify { url, credential } => auth::verdict(credential, outcome),
    }
}

/// Without an auth service every request is refused, whatever it presents.
pub proof fn law_unconfigured_denies(selection: SelectionView, outcome: OutcomeView)
    ensures
        decided(AuthenticatorView::Deny, selection, outcome) == Err::<CustomerView, ReplyView>(
            reply::refusal(503, "customer_auth_not_configured"@),
        ),
{
}

/// Only debug builds can have the fixed session; a release build without the address of an
/// auth service refuses everyone.
pub proof fn law_release_builds_have_no_fixed_session(
    static_auth: Option<Seq<char>>,
    auth_url: Option<Seq<char>>,
)
    ensures
        !(auth::configured(false, static_auth, auth_url) is Static),
        auth::configured(false, static_auth, None) == AuthenticatorView::Deny,
{
}

/// The auth service alone lets a request in: the request presents a valid credential, the
/// service answers with success, and its answer names a user and at least one organisation.
/// The session is then the one that the service described, bound to that credential.
pub proof fn law_only_the_auth_service_lets_in(
    url: Seq<char>,
    selection: SelectionView,
    outcome: OutcomeView,
)
    ensures
        decided(AuthenticatorView::AuthService(url), selection, outcome) matches Ok(ctx) ==> {
            &&& selection matches SelectionView::Valid(credential) && ctx.credential_binding
                == auth::binding(credential) && ctx.cookie_authenticated
                == credential.cookie_authenticated
            &&& outcome matches OutcomeView::Answered(status, Some(user)) && auth::is_success(
                status,
            ) && ctx.user_id == user.user_id && ctx.email == user.email && ctx.orgs == user.orgs
                && ctx.aal == user.aal
            &&& text::trimmed(ctx.user_id).len() > 0
            &&& ctx.orgs.len() > 0
        },
{
}

/// Where the auth service is down or broken, the answer is an outage, never admission.
pub proof fn law_outage_denies(url: Seq<char>, credential: CredentialView, status: int)
    requires
        !auth::is_success(status),
        status != 401,
        status != 403,
    ensures
        decided(
            AuthenticatorView::AuthService(url),
            SelectionView::Valid(credential),
            OutcomeView::Unreachable,
        ) == Err::<CustomerView, ReplyView>(reply::refusal(503, "auth_unreachable"@)),
        forall|identity: Option<auth::IdentityView>|
            #[trigger] decided(
                AuthenticatorView::AuthService(url),
                SelectionView::Valid(credential),
                OutcomeView::Answered(status, identity),
            ) == Err::<CustomerView, ReplyView>(reply::refusal(503, "auth_unavailable"@)),
{
}

/// An authorization header decides alone: cookies neither add to it nor replace it.
pub proof fn law_explicit_credential_wins(
    authorization: Seq<Option<Seq<char>>>,
    cookies: Seq<Seq<char>>,
    other_cookies: Seq<Seq<char>>,
)
    requires
        authorization.len() > 0,
    ensures
        auth::selection(authorization, cookies) == auth::selection(authorization, other_cookies),
        auth::selection(authorization, cookies) matches SelectionView::Valid(credential)
            ==> !credential.cookie_authenticated,
        !(auth::selection(authorization, cookies) is Missing),
{
}

/// A credential given twice is no credential, whatever its two values are.
pub proof fn law_repeated_credentials_are_invalid(
    authorization: Seq<Option<Seq<char>>>,
    cookies: Seq<Seq<char>>,
)
    ensures
        authorization.len() > 1 ==> auth::selection(authorization, cookies)
            == SelectionView::Invalid,
        cookies.len() > 1 ==> auth::selection(Seq::empty(), cookies) == SelectionView::Invalid,
{
}

/// Sessions with different credentials have different bindings: a request token made for one
/// is of no use with another, not even where the same token came by another way.
pub proof fn law_bindings_tell_credentials_apart(a: CredentialView, b: CredentialView)
    requires
        auth::binding(a) == auth::binding(b),
    ensures
        a == b,
{
    reveal_strlit("cookie\0");
    reveal_strlit("authorization\0");
    let x = auth::binding(a);
    let y = auth::binding(b);
    assert(a.cookie_authenticated ==> x[0] == 'c');
    assert(!a.cookie_authenticated ==> x[0] == 'a');
    assert(b.cookie_authenticated ==> y[0] == 'c');
    assert(!b.cookie_authenticated ==> y[0] == 'a');
    let n: int = if a.cookie_authenticated {
        7
    } else {
        14
    };
    assert(a.token =~= x.skip(n));
    assert(b.token =~= y.skip(n));
}

/// Of the sessions that the auth service vouches for, those of browsers are those whose
/// credential came in a cookie.
pub proof fn law_browser_sessions_come_by_cookie(
    url: Seq<char>,
    selection: SelectionView,
    outcome: OutcomeView,
)
    ensures
        decided(AuthenticatorView::AuthService(url), selection, outcome) matches Ok(ctx) ==> (
        auth::of_browser(ctx) <==> ctx.cookie_authenticated),
{
    reveal_strlit("cookie\0");
    reveal_strlit("authorization\0");
    reveal_strlit("development\0");
    match decided(AuthenticatorView::AuthService(url), selection, outcome) {
        Ok(ctx) => {
            let first = ctx.credential_binding[0];
            assert(first == 'c' || first == 'a');
            let d = "development\0"@;
            if d.is_prefix_of(ctx.credential_binding) {
                assert(ctx.credential_binding.subrange(0, d.len() as int)[0] == first);
                assert(false);
            }
        },
        Err(_) => {},
    }
}

/// A session for which the auth service names no assurance level counts as one of one factor.
pub proof fn law_unstated_assurance_is_single_factor(ctx: CustomerView)
    requires
        ctx.aal == "aal1"@,
    ensures
        !auth::two_factor(ctx),
{
    reveal_strlit("aal1");
    reveal_strlit("aal2");
    assert("aal1"@[3] != "aal2"@[3]);
}

/// A cookie of another name, such as that of another application on the same host, has no part
/// in who is calling.
pub proof fn law_other_cookies_do_not_count(
    before: Seq<Seq<char>>,
    other: Seq<char>,
    behind: Seq<Seq<char>>,
    name: Seq<char>,
)
    requires
        text::cut_once(text::trimmed(other), '=') matches Some((n, v)) ==> n != name,
    ensures
        auth::cookies_in(before + seq![other] + behind, name) == auth::cookies_in(
            before + behind,
            name,
        ),
    decreases behind.len(),
{
    let long = before + seq![other] + behind;
    let short = before + behind;
    if behind.len() == 0 {
        assert(long.drop_last() =~= before);
        assert(long.last() == other);
        assert(short =~= before);
    } else {
        let rest = behind.drop_last();
        assert(long.last() == behind.last());
        assert(short.last() == behind.last());
        assert(long.drop_last() =~= before + seq![other] + rest);
        assert(short.drop_last() =~= before + rest);
        law_other_cookies_do_not_count(before, other, rest, name);
    }
}

/// A bearer token is presented by one authorization header that is the word `Bearer`, a space
/// and the token, and by nothing else.
pub proof fn law_bearer_tokens_are_read_as_sent(
    token: Seq<char>,
    values: Seq<Option<Seq<char>>>,
)
    ensures
        token.len() > 0 ==> auth::bearer_of(seq![Some("Bearer "@ + token)]) == Some(token),
        auth::bearer_of(values) matches Some(t) ==> values == seq![Some("Bearer "@ + t)] && t.len()
            > 0,
{
    text_laws::law_prefixes_are_taken_off("Bearer "@, token, "Bearer "@ + token);
    if auth::bearer_of(values) is Some {
        text_laws::law_prefixes_are_taken_off("Bearer "@, token, values[0]->0);
        assert(values =~= seq![Some("Bearer "@ + auth::bearer_of(values)->0)]);
    }
}

/// A request with one session cookie that is not blank, and no authorization header, presents
/// that cookie; one with a bearer token presents the token; one with neither presents nothing.
pub proof fn law_one_credential_is_presented(
    token: Seq<char>,
    authorization: Seq<Option<Seq<char>>>,
    cookies: Seq<Seq<char>>,
)
    requires
        token.len() > 0,
    ensures
        auth::selection(Seq::empty(), seq![token]) == SelectionView::Valid(
            (CredentialView { token, cookie_authenticated: true }),
        ),
        auth::selection(seq![Some("Bearer "@ + token)], cookies) == SelectionView::Valid(
            (CredentialView { token, cookie_authenticated: false }),
        ),
        auth::selection(authorization, cookies) is Missing <==> authorization.len() == 0
            && cookies.len() == 0,
        auth::selection(authorization, cookies) matches SelectionView::Valid(c) ==> c.token.len()
            > 0 && (c.cookie_authenticated <==> authorization.len() == 0),
        auth::token_of(auth::selection(Seq::empty(), seq![token])) == Some(token),
        auth::token_of(SelectionView::Missing) is None,
        auth::token_of(SelectionView::Invalid) is None,
{
    law_bearer_tokens_are_read_as_sent(token, authorization);
}

/// A cookie is read from its pair, whatever the white space around the pair.
pub proof fn law_cookies_are_read_from_their_pair(
    l: Seq<char>,
    name: Seq<char>,
    value: Seq<char>,
    r: Seq<char>,
)
    requires
        text::all_white_space(l),
        text::all_white_space(r),
        name.len() > 0,
        !text::is_white_space(name[0]),
        !name.contains('='),
        text_laws::has_solid_ends(value),
    ensures
        auth::cookies_in(seq![l + (name + seq!['='] + value) + r], name) == seq![value],
{
    let pair = name + seq!['='] + value;
    let part = l + pair + r;
    assert(pair[0] == name[0]);
    assert(pair.last() == if value.len() > 0 {
        value.last()
    } else {
        '='
    });
    text_laws::law_trimming_takes_the_white_space_around(l, pair, r);
    text_laws::law_cuts_are_at_the_first(name, '=', value);
    text_laws::law_trimming_takes_the_white_space_around(Seq::empty(), value, Seq::empty());
    assert(Seq::<char>::empty() + value + Seq::<char>::empty() =~= value);
    assert(seq![part].drop_last() =~= Seq::<Seq<char>>::empty());
    assert(auth::cookies_in(seq![part].drop_last(), name) =~= Seq::<Seq<char>>::empty());
    assert(seq![part].last() == part);
    assert(auth::cookies_in(seq![part], name) =~= seq![value]);
}

/// The cookies of a request are those of its headers, one behind the other, and those of a
/// header are those of its parts between semicolons; a header that is no text has none.
pub proof fn law_cookies_add_up(
    front: Seq<Seq<char>>,
    back: Seq<Seq<char>>,
    headers: Seq<Option<Seq<char>>>,
    more: Seq<Option<Seq<char>>>,
    t: Seq<char>,
    name: Seq<char>,
)
    ensures
        auth::cookies_in(front + back, name) == auth::cookies_in(front, name) + auth::cookies_in(
            back,
            name,
        ),
        auth::cookies(headers + more, name) == auth::cookies(headers, name) + auth::cookies(
            more,
            name,
        ),
        auth::cookies(seq![Some(t)], name) == auth::cookies_in(text::pieces(t, ';'), name),
        auth::cookies(seq![None], name) == Seq::<Seq<char>>::empty(),
    decreases back.len() + more.len(),
{
    if back.len() > 0 {
        let rest = back.drop_last();
        assert((front + back).last() == back.last());
        assert((front + back).drop_last() =~= front + rest);
        law_cookies_add_up(front, rest, headers, Seq::empty(), t, name);
        assert(auth::cookies_in(front + back, name) =~= auth::cookies_in(front, name)
            + auth::cookies_in(back, name));
    } else {
        assert(front + back =~= front);
        assert(auth::cookies_in(front + back, name) =~= auth::cookies_in(front, name)
            + auth::cookies_in(back, name));
    }
    if more.len() > 0 {
        let rest = more.drop_last();
        assert((headers + more).last() == more.last());
        assert((headers + more).drop_last() =~= headers + rest);
        law_cookies_add_up(front, Seq::empty(), headers, rest, t, name);
        assert(auth::cookies(headers + more, name) =~= auth::cookies(headers, name)
            + auth::cookies(more, name));
    } else {
        assert(headers + more =~= headers);
        assert(auth::cookies(headers + more, name) =~= auth::cookies(headers, name)
            + auth::cookies(more, name));
    }
    let one: Seq<Option<Seq<char>>> = seq![Some(t)];
    let none: Seq<Option<Seq<char>>> = seq![None];
    assert(one.drop_last() =~= Seq::<Option<Seq<char>>>::empty());
    assert(none.drop_last() =~= Seq::<Option<Seq<char>>>::empty());
    assert(auth::cookies(one.drop_last(), name) =~= Seq::<Seq<char>>::empty());
    assert(one.last() == Some(t));
    assert(auth::cookies(one, name) =~= auth::cookies_in(text::pieces(t, ';'), name));
    assert(auth::cookies(none, name) =~= Seq::<Seq<char>>::empty());
}

/// Every value of a list is blank.
pub open spec fn all_blank(values: Seq<Seq<char>>) -> bool {
    forall|i: int| 0 <= i < values.len() ==> (#[trigger] values[i]).len() == 0
}

/// A cookie has the one value that is not blank, and none where all are blank.
pub proof fn law_a_cookie_has_its_filled_value(
    before: Seq<Seq<char>>,
    value: Seq<char>,
    behind: Seq<Seq<char>>,
)
    requires
        all_blank(before),
        all_blank(behind),
        value.len() > 0,
    ensures
        auth::sole_cookie(before + seq![value] + behind) == Some(value),
        auth::sole_cookie(before) is None,
{
    let keep = |v: Seq<char>| v.len() > 0;
    lemma_blanks_go(before);
    lemma_blanks_go(behind);
    Seq::filter_distributes_over_add(before + seq![value], behind, keep);
    Seq::filter_distributes_over_add(before, seq![value], keep);
    reveal(Seq::filter);
    assert(seq![value].drop_last() =~= Seq::<Seq<char>>::empty());
    assert(seq![value].drop_last().filter(keep) =~= Seq::<Seq<char>>::empty());
    assert(seq![value].filter(keep) =~= seq![value]);
    assert((before + seq![value] + behind).filter(keep) =~= seq![value]);
}

/// Two values that are not blank leave a cookie without one.
pub proof fn law_a_cookie_with_two_values_has_none(values: Seq<Seq<char>>, i: int, j: int)
    requires
        0 <= i < j < values.len(),
        values[i].len() > 0,
        values[j].len() > 0,
    ensures
        auth::sole_cookie(values) is None,
{
    lemma_two_kept(values, |v: Seq<char>| v.len() > 0, i, j);
}

/// A filter keeps two items that it admits.
proof fn lemma_two_kept(s: Seq<Seq<char>>, keep: spec_fn(Seq<char>) -> bool, i: int, j: int)
    requires
        0 <= i < j < s.len(),
        keep(s[i]),
        keep(s[j]),
    ensures
        s.filter(keep).len() >= 2,
    decreases s.len(),
{
    reveal(Seq::filter);
    let front = s.drop_last();
    if j == s.len() - 1 {
        lemma_one_kept(front, keep, i);
    } else {
        lemma_two_kept(front, keep, i, j);
    }
}

/// A filter keeps an item that it admits.
proof fn lemma_one_kept(s: Seq<Seq<char>>, keep: spec_fn(Seq<char>) -> bool, i: int)
    requires
        0 <= i < s.len(),
        keep(s[i]),
    ensures
        s.filter(keep).len() >= 1,
    decreases s.len(),
{
    reveal(Seq::filter);
    if i < s.len() - 1 {
        lemma_one_kept(s.drop_last(), keep, i);
    }
}

/// Nothing is kept of blank values.
proof fn lemma_blanks_go(values: Seq<Seq<char>>)
    requires
        all_blank(values),
    ensures
        values.filter(|v: Seq<char>| v.len() > 0) == Seq::<Seq<char>>::empty(),
    decreases values.len(),
{
    reveal(Seq::filter);
    if values.len() > 0 {
        let front = values.drop_last();
        assert(values[values.len() - 1].len() == 0);
        assert forall|i: int| 0 <= i < front.len() implies (#[trigger] front[i]).len() == 0 by {
            assert(front[i] == values[i]);
        }
        lemma_blanks_go(front);
    }
}

/// A deployment with the address of an auth service asks that service, at the address without
/// the slashes behind it; a blank address is none. The fixed session takes a debug build and
/// the one setting for it.
pub proof fn law_settings_choose_the_authenticator(
    debug_build: bool,
    static_auth: Option<Seq<char>>,
    url: Seq<char>,
    slashes: Seq<char>,
)
    requires
        text_laws::is_run(slashes, '/'),
        url.len() > 0 ==> url.last() != '/',
    ensures
        auth::configured(debug_build, static_auth, Some(url + slashes)) is Static <==> debug_build
            && static_auth == Some("1"@),
        !(debug_build && static_auth == Some("1"@)) ==> {
            &&& text::trimmed(url + slashes).len() > 0 ==> auth::configured(
                debug_build,
                static_auth,
                Some(url + slashes),
            ) == AuthenticatorView::AuthService(url)
            &&& text::trimmed(url + slashes).len() == 0 ==> auth::configured(
                debug_build,
                static_auth,
                Some(url + slashes),
            ) == AuthenticatorView::Deny
            &&& auth::configured(debug_build, static_auth, None) == AuthenticatorView::Deny
        },
{
    text_laws::law_runs_are_dropped(url, slashes, '/');
}

/// The auth service is asked at its own address with the credential that was presented; the
/// fixed session is let in whatever is presented.
pub proof fn law_the_presented_credential_is_asked_about(
    url: Seq<char>,
    credential: CredentialView,
    ctx: CustomerView,
    selection: SelectionView,
)
    ensures
        auth::first_step(AuthenticatorView::AuthService(url), SelectionView::Valid(credential)) == (
        AuthStepView::Verify { url: url + "/v1/me"@, credential }),
        auth::first_step(AuthenticatorView::Static(ctx), selection) == AuthStepView::Settled(
            Ok(ctx),
        ),
        auth::first_step(AuthenticatorView::AuthService(url), selection) is Verify
            <==> selection is Valid,
{
}

/// A session that the auth service vouches for, with a success, a user who is named and at
/// least one organisation, is let in as it was described, whatever its assurance level.
pub proof fn law_vouched_sessions_are_let_in(
    credential: CredentialView,
    status: int,
    user: auth::IdentityView,
)
    requires
        200 <= status <= 299,
        text::trimmed(user.user_id).len() > 0,
        user.orgs.len() > 0,
    ensures
        auth::verdict(credential, OutcomeView::Answered(status, Some(user))) matches Ok(ctx) && {
            &&& ctx.user_id == user.user_id
            &&& ctx.email == user.email
            &&& ctx.orgs == user.orgs
            &&& ctx.aal == user.aal
            &&& ctx.cookie_authenticated == credential.cookie_authenticated
            &&& ctx.credential_binding == if credential.cookie_authenticated {
                "cookie\0"@ + credential.token
            } else {
                "authorization\0"@ + credential.token
            }
        },
{
}

/// Every refusal tells why: each cause has a status and a code of its own.
pub proof fn law_refused_callers_are_told_why(
    url: Seq<char>,
    credential: CredentialView,
    status: int,
    identity: Option<auth::IdentityView>,
    user: auth::IdentityView,
    selection: SelectionView,
)
    ensures
        auth::first_step(AuthenticatorView::Deny, selection) matches AuthStepView::Settled(Err(r))
            && answer_laws::refuses(r, 503, "customer_auth_not_configured"@),
        auth::first_step(
            AuthenticatorView::AuthService(url),
            SelectionView::Missing,
        ) matches AuthStepView::Settled(Err(r)) && answer_laws::refuses(
            r,
            401,
            "missing_customer_session"@,
        ),
        auth::first_step(
            AuthenticatorView::AuthService(url),
            SelectionView::Invalid,
        ) matches AuthStepView::Settled(Err(r)) && answer_laws::refuses(
            r,
            401,
            "invalid_customer_session"@,
        ),
        auth::verdict(credential, OutcomeView::Unreachable) matches Err(r) && answer_laws::refuses(
            r,
            503,
            "auth_unreachable"@,
        ),
        status == 401 || status == 403 ==> (auth::verdict(
            credential,
            OutcomeView::Answered(status, identity),
        ) matches Err(r) && answer_laws::refuses(r, 401, "invalid_or_expired_session"@)),
        (status < 200 || status > 299) && status != 401 && status != 403 ==> (auth::verdict(
            credential,
            OutcomeView::Answered(status, identity),
        ) matches Err(r) && answer_laws::refuses(r, 503, "auth_unavailable"@)),
        200 <= status <= 299 ==> (auth::verdict(
            credential,
            OutcomeView::Answered(status, None),
        ) matches Err(r) && answer_laws::refuses(r, 502, "auth_bad_response"@)),
        200 <= status <= 299 && text::trimmed(user.user_id).len() == 0 ==> (auth::verdict(
            credential,
            OutcomeView::Answered(status, Some(user)),
        ) matches Err(r) && answer_laws::refuses(r, 502, "auth_bad_response"@)),
        200 <= status <= 299 && text::trimmed(user.user_id).len() > 0 && user.orgs.len() == 0 ==> (
        auth::verdict(credential, OutcomeView::Answered(status, Some(user))) matches Err(r)
            && answer_laws::refuses(r, 403, "no_org_membership"@)),
{
    answer_laws::law_refusals_tell_their_code(503, "customer_auth_not_configured"@);
    answer_laws::law_refusals_tell_their_code(401, "missing_customer_session"@);
    answer_laws::law_refusals_tell_their_code(401, "invalid_customer_session"@);
    answer_laws::law_refusals_tell_their_code(503, "auth_unreachable"@);
    answer_laws::law_refusals_tell_their_code(401, "invalid_or_expired_session"@);
    answer_laws::law_refusals_tell_their_code(503, "auth_unavailable"@);
    answer_laws::law_refusals_tell_their_code(502, "auth_bad_response"@);
    answer_laws::law_refusals_tell_their_code(403, "no_org_membership"@);
}

/// A session is of two factors where its level says so in these words, and of a browser where
/// its credential came in a cookie or it is the development server's.
pub proof fn law_sessions_are_what_they_say(ctx: CustomerView, rest: Seq<char>)
    ensures
        auth::two_factor(ctx) <==> ctx.aal == "aal2"@,
        ctx.cookie_authenticated ==> auth::of_browser(ctx),
        ctx.credential_binding == "development\0"@ + rest ==> auth::of_browser(ctx),
        auth::of_browser(ctx) && !ctx.cookie_authenticated ==> exists|t: Seq<char>|
            ctx.credential_binding == #[trigger] ("development\0"@ + t),
{
    let d = "development\0"@;
    let b = ctx.credential_binding;
    text_laws::law_prefixes_are_taken_off(d, rest, b);
    if d.is_prefix_of(b) {
        assert(b =~= d + b.skip(d.len() as int));
    }
    if b == d + rest {
        assert(b.subrange(0, d.len() as int) =~= d);
    }
}

/// What the auth service says of the user is its member of that name, and null without one.
pub proof fn law_the_user_is_the_member_of_that_name(body: crate::json::JsonNodes)
    ensures
        crate::json::member(body, "user"@) matches Some(user) ==> auth::user_nodes(body) == user,
        crate::json::member(body, "user"@) is None ==> crate::json::is_null(auth::user_nodes(body)),
{
}

/// The fixed session of a development server has one user with one organisation; it is as strong
/// as two factors and held to what a browser's is. The cookies of a release build are bound to
/// their host.
pub proof fn law_the_fixed_session_is_a_strong_one()
    ensures
        ({
            let ctx = auth::development_session();
            &&& ctx.user_id == "fiducia-e2e-customer"@
            &&& ctx.email == Some("customer-e2e@fiducia.invalid"@)
            &&& ctx.orgs == seq!["00000000-0000-4000-8000-000000000001"@]
            &&& ctx.aal == "aal2"@
            &&& auth::two_factor(ctx)
            &&& auth::of_browser(ctx)
            &&& !ctx.cookie_authenticated
            &&& ctx.credential_binding == "development\0fiducia-e2e-customer"@
        }),
        auth::configured(true, Some("1"@), None) == AuthenticatorView::Static(
            auth::development_session(),
        ),
        auth::CUSTOMER_SESSION_COOKIE@ == "__Host-fiducia_customer_session"@,
        auth::CUSTOMER_LOGIN_CSRF_COOKIE@ == "__Host-fiducia_customer_login_csrf"@,
        auth::DEBUG_SESSION_COOKIE@ == "fiducia_customer_session"@,
        auth::DEBUG_LOGIN_CSRF_COOKIE@ == "fiducia_customer_login_csrf"@,
{
    reveal_strlit("development\0");
    reveal_strlit("development\0fiducia-e2e-customer");
    assert("development\0"@ =~= "development\0fiducia-e2e-customer"@.subrange(0, 12));
}

/// White space between a cookie's name and its value belongs to neither.
pub proof fn law_white_space_before_a_cookie_value_is_dropped(
    name: Seq<char>,
    gap: Seq<char>,
    value: Seq<char>,
)
    requires
        text::all_white_space(gap),
        name.len() > 0,
        !text::is_white_space(name[0]),
        !name.contains('='),
        value.len() > 0,
        text_laws::has_solid_ends(value),
    ensures
        auth::cookies_in(seq![name + seq!['='] + (gap + value)], name) == seq![value],
{
    let rest = gap + value;
    let pair = name + seq!['='] + rest;
    let empty = Seq::<char>::empty();
    assert(pair[0] == name[0]);
    assert(pair.last() == value.last());
    text_laws::law_trimming_takes_the_white_space_around(empty, pair, empty);
    assert(empty + pair + empty =~= pair);
    text_laws::law_cuts_are_at_the_first(name, '=', rest);
    text_laws::law_trimming_takes_the_white_space_around(gap, value, empty);
    assert(gap + value + empty =~= rest);
    assert(seq![pair].drop_last() =~= Seq::<Seq<char>>::empty());
    assert(auth::cookies_in(seq![pair].drop_last(), name) =~= Seq::<Seq<char>>::empty());
    assert(seq![pair].last() == pair);
    assert(auth::cookies_in(seq![pair], name) =~= seq![value]);
}

} // verus!
