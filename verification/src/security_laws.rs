//! What the checks of requests guarantee.

use axum::http::HeaderMap;
use vstd::prelude::*;
use vstd::string::*;

use crate::answer_laws;
use crate::auth;
use crate::auth::CustomerView;
use crate::headers;
use crate::reply;
use crate::reply::ReplyView;
use crate::security;
use crate::security::{AssuranceView, Guard, LoginRetryView, OriginCheck};
use crate::supabase_auth;
use crate::supabase_auth::{ErrorView, FactorView};
use crate::supabase_laws;

verus! {

/// A change by way of a page, and the web socket, are accepted from pages of this origin only.
pub proof fn law_changes_come_from_this_origin(path: Seq<char>, method: Seq<char>)
    requires
        !security::is_read(method),
    ensures
        security::is_browser_path(path) ==> security::origin_check(path, method)
            == OriginCheck::SameOrigin,
        security::origin_check(security::CUSTOMER_WS_PATH@, "GET"@) == OriginCheck::SameOrigin,
{
}

/// Whatever a session is asked for is kept out of caches and, but for the root page, is checked
/// for where it comes from.
pub proof fn law_protected_paths_are_checked_and_never_cached(
    path: Seq<char>,
    method: Seq<char>,
    serves_app: bool,
)
    requires
        security::is_guarded(path, method, serves_app),
    ensures
        path != "/"@ ==> security::origin_check(path, method) != OriginCheck::Nothing,
        security::is_sensitive(path, serves_app),
{
}

/// Every path of the portal and of the customer interface asks for a session, but for changes
/// to a table that takes none.
pub proof fn law_customer_paths_are_guarded(path: Seq<char>, method: Seq<char>, serves_app: bool)
    requires
        "/app"@.is_prefix_of(path) || (security::is_api_path(path)
            && !"/api/customer/sync/"@.is_prefix_of(path)) || (security::is_api_path(path)
            && security::is_read(method)),
    ensures
        security::guard_of(path, method, serves_app) != Guard::Open,
{
    reveal_strlit("/app");
    reveal_strlit("/api/customer/sync/");
    if "/app"@.is_prefix_of(path) && "/api/customer/sync/"@.is_prefix_of(path) {
        assert(path.subrange(0, 4)[2] == path[2]);
        assert(path.subrange(0, "/api/customer/sync/"@.len() as int)[3] == path[3]);
        assert(path.subrange(0, 4)[3] == path[3]);
        assert("/app"@[3] != "/api/customer/sync/"@[3]);
        assert(false);
    }
}

/// The login and the logout stay open to everyone: a session that is too weak can be raised
/// there, or be dropped.
pub proof fn law_login_and_logout_stay_open(path: Seq<char>, method: Seq<char>, serves_app: bool)
    requires
        "/login"@.is_prefix_of(path) || path == "/logout"@,
    ensures
        security::guard_of(path, method, serves_app) == Guard::Open,
{
    reveal_strlit("/app");
    reveal_strlit("/api/customer");
    reveal_strlit("/login");
    reveal_strlit("/logout");
    reveal_strlit("/");
    if "/login"@.is_prefix_of(path) {
        assert(path.subrange(0, 6)[1] == path[1]);
    }
    assert(path[1] == 'l');
    if "/app"@.is_prefix_of(path) {
        assert(path.subrange(0, 4)[1] == path[1]);
    }
    if "/api/customer"@.is_prefix_of(path) {
        assert(path.subrange(0, 13)[1] == path[1]);
    }
}

/// A refusal is never turned into anything but itself or the way to the login page, and on the
/// customer interface it stays itself.
pub proof fn law_guards_never_admit_the_refused(guard: Guard, refused: ReplyView)
    ensures
        security::guarded_reply(guard, refused) == refused || security::guarded_reply(guard, refused)
            == reply::redirect_reply("/login"@),
        guard != Guard::GuardedPage ==> security::guarded_reply(guard, refused) == refused,
        refused.status != 401 ==> security::guarded_reply(guard, refused) == refused,
{
}

/// A session of one factor is never enough for a customer who has finished enrolling a second,
/// nor where that cannot be found out.
pub proof fn law_second_factors_are_required(
    ctx: CustomerView,
    token: Option<Seq<char>>,
    provider: bool,
    factors: Option<Seq<FactorView>>,
)
    requires
        !auth::two_factor(ctx),
        factors matches Some(list) ==> supabase_auth::first_verified(list) is Some,
    ensures
        !(security::assurance_step(ctx, token, provider) is Admit),
        security::factor_fault(factors) is Some,
{
}

/// A session of two factors is enough for everyone.
pub proof fn law_two_factors_suffice(ctx: CustomerView, token: Option<Seq<char>>, provider: bool)
    requires
        auth::two_factor(ctx),
    ensures
        security::assurance_step(ctx, token, provider) == AssuranceView::Admit,
{
}

/// A change in a browser's session needs both the right origin and the token of the session;
/// a form needs them in any session.
pub proof fn law_browser_changes_need_origin_and_token(
    same_origin: Option<Seq<char>>,
    csrf: Option<Seq<char>>,
    host: Option<Seq<char>>,
)
    ensures
        security::write_fault(true, same_origin, csrf, host) is None ==> same_origin is None
            && csrf is None,
        security::form_fault(same_origin, csrf) is None ==> same_origin is None && csrf is None,
        security::write_fault(false, same_origin, csrf, host) == host,
{
}

/// A login that failed is never shown with the status of a success, and one that the identity
/// provider refused is always shown as unauthorised.
pub proof fn law_failed_logins_look_failed(error: ErrorView)
    ensures
        security::login_retry(error) matches LoginRetryView::Page(status) ==> status >= 400,
        error is Rejected ==> security::login_retry(error) == LoginRetryView::Page(401),
{
}

/// Where a change comes from is held to this origin on the login, the logout and the portal;
/// reads there, and everything on the customer interface, are held to the hosts of this service;
/// nothing is asked anywhere else, whatever the method.
pub proof fn law_origins_are_asked_about_by_path(path: Seq<char>, method: Seq<char>)
    ensures
        ({
            let browser = "/login"@.is_prefix_of(path) || path == "/logout"@
                || "/app"@.is_prefix_of(path);
            let api = "/api/customer"@.is_prefix_of(path);
            let read = method == "GET"@ || method == "HEAD"@;
            let check = security::origin_check(path, method);
            &&& check == OriginCheck::Nothing <==> !browser && !api
            &&& browser && !read ==> check == OriginCheck::SameOrigin
            &&& browser && read && path != "/app/ws"@ ==> check == OriginCheck::ApiHost
            &&& api && !browser ==> check == OriginCheck::ApiHost
        }),
        security::origin_check("/app/ws"@, method) == OriginCheck::SameOrigin,
{
    reveal_strlit("/app");
    reveal_strlit("/app/ws");
    assert("/app"@ =~= "/app/ws"@.take(4));
    assert("/app"@.is_prefix_of("/app/ws"@));
}

/// Which paths ask for a session: the portal, the customer interface, and the root page where it
/// is the portal; but a change under the tables of the interface is let through, to be told that
/// it is not taken. Without a session, pages lead to the login and the interface refuses.
pub proof fn law_guards_are_by_path(path: Seq<char>, method: Seq<char>, serves_app: bool)
    ensures
        ({
            let page = "/app"@.is_prefix_of(path) || (path == "/"@ && serves_app);
            let api = "/api/customer"@.is_prefix_of(path);
            let untaken = "/api/customer/sync/"@.is_prefix_of(path) && method != "GET"@ && method
                != "HEAD"@;
            let guard = security::guard_of(path, method, serves_app);
            &&& page ==> guard == Guard::GuardedPage
            &&& api && !untaken ==> guard == Guard::Guarded
            &&& untaken || (!page && !api) ==> guard == Guard::Open
        }),
{
    reveal_strlit("/app");
    reveal_strlit("/");
    reveal_strlit("/api/customer");
    reveal_strlit("/api/customer/sync/");
    assert("/api/customer"@ =~= "/api/customer/sync/"@.take(13));
    if "/api/customer/sync/"@.is_prefix_of(path) {
        assert(path.subrange(0, 19)[3] == path[3]);
    }
    if "/api/customer"@.is_prefix_of(path) {
        assert(path.subrange(0, 13)[3] == path[3]);
    }
    if "/app"@.is_prefix_of(path) {
        assert(path.subrange(0, 4)[3] == path[3]);
    }
}

/// On a page, a refusal for want of a session is the way to the login; no other refusal is
/// changed, and none on the interface.
pub proof fn law_pages_lead_to_the_login(refused: ReplyView)
    ensures
        refused.status == 401 ==> ({
            let r = security::guarded_reply(Guard::GuardedPage, refused);
            &&& r.status == 303
            &&& r.location == Some("/login"@)
        }),
        refused.status != 401 ==> security::guarded_reply(Guard::GuardedPage, refused) == refused,
        security::guarded_reply(Guard::Guarded, refused) == refused,
        security::guarded_reply(Guard::Open, refused) == refused,
{
}

/// A session of one factor is refused for its factors exactly where they could not be listed or
/// one of them is an authenticator app that its user has finished enrolling; a customer without
/// such a factor, and one without any, is let in.
pub proof fn law_one_factor_suffices_unless_a_second_is_enrolled(factors: Seq<FactorView>)
    ensures
        security::factor_fault(Some(factors)) is Some <==> exists|i: int|
            0 <= i < factors.len() && (#[trigger] factors[i]).factor_type == Some("totp"@)
                && factors[i].status == Some("verified"@),
        security::factor_fault(Some(factors)) matches Some(refused) ==> answer_laws::refuses(
            refused,
            401,
            "mfa_step_up_required"@,
        ),
        security::factor_fault(None) matches Some(refused) && answer_laws::reports_outage(
            refused,
            "supabase"@,
            "mfa_state_unavailable"@,
        ),
        factors.len() == 0 ==> security::factor_fault(Some(factors)) is None,
{
    supabase_laws::law_step_up_exactly_for_verified(factors);
    answer_laws::law_refusals_tell_their_code(401, "mfa_step_up_required"@);
    answer_laws::law_outages_tell_their_dependency("supabase"@, "mfa_state_unavailable"@);
    if exists|i: int|
        0 <= i < factors.len() && (#[trigger] factors[i]).factor_type == Some("totp"@)
            && factors[i].status == Some("verified"@) {
        let i = choose|i: int|
            0 <= i < factors.len() && (#[trigger] factors[i]).factor_type == Some("totp"@)
                && factors[i].status == Some("verified"@);
        assert(supabase_auth::verified_totp(factors[i]));
    }
    if security::factor_fault(Some(factors)) is Some {
        let i = choose|i: int|
            0 <= i < factors.len() && supabase_auth::verified_totp(#[trigger] factors[i]);
        assert(factors[i].factor_type == Some("totp"@));
    }
}

/// Factors that ask for no second one, put together, ask for none; a list asks for one as soon
/// as a part of it does.
pub proof fn law_factors_are_judged_one_by_one(a: Seq<FactorView>, b: Seq<FactorView>)
    ensures
        security::factor_fault(Some(a + b)) is None <==> security::factor_fault(Some(a)) is None
            && security::factor_fault(Some(b)) is None,
{
    supabase_laws::law_step_up_exactly_for_verified(a);
    supabase_laws::law_step_up_exactly_for_verified(b);
    supabase_laws::law_step_up_exactly_for_verified(a + b);
    let ab = a + b;
    if supabase_auth::first_verified(a) is Some {
        let i = choose|i: int| 0 <= i < a.len() && supabase_auth::verified_totp(#[trigger] a[i]);
        assert(ab[i] == a[i]);
    }
    if supabase_auth::first_verified(b) is Some {
        let i = choose|i: int| 0 <= i < b.len() && supabase_auth::verified_totp(#[trigger] b[i]);
        assert(ab[a.len() + i] == b[i]);
    }
    if supabase_auth::first_verified(ab) is Some {
        let i = choose|i: int| 0 <= i < ab.len() && supabase_auth::verified_totp(#[trigger] ab[i]);
        if i < a.len() {
            assert(ab[i] == a[i]);
        } else {
            assert(ab[i] == b[i - a.len()]);
        }
    }
}

/// A session of one factor leads to a look at its customer's factors, with the token that it
/// came with; without a token it is refused, and without an identity provider that is told.
pub proof fn law_weak_sessions_are_looked_into(ctx: CustomerView, token: Seq<char>, provider: bool)
    requires
        ctx.aal != "aal2"@,
    ensures
        security::assurance_step(ctx, Some(token), true) == AssuranceView::ListFactors(token),
        security::assurance_step(ctx, Some(token), false) matches AssuranceView::Refuse(refused)
            && answer_laws::reports_outage(refused, "supabase"@, "mfa_state_unavailable"@),
        security::assurance_step(ctx, None, provider) matches AssuranceView::Refuse(refused)
            && answer_laws::refuses(refused, 401, "missing_customer_session"@),
{
    answer_laws::law_refusals_tell_their_code(401, "missing_customer_session"@);
    answer_laws::law_outages_tell_their_dependency("supabase"@, "mfa_state_unavailable"@);
}

/// A form passes exactly where both its checks do, and a change by way of the interface exactly
/// where the checks for its kind of session do; otherwise the first check that failed gives the
/// reason. What passes goes on unchanged, and what does not is rejected with that reason.
pub proof fn law_checks_give_the_first_reason(
    same_origin: Option<Seq<char>>,
    csrf: Option<Seq<char>>,
    host: Option<Seq<char>>,
    reason: Seq<char>,
    action: Result<int, ReplyView>,
)
    ensures
        security::form_fault(same_origin, csrf) is None <==> same_origin is None && csrf is None,
        security::form_fault(Some(reason), csrf) == Some(reason),
        security::form_fault(None, Some(reason)) == Some(reason),
        security::write_fault(true, same_origin, csrf, host) is None <==> same_origin is None
            && csrf is None,
        security::write_fault(true, Some(reason), csrf, host) == Some(reason),
        security::write_fault(true, None, Some(reason), host) == Some(reason),
        security::write_fault(false, same_origin, csrf, None) is None,
        security::write_fault(false, same_origin, csrf, Some(reason)) == Some(reason),
        security::cleared(None, action) == action,
        security::cleared(Some(reason), action) == Err::<int, ReplyView>(
            security::rejection(reason),
        ),
{
}

/// The request token is what its header says, letter for letter, and empty without a readable
/// one.
pub proof fn law_request_tokens_are_read_from_their_header(headers: HeaderMap)
    ensures
        match headers::first_value(headers, "x-fiducia-csrf"@) {
            Some(bytes) => match headers::readable(bytes) {
                Some(token) => security::header_token(headers) == token,
                None => security::header_token(headers).len() == 0,
            },
            None => security::header_token(headers).len() == 0,
        },
{
}

/// A login page is shown again for what the user can mend, with a status that says what it was,
/// and an outage of the identity provider is told as one.
pub proof fn law_failed_logins_tell_what_failed(detail: Seq<char>)
    ensures
        security::login_retry(ErrorView::Invalid(detail)) == LoginRetryView::Page(400),
        security::login_retry(ErrorView::Rejected(detail)) == LoginRetryView::Page(401),
        security::login_retry(ErrorView::Unavailable(detail)) matches LoginRetryView::Refuse(r)
            && answer_laws::reports_outage(r, "supabase"@, "supabase_auth_unavailable"@),
{
    answer_laws::law_outages_tell_their_dependency("supabase"@, "supabase_auth_unavailable"@);
}

/// The answers kept out of caches are those of the login, the logout, the portal and the customer
/// interface, and of the root page where it is the portal: those and no others.
pub proof fn law_sensitive_answers_are_by_path(path: Seq<char>, serves_app: bool)
    ensures
        security::is_sensitive(path, serves_app) <==> {
            ||| path == "/"@ && serves_app
            ||| path == "/logout"@
            ||| "/login"@.is_prefix_of(path)
            ||| "/app"@.is_prefix_of(path)
            ||| "/api/customer"@.is_prefix_of(path)
        },
{
}

/// A sensitive answer has the four protecting headers, each with one value, in place of its own;
/// every other header stays as it was.
pub proof fn law_sensitive_answers_are_protected(
    contents: Map<Seq<char>, Seq<Seq<u8>>>,
    name: Seq<char>,
)
    ensures
        ({
            let after = security::sensitive_headers(contents);
            &&& after.contains_key("cache-control"@) && after["cache-control"@] == seq![
                headers::ascii_bytes("no-store"@),
            ]
            &&& after.contains_key("pragma"@) && after["pragma"@] == seq![
                headers::ascii_bytes("no-cache"@),
            ]
            &&& after.contains_key("content-security-policy"@) && after["content-security-policy"@] == seq![
                headers::ascii_bytes("default-src 'self'; frame-ancestors 'none'; base-uri 'none'; form-action 'self'; object-src 'none'; connect-src 'self'; img-src 'self' data:; style-src 'self' 'sha256-faU7yAF8NxuMTNEwVmBz+VcYeIoBQ2EMHW3WaVxCvnk='"@),
            ]
            &&& after.contains_key("referrer-policy"@) && after["referrer-policy"@] == seq![
                headers::ascii_bytes("same-origin"@),
            ]
            &&& name != "cache-control"@ && name != "pragma"@ && name != "content-security-policy"@ && name != "referrer-policy"@ ==> (after.contains_key(name)
                <==> contents.contains_key(name)) && (contents.contains_key(name) ==> after[name]
                == contents[name])
        }),
{
    reveal_with_fuel(security::hardened, 5);
    reveal_strlit("cache-control");
    reveal_strlit("pragma");
    reveal_strlit("content-security-policy");
    reveal_strlit("referrer-policy");
    assert("cache-control"@.len() == 13);
    assert("pragma"@.len() == 6);
    assert("content-security-policy"@.len() == 23);
    assert("referrer-policy"@.len() == 15);
}

} // verus!
