//! The checks that requests pass before anything else is done with them.
//!
//! Where a request comes from is judged first, by its path and method. Then, on everything that
//! belongs to a customer, the session must be as strong as the customer's own factors allow.
//! Answers with anything of a customer's in them are kept out of caches.

use axum::http::HeaderMap;
use vstd::prelude::*;
use vstd::string::*;

use crate::auth::{CustomerCtx, CustomerView};
use crate::auth;
use crate::headers;
use crate::json;
use crate::json::JsonObject;
use crate::reply;
use crate::reply::{Reply, ReplyView};
use crate::supabase_auth;
use crate::supabase_auth::{ErrorView, Factor, FactorView, SupabaseAuthError};
use crate::supabase_laws;
use crate::text;

verus! {

/// The path of the portal's web socket.
pub const CUSTOMER_WS_PATH: &'static str = "/app/ws";

/// The path of the portal's event stream.
pub const CUSTOMER_EVENTS_PATH: &'static str = "/app/events";

/// The name of the identity provider in reports of its failures.
pub const IDENTITY_PROVIDER: &'static str = "supabase";

// Where a request comes from.

/// What is asked about where a request comes from.
#[derive(Clone, Copy, Debug, PartialEq, Eq, Structural)]
pub enum OriginCheck {
    /// It must come from a page of this very origin.
    SameOrigin,
    /// It must be sent to a host that this service goes by.
    ApiHost,
    /// Nothing.
    Nothing,
}

/// A method that changes nothing.
pub open spec fn is_read(method: Seq<char>) -> bool {
    method == "GET"@ || method == "HEAD"@
}

/// Whether a method changes nothing.
fn reads(method: &str) -> (r: bool)
    ensures
        r == is_read(method@),
{
    text::same(method, "GET") || text::same(method, "HEAD")
}

/// A path that browsers go to.
pub open spec fn is_browser_path(path: Seq<char>) -> bool {
    "/login"@.is_prefix_of(path) || path == "/logout"@ || "/app"@.is_prefix_of(path)
}

/// A path of the customer interface.
pub open spec fn is_api_path(path: Seq<char>) -> bool {
    "/api/customer"@.is_prefix_of(path)
}

/// What is asked about where a request comes from. A change that a browser can make, and the
/// web socket, must come from a page of this origin.
pub open spec fn origin_check(path: Seq<char>, method: Seq<char>) -> OriginCheck {
    if path == CUSTOMER_WS_PATH@ || (is_browser_path(path) && !is_read(method)) {
        OriginCheck::SameOrigin
    } else if is_browser_path(path) || is_api_path(path) {
        OriginCheck::ApiHost
    } else {
        OriginCheck::Nothing
    }
}

/// Whether browsers go to a path.
fn for_browsers(path: &str) -> (r: bool)
    ensures
        r == is_browser_path(path@),
{
    text::starts_with(path, "/login") || text::same(path, "/logout") || text::starts_with(
        path,
        "/app",
    )
}

/// What is asked about where a request comes from.
pub fn request_security_gate(path: &str, method: &str) -> (r: OriginCheck)
    ensures
        r == origin_check(path@, method@),
{
    let browser_surface = for_browsers(path);
    let customer_api = text::starts_with(path, "/api/customer");
    if text::same(path, CUSTOMER_WS_PATH) || (browser_surface && !reads(method)) {
        OriginCheck::SameOrigin
    } else if browser_surface || customer_api {
        OriginCheck::ApiHost
    } else {
        OriginCheck::Nothing
    }
}

/// The answer to a request that comes from the wrong place, or without its token.
pub open spec fn rejection(reason: Seq<char>) -> ReplyView {
    reply::json_reply(
        403,
        json::object_nodes(
            reply::refusal_members("customer_request_rejected"@).insert(
                "reason"@,
                json::text_nodes(reason),
            ),
        ),
    )
}

/// The answer to a request that comes from the wrong place, or without its token.
pub fn request_security_error(reason: &str) -> (r: Reply)
    ensures
        r@ == rejection(reason@),
{
    reply::json_answer(
        403,
        JsonObject::new()
            .with("ok", json::flag(false))
            .with("error", json::string("customer_request_rejected"))
            .with("reason", json::string(reason))
            .finish(),
    )
}

/// What a check says, as a mathematical value: where it fails, the reason.
pub open spec fn check_view(r: Result<(), String>) -> Option<Seq<char>> {
    match r {
        Ok(_) => None,
        Err(reason) => Some(reason@),
    }
}

/// What is done where the checks of a request let it pass.
pub open spec fn cleared<T>(fault: Option<Seq<char>>, action: Result<T, ReplyView>) -> Result<
    T,
    ReplyView,
> {
    match fault {
        Some(reason) => Err(rejection(reason)),
        None => action,
    }
}

/// The answer to a request that its checks do not let pass.
pub fn require_clearance(check: Result<(), String>) -> (r: Result<(), Reply>)
    ensures
        match r {
            Ok(_) => check_view(check) is None,
            Err(refused) => check_view(check) matches Some(reason) && refused@ == rejection(reason),
        },
{
    match check {
        Ok(_) => Ok(()),
        Err(reason) => Err(request_security_error(reason.as_str())),
    }
}

/// The reason to turn away a form: it must come from a page of this origin, with the token of
/// the session.
pub open spec fn form_fault(same_origin: Option<Seq<char>>, csrf: Option<Seq<char>>) -> Option<
    Seq<char>,
> {
    match same_origin {
        Some(reason) => Some(reason),
        None => csrf,
    }
}

/// Whether a form may be acted on, given what the checks of its origin and its token say.
pub fn require_form_security(same_origin: Result<(), String>, csrf: Result<(), String>) -> (r:
    Result<(), String>)
    ensures
        check_view(r) == form_fault(check_view(same_origin), check_view(csrf)),
{
    match same_origin {
        Err(reason) => Err(reason),
        Ok(_) => csrf,
    }
}

/// The reason to turn away a change by way of the interface. That of a browser's session is
/// held to what is asked of a form; any other must be sent to a host of this service.
pub open spec fn write_fault(
    browser: bool,
    same_origin: Option<Seq<char>>,
    csrf: Option<Seq<char>>,
    host: Option<Seq<char>>,
) -> Option<Seq<char>> {
    if browser {
        form_fault(same_origin, csrf)
    } else {
        host
    }
}

/// Whether a change by way of the interface may be made.
pub fn require_api_write_security(
    customer: &CustomerCtx,
    same_origin: Result<(), String>,
    csrf: Result<(), String>,
    host: Result<(), String>,
) -> (r: Result<(), String>)
    ensures
        check_view(r) == write_fault(
            auth::of_browser(customer@),
            check_view(same_origin),
            check_view(csrf),
            check_view(host),
        ),
{
    if customer.is_browser_session() {
        require_form_security(same_origin, csrf)
    } else {
        host
    }
}

/// The request token in a header; without one, an empty text.
pub open spec fn header_token(headers: HeaderMap) -> Seq<char> {
    match headers::first_value(headers, headers::CUSTOMER_CSRF_HEADER@) {
        Some(bytes) => match headers::readable(bytes) {
            Some(token) => token,
            None => Seq::empty(),
        },
        None => Seq::empty(),
    }
}

/// The request token in a header.
pub fn provided_csrf(headers: &HeaderMap) -> (r: String)
    ensures
        r@ == header_token(*headers),
{
    proof {
        reveal_strlit("x-fiducia-csrf");
    }
    match headers::get_text(headers, headers::CUSTOMER_CSRF_HEADER) {
        Some(token) => token,
        None => String::new(),
    }
}

// How strong a session must be.

/// Whether a path belongs to customers, where `serves_app` says whether the host's root page
/// is the portal.
pub open spec fn is_protected(path: Seq<char>, serves_app: bool) -> bool {
    "/app"@.is_prefix_of(path) || is_api_path(path) || (path == "/"@ && serves_app)
}

/// Whether a session is asked for. Where a path takes no changes, a change goes on to be told
/// so.
pub open spec fn is_guarded(path: Seq<char>, method: Seq<char>, serves_app: bool) -> bool {
    is_protected(path, serves_app) && !("/api/customer/sync/"@.is_prefix_of(path) && !is_read(
        method,
    ))
}

/// Whether a caller without a session is sent to the login page.
pub open spec fn is_page(path: Seq<char>, serves_app: bool) -> bool {
    "/app"@.is_prefix_of(path) || (path == "/"@ && serves_app)
}

/// How a request is guarded.
#[derive(Clone, Copy, Debug, PartialEq, Eq, Structural)]
pub enum Guard {
    /// It lets it pass.
    Open,
    /// It asks for a session, and without one sends the caller to the login page.
    GuardedPage,
    /// It asks for a session, and without one refuses.
    Guarded,
}

/// How a request is guarded.
pub open spec fn guard_of(path: Seq<char>, method: Seq<char>, serves_app: bool) -> Guard {
    if !is_guarded(path, method, serves_app) {
        Guard::Open
    } else if is_page(path, serves_app) {
        Guard::GuardedPage
    } else {
        Guard::Guarded
    }
}

/// How a request is guarded.
pub fn customer_mfa_assurance_gate(path: &str, method: &str, serves_app: bool) -> (r: Guard)
    ensures
        r == guard_of(path@, method@, serves_app),
{
    let root = text::same(path, "/") && serves_app;
    let page = text::starts_with(path, "/app") || root;
    let protected = page || text::starts_with(path, "/api/customer");
    let unsupported = text::starts_with(path, "/api/customer/sync/") && !reads(method);
    if !protected || unsupported {
        Guard::Open
    } else if page {
        Guard::GuardedPage
    } else {
        Guard::Guarded
    }
}

/// What a guard makes of a refusal.
pub open spec fn guarded_reply(guard: Guard, refused: ReplyView) -> ReplyView {
    if guard == Guard::GuardedPage && refused.status == 401 {
        reply::redirect_reply("/login"@)
    } else {
        refused
    }
}

/// What a guard makes of a refusal: on a page, one for want of a session leads to the login.
pub fn guarded_refusal(guard: Guard, refused: Reply) -> (r: Reply)
    ensures
        r@ == guarded_reply(guard, refused@),
{
    if guard == Guard::GuardedPage && refused.status == 401 {
        reply::redirect("/login")
    } else {
        refused
    }
}

/// What is done about the strength of a session.
pub enum AssuranceStep {
    Admit,
    Refuse(Reply),
    /// Ask the identity provider for the customer's factors, with this token.
    ListFactors(String),
}

/// What is done about the strength of a session, as a mathematical value.
pub enum AssuranceView {
    Admit,
    Refuse(ReplyView),
    ListFactors(Seq<char>),
}

impl View for AssuranceStep {
    type V = AssuranceView;

    open spec fn view(&self) -> AssuranceView {
        match self {
            AssuranceStep::Admit => AssuranceView::Admit,
            AssuranceStep::Refuse(refused) => AssuranceView::Refuse(refused@),
            AssuranceStep::ListFactors(token) => AssuranceView::ListFactors(token@),
        }
    }
}

/// What is done first: a session of two factors is strong enough for anyone; of any other it
/// must be found out whether its customer has a second factor.
pub open spec fn assurance_step(
    ctx: CustomerView,
    token: Option<Seq<char>>,
    provider: bool,
) -> AssuranceView {
    if auth::two_factor(ctx) {
        AssuranceView::Admit
    } else {
        match token {
            None => AssuranceView::Refuse(reply::refusal(401, "missing_customer_session"@)),
            Some(token) => if provider {
                AssuranceView::ListFactors(token)
            } else {
                AssuranceView::Refuse(reply::outage(IDENTITY_PROVIDER@, "mfa_state_unavailable"@))
            },
        }
    }
}

/// What is done first about the strength of a session. `provider` says whether an identity
/// provider is configured.
pub fn authenticate_mfa_aware(customer: &CustomerCtx, token: Option<String>, provider: bool) -> (r:
    AssuranceStep)
    ensures
        r@ == assurance_step(customer@, text::opt_view(token), provider),
{
    if customer.is_aal2() {
        return AssuranceStep::Admit;
    }
    match token {
        None => AssuranceStep::Refuse(reply::deny(401, "missing_customer_session")),
        Some(token) => if provider {
            AssuranceStep::ListFactors(token)
        } else {
            AssuranceStep::Refuse(
                reply::dependency_error(IDENTITY_PROVIDER, "mfa_state_unavailable"),
            )
        },
    }
}

/// The reason to refuse a session of one factor, given the customer's factors, or that they
/// could not be found out.
pub open spec fn factor_fault(factors: Option<Seq<FactorView>>) -> Option<ReplyView> {
    match factors {
        None => Some(reply::outage(IDENTITY_PROVIDER@, "mfa_state_unavailable"@)),
        Some(factors) => if supabase_auth::first_verified(factors) is Some {
            Some(reply::refusal(401, "mfa_step_up_required"@))
        } else {
            None
        },
    }
}

/// Whether a session of one factor is strong enough, given the customer's factors.
pub fn check_factors(factors: Result<Vec<Factor>, SupabaseAuthError>) -> (r: Result<(), Reply>)
    ensures
        match (
            r,
            factor_fault(
                match factors {
                    Ok(list) => Some(supabase_auth::factor_views(list@)),
                    Err(_) => None,
                },
            ),
        ) {
            (Ok(_), None) => true,
            (Err(refused), Some(expected)) => refused@ == expected,
            _ => false,
        },
        factors is Err ==> r is Err,
        factors matches Ok(list) ==> (r is Ok <==> forall|i: int|
            0 <= i < list@.len() ==> text::opt_view((#[trigger] list@[i]).factor_type) != Some(
                "totp"@,
            ) || text::opt_view(list@[i].status) != Some("verified"@)),
{
    match factors {
        Err(_) => Err(reply::dependency_error(IDENTITY_PROVIDER, "mfa_state_unavailable")),
        Ok(list) => {
            proof {
                let all = supabase_auth::factor_views(list@);
                supabase_laws::law_step_up_exactly_for_verified(all);
                assert forall|i: int| 0 <= i < list@.len() implies #[trigger] all[i] == list@[i]@ by {}
                if supabase_auth::first_verified(all) is Some {
                    let i = choose|i: int|
                        0 <= i < all.len() && supabase_auth::verified_totp(#[trigger] all[i]);
                    assert(all[i] == list@[i]@);
                    assert(text::opt_view(list@[i].factor_type) == Some("totp"@));
                } else {
                    assert forall|i: int| 0 <= i < list@.len() implies text::opt_view(
                        (#[trigger] list@[i]).factor_type,
                    ) != Some("totp"@) || text::opt_view(list@[i].status) != Some("verified"@) by {
                        assert(!supabase_auth::verified_totp(all[i]));
                    }
                }
            }
            if supabase_auth::required_totp_factor(list.as_slice()).is_some() {
                Err(reply::deny(401, "mfa_step_up_required"))
            } else {
                Ok(())
            }
        },
    }
}

/// What a login page does about an error of the identity provider.
pub enum LoginRetry {
    /// It is shown again, with this status.
    Page(u16),
    /// It gives way to this answer.
    Refuse(Reply),
}

/// What a login page does about an error, as a mathematical value.
pub enum LoginRetryView {
    Page(int),
    Refuse(ReplyView),
}

impl View for LoginRetry {
    type V = LoginRetryView;

    open spec fn view(&self) -> LoginRetryView {
        match self {
            LoginRetry::Page(status) => LoginRetryView::Page(*status as int),
            LoginRetry::Refuse(refused) => LoginRetryView::Refuse(refused@),
        }
    }
}

/// What a login page does about an error. What the user can mend is shown on the page: a
/// malformed input as a bad request, and what the identity provider refuses as unauthorised.
pub open spec fn login_retry(error: ErrorView) -> LoginRetryView {
    match error {
        ErrorView::Invalid(_) => LoginRetryView::Page(400),
        ErrorView::Rejected(_) => LoginRetryView::Page(401),
        ErrorView::Unavailable(_) => LoginRetryView::Refuse(
            reply::outage(IDENTITY_PROVIDER@, "supabase_auth_unavailable"@),
        ),
    }
}

/// What a login page does about an error of the identity provider, whatever status the page
/// itself would have.
pub fn supabase_auth_error_response(error: &SupabaseAuthError, _retry_status: u16) -> (r: LoginRetry)
    ensures
        r@ == login_retry(error@),
{
    match error {
        SupabaseAuthError::Invalid(_) => LoginRetry::Page(400),
        SupabaseAuthError::Rejected(_) => LoginRetry::Page(401),
        SupabaseAuthError::Unavailable(_) => LoginRetry::Refuse(
            reply::dependency_error(IDENTITY_PROVIDER, "supabase_auth_unavailable"),
        ),
    }
}

// What is kept out of caches.

/// Whether the answer to a request for a path holds anything of a customer's.
pub open spec fn is_sensitive(path: Seq<char>, serves_app: bool) -> bool {
    (path == "/"@ && serves_app) || is_browser_path(path) || is_api_path(path)
}

/// Whether the answer to a request for a path holds anything of a customer's.
pub fn security_headers(path: &str, serves_app: bool) -> (r: bool)
    ensures
        r == is_sensitive(path@, serves_app),
{
    (text::same(path, "/") && serves_app) || for_browsers(path) || text::starts_with(
        path,
        "/api/customer",
    )
}

/// The policy for what a page of the portal may load.
pub const PORTAL_CONTENT_POLICY: &'static str =
    "default-src 'self'; frame-ancestors 'none'; base-uri 'none'; form-action 'self'; object-src 'none'; connect-src 'self'; img-src 'self' data:; style-src 'self' 'sha256-faU7yAF8NxuMTNEwVmBz+VcYeIoBQ2EMHW3WaVxCvnk='";

/// The header that an answer with anything of a customer's is given at one step, and its value.
/// The referrer stays within the origin, and is not left out altogether, because browsers would
/// then hide the origin of forms too.
pub open spec fn sensitive_header(step: int) -> (Seq<char>, Seq<char>) {
    if step == 0 {
        ("cache-control"@, "no-store"@)
    } else if step == 1 {
        ("pragma"@, "no-cache"@)
    } else if step == 2 {
        ("content-security-policy"@, PORTAL_CONTENT_POLICY@)
    } else {
        ("referrer-policy"@, "same-origin"@)
    }
}

/// The headers of an answer after the first so many steps: those it has, with the new ones in
/// place of its own.
pub open spec fn hardened(contents: Map<Seq<char>, Seq<Seq<u8>>>, steps: nat) -> Map<
    Seq<char>,
    Seq<Seq<u8>>,
>
    decreases steps,
{
    if steps == 0 {
        contents
    } else {
        let (name, value) = sensitive_header(steps - 1);
        hardened(contents, (steps - 1) as nat).insert(name, seq![headers::ascii_bytes(value)])
    }
}

/// The headers of an answer that holds anything of a customer's.
pub open spec fn sensitive_headers(contents: Map<Seq<char>, Seq<Seq<u8>>>) -> Map<
    Seq<char>,
    Seq<Seq<u8>>,
> {
    hardened(contents, 4)
}

/// Gives an answer the headers of one that holds anything of a customer's, and says whether it
/// could: an answer with so many headers that no more can be added is left half done.
pub fn apply_sensitive_response_headers(headers: &mut HeaderMap) -> (r: bool)
    ensures
        r ==> headers::header_contents(*final(headers)) == sensitive_headers(
            headers::header_contents(*old(headers)),
        ),
        !r ==> exists|steps: nat|
            steps < 4 && headers::header_contents(*final(headers)) == #[trigger] hardened(
                headers::header_contents(*old(headers)),
                steps,
            ),
        headers::has_room(*old(headers), 4) ==> r,
{
    let ghost before = headers::header_contents(*headers);
    proof {
        reveal_strlit("cache-control");
        reveal_strlit("pragma");
        reveal_strlit("content-security-policy");
        reveal_strlit("referrer-policy");
        reveal_strlit("no-store");
        reveal_strlit("no-cache");
        reveal_strlit("same-origin");
        reveal_strlit(
            "default-src 'self'; frame-ancestors 'none'; base-uri 'none'; form-action 'self'; object-src 'none'; connect-src 'self'; img-src 'self' data:; style-src 'self' 'sha256-faU7yAF8NxuMTNEwVmBz+VcYeIoBQ2EMHW3WaVxCvnk='",
        );
        reveal_with_fuel(hardened, 5);
    }
    assert(headers::header_contents(*headers) == hardened(before, 0));
    if !headers::insert(headers, "cache-control", headers::from_static("no-store")) {
        return false;
    }
    assert(headers::header_contents(*headers) == hardened(before, 1));
    if !headers::insert(headers, "pragma", headers::from_static("no-cache")) {
        return false;
    }
    assert(headers::header_contents(*headers) == hardened(before, 2));
    if !headers::insert(
        headers,
        "content-security-policy",
        headers::from_static(PORTAL_CONTENT_POLICY),
    ) {
        return false;
    }
    assert(headers::header_contents(*headers) == hardened(before, 3));
    headers::insert(headers, "referrer-policy", headers::from_static("same-origin"))
}

} // verus!
