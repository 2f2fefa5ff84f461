//! Authentication of customer sessions.
//!
//! A credential is taken from the request and handed to the auth service, which alone
//! verifies sessions. Anything but its clear consent is a refusal: where no auth service
//! is configured, where the credential is missing or malformed, where the service cannot
//! be reached or answers in a way that cannot be understood, nobody is let in.

use axum::http::HeaderMap;
use std::sync::Arc;
use vstd::prelude::*;
use vstd::string::*;

use crate::headers;
use crate::json;
use crate::json::JsonNodes;
use crate::reply;
use crate::reply::{Reply, ReplyView};
use crate::text;

verus! {

/// The session cookie of a release build. Browsers let no sibling domain plant a cookie
/// with the prefix `__Host-`.
pub const CUSTOMER_SESSION_COOKIE: &'static str = "__Host-fiducia_customer_session";

/// The cookie that guards the login form of a release build.
pub const CUSTOMER_LOGIN_CSRF_COOKIE: &'static str = "__Host-fiducia_customer_login_csrf";

/// The session cookie of a debug build, usable over plain HTTP on the loopback interface.
pub const DEBUG_SESSION_COOKIE: &'static str = "fiducia_customer_session";

/// The cookie that guards the login form of a debug build.
pub const DEBUG_LOGIN_CSRF_COOKIE: &'static str = "fiducia_customer_login_csrf";

/// The name of the session cookie.
pub open spec fn session_cookie(release_hardened: bool) -> Seq<char> {
    if release_hardened {
        CUSTOMER_SESSION_COOKIE@
    } else {
        DEBUG_SESSION_COOKIE@
    }
}

/// The name of the session cookie.
pub fn customer_session_cookie_name(release_hardened: bool) -> (r: &'static str)
    ensures
        r@ == session_cookie(release_hardened),
{
    if release_hardened {
        CUSTOMER_SESSION_COOKIE
    } else {
        DEBUG_SESSION_COOKIE
    }
}

/// The name of the cookie that guards the login form.
pub fn customer_login_csrf_cookie_name(release_hardened: bool) -> (r: &'static str)
    ensures
        r@ == if release_hardened {
            CUSTOMER_LOGIN_CSRF_COOKIE@
        } else {
            DEBUG_LOGIN_CSRF_COOKIE@
        },
{
    if release_hardened {
        CUSTOMER_LOGIN_CSRF_COOKIE
    } else {
        DEBUG_LOGIN_CSRF_COOKIE
    }
}

/// A verified customer session: who is calling, and the organisations they belong to.
#[derive(Debug)]
pub struct CustomerCtx {
    pub user_id: String,
    pub email: Option<String>,
    pub orgs: Vec<String>,
    /// The assurance level that the auth service vouches for.
    pub aal: String,
    /// What cross-site request tokens are bound to. Never to be shown or logged.
    pub credential_binding: String,
    pub cookie_authenticated: bool,
}

/// A verified customer session, as a mathematical value.
pub struct CustomerView {
    pub user_id: Seq<char>,
    pub email: Option<Seq<char>>,
    pub orgs: Seq<Seq<char>>,
    pub aal: Seq<char>,
    pub credential_binding: Seq<char>,
    pub cookie_authenticated: bool,
}

impl View for CustomerCtx {
    type V = CustomerView;

    open spec fn view(&self) -> CustomerView {
        CustomerView {
            user_id: self.user_id@,
            email: text::opt_view(self.email),
            orgs: text::views(self.orgs@),
            aal: self.aal@,
            credential_binding: self.credential_binding@,
            cookie_authenticated: self.cookie_authenticated,
        }
    }
}

/// Whether a session belongs to a browser: its credential came in a cookie, or it is the
/// fixed session of a development server.
pub open spec fn of_browser(ctx: CustomerView) -> bool {
    ctx.cookie_authenticated || "development\0"@.is_prefix_of(ctx.credential_binding)
}

/// Whether a session was raised to two factors.
pub open spec fn two_factor(ctx: CustomerView) -> bool {
    ctx.aal == "aal2"@
}

impl CustomerCtx {
    /// What cross-site request tokens are bound to.
    pub fn csrf_binding(&self) -> (r: &str)
        ensures
            r@ == self@.credential_binding,
    {
        self.credential_binding.as_str()
    }

    /// Whether the session belongs to a browser.
    pub fn is_browser_session(&self) -> (r: bool)
        ensures
            r == of_browser(self@),
    {
        self.cookie_authenticated || text::starts_with(
            self.credential_binding.as_str(),
            "development\0",
        )
    }

    /// Whether the session was raised to two factors.
    pub fn is_aal2(&self) -> (r: bool)
        ensures
            r == two_factor(self@),
    {
        text::same(self.aal.as_str(), "aal2")
    }
}

/// A copy of a list of texts.
pub fn copy_texts(items: &Vec<String>) -> (r: Vec<String>)
    ensures
        text::views(r@) == text::views(items@),
{
    let mut r: Vec<String> = Vec::new();
    let mut i: usize = 0;
    while i < items.len()
        invariant
            i <= items.len(),
            r@.len() == i,
            forall|j: int| 0 <= j < i ==> (#[trigger] r@[j])@ == items@[j]@,
        decreases items.len() - i,
    {
        r.push(items[i].clone());
        i += 1;
    }
    assert(text::views(r@) =~= text::views(items@));
    r
}

impl Clone for CustomerCtx {
    fn clone(&self) -> (r: CustomerCtx)
        ensures
            r@ == self@,
    {
        CustomerCtx {
            user_id: self.user_id.clone(),
            email: match &self.email {
                Some(email) => Some(email.clone()),
                None => None,
            },
            orgs: copy_texts(&self.orgs),
            aal: self.aal.clone(),
            credential_binding: self.credential_binding.clone(),
            cookie_authenticated: self.cookie_authenticated,
        }
    }
}

/// The assurance level of a session for which the auth service names none: one factor.
pub fn default_assurance_level() -> (r: String)
    ensures
        r@ == "aal1"@,
{
    "aal1".to_owned()
}

/// How requests are authenticated.
#[derive(Clone)]
pub enum Authenticator {
    /// By the auth service at this address.
    AuthService(String),
    /// Not at all: no auth service is configured, and everyone is refused.
    Deny,
    /// By a fixed session, for tests and development servers.
    Static(Arc<CustomerCtx>),
}

/// A credential as a request presents it.
pub struct PresentedCredential {
    pub token: String,
    pub cookie_authenticated: bool,
}

/// A credential, as a mathematical value.
pub struct CredentialView {
    pub token: Seq<char>,
    pub cookie_authenticated: bool,
}

impl View for PresentedCredential {
    type V = CredentialView;

    open spec fn view(&self) -> CredentialView {
        CredentialView { token: self.token@, cookie_authenticated: self.cookie_authenticated }
    }
}

/// What a request presents as its credential.
pub enum CredentialSelection {
    Missing,
    Invalid,
    Valid(PresentedCredential),
}

/// What a request presents, as a mathematical value.
pub enum SelectionView {
    Missing,
    Invalid,
    Valid(CredentialView),
}

impl View for CredentialSelection {
    type V = SelectionView;

    open spec fn view(&self) -> SelectionView {
        match self {
            CredentialSelection::Missing => SelectionView::Missing,
            CredentialSelection::Invalid => SelectionView::Invalid,
            CredentialSelection::Valid(credential) => SelectionView::Valid(credential@),
        }
    }
}

/// The values that the pieces of one cookie header give for the cookie `name`.
pub open spec fn cookies_in(parts: Seq<Seq<char>>, name: Seq<char>) -> Seq<Seq<char>>
    decreases parts.len(),
{
    if parts.len() == 0 {
        Seq::empty()
    } else {
        let before = cookies_in(parts.drop_last(), name);
        match text::cut_once(text::trimmed(parts.last()), '=') {
            Some((n, v)) => if n == name {
                before.push(text::trimmed(v))
            } else {
                before
            },
            None => before,
        }
    }
}

/// The values that a list of cookie headers gives for the cookie `name`. A header that
/// cannot be read as text gives none.
pub open spec fn cookies(texts: Seq<Option<Seq<char>>>, name: Seq<char>) -> Seq<Seq<char>>
    decreases texts.len(),
{
    if texts.len() == 0 {
        Seq::empty()
    } else {
        let before = cookies(texts.drop_last(), name);
        match texts.last() {
            Some(t) => before + cookies_in(text::pieces(t, ';'), name),
            None => before,
        }
    }
}

/// The values of the cookie `name` in a request.
pub open spec fn cookie_values_of(headers: HeaderMap, name: Seq<char>) -> Seq<Seq<char>> {
    cookies(headers::texts_of(headers, headers::COOKIE@), name)
}

/// The value of a cookie: it has one where exactly one of its values is not blank.
pub open spec fn sole_cookie(values: Seq<Seq<char>>) -> Option<Seq<char>> {
    let filled = values.filter(|v: Seq<char>| v.len() > 0);
    if filled.len() == 1 {
        Some(filled[0])
    } else {
        None
    }
}

/// The token of an authorization header: there is one header, and it names a bearer token.
pub open spec fn bearer_of(values: Seq<Option<Seq<char>>>) -> Option<Seq<char>> {
    if values.len() != 1 {
        None
    } else {
        match values[0] {
            Some(value) => match text::suffix_after(value, "Bearer "@) {
                Some(token) => if token.len() > 0 {
                    Some(token)
                } else {
                    None
                },
                None => None,
            },
            None => None,
        }
    }
}

/// What authorization headers and session cookies present as a credential. An
/// authorization header wins, and where it is malformed no cookie takes its place. A
/// session cookie counts where it is given once and is not blank.
pub open spec fn selection(
    authorization: Seq<Option<Seq<char>>>,
    session_cookies: Seq<Seq<char>>,
) -> SelectionView {
    if authorization.len() > 0 {
        match bearer_of(authorization) {
            Some(token) => SelectionView::Valid(
                (CredentialView { token, cookie_authenticated: false }),
            ),
            None => SelectionView::Invalid,
        }
    } else if session_cookies.len() == 0 {
        SelectionView::Missing
    } else if session_cookies.len() == 1 && session_cookies[0].len() > 0 {
        SelectionView::Valid(
            (CredentialView { token: session_cookies[0], cookie_authenticated: true }),
        )
    } else {
        SelectionView::Invalid
    }
}

/// What a request presents as its credential.
pub open spec fn presented(headers: HeaderMap, release_hardened: bool) -> SelectionView {
    selection(
        headers::texts_of(headers, headers::AUTHORIZATION@),
        cookie_values_of(headers, session_cookie(release_hardened)),
    )
}

/// The values of the cookie `name` in one cookie header.
fn cookie_values_in(value: &str, name: &str) -> (r: Vec<String>)
    ensures
        text::views(r@) == cookies_in(text::pieces(value@, ';'), name@),
{
    let parts = text::split(value, ';');
    let ghost all = text::slice_views(parts@);
    let mut r: Vec<String> = Vec::new();
    let mut i: usize = 0;
    assert(text::views(r@) =~= cookies_in(all.take(0), name@));
    while i < parts.len()
        invariant
            i <= parts.len(),
            all == text::slice_views(parts@),
            text::views(r@) == cookies_in(all.take(i as int), name@),
        decreases parts.len() - i,
    {
        let ghost before = r@;
        proof {
            assert(all.take(i + 1).drop_last() =~= all.take(i as int));
            assert(all.take(i + 1).last() == parts@[i as int]@);
        }
        match text::split_once(text::trim(parts[i]), '=') {
            Some((n, v)) => {
                if text::same(n, name) {
                    r.push(text::trim(v).to_owned());
                    assert(text::views(r@) =~= text::views(before).push(text::trimmed(v@)));
                }
            },
            None => {},
        }
        i += 1;
    }
    assert(all.take(i as int) =~= all);
    r
}

/// The values of the cookie `name` in a request.
fn cookie_values(headers: &HeaderMap, name: &str) -> (r: Vec<String>)
    ensures
        text::views(r@) == cookie_values_of(*headers, name@),
{
    proof {
        headers::lemma_names();
    }
    let texts = headers::get_texts(headers, headers::COOKIE);
    let ghost all = texts@.map_values(|t: Option<String>| text::opt_view(t));
    let mut r: Vec<String> = Vec::new();
    let mut i: usize = 0;
    assert(text::views(r@) =~= cookies(all.take(0), name@));
    while i < texts.len()
        invariant
            i <= texts.len(),
            all == texts@.map_values(|t: Option<String>| text::opt_view(t)),
            text::views(r@) == cookies(all.take(i as int), name@),
        decreases texts.len() - i,
    {
        let ghost before = r@;
        proof {
            assert(all.take(i + 1).drop_last() =~= all.take(i as int));
            assert(all.take(i + 1).last() == text::opt_view(texts@[i as int]));
        }
        match &texts[i] {
            Some(value) => {
                let mut found = cookie_values_in(value.as_str(), name);
                let ghost more = found@;
                r.append(&mut found);
                assert(text::views(r@) =~= text::views(before) + text::views(more));
            },
            None => {},
        }
        i += 1;
    }
    assert(all.take(i as int) =~= all);
    r
}

/// The value of the cookie `expected_name`, where a request gives it one value and no second.
pub fn cookie_value(headers: &HeaderMap, expected_name: &str) -> (r: Option<String>)
    ensures
        text::opt_view(r) == sole_cookie(cookie_values_of(*headers, expected_name@)),
{
    let values = cookie_values(headers, expected_name);
    let ghost all = text::views(values@);
    let ghost filled = |v: Seq<char>| v.len() > 0;
    let mut found: Option<String> = None;
    let mut i: usize = 0;
    proof {
        reveal(Seq::filter);
        assert(all.take(0).filter(filled) =~= Seq::empty());
    }
    while i < values.len()
        invariant
            i <= values.len(),
            all == text::views(values@),
            all == cookie_values_of(*headers, expected_name@),
            filled == (|v: Seq<char>| v.len() > 0),
            all.take(i as int).filter(filled) == match found {
                Some(v) => seq![v@],
                None => Seq::empty(),
            },
        decreases values.len() - i,
    {
        proof {
            reveal(Seq::filter);
            assert(all.take(i + 1).drop_last() =~= all.take(i as int));
            assert(all.take(i + 1).last() == values@[i as int]@);
        }
        if !values[i].as_str().is_empty() {
            if found.is_some() {
                proof {
                    lemma_filter_grows(all, filled, i + 1);
                }
                return None;
            }
            found = Some(values[i].clone());
            assert(all.take(i + 1).filter(filled) =~= seq![found->0@]);
        }
        i += 1;
    }
    assert(all.take(i as int) =~= all);
    found
}

/// A filter keeps at least as much of a list as of a beginning of it.
proof fn lemma_filter_grows(s: Seq<Seq<char>>, keep: spec_fn(Seq<char>) -> bool, n: int)
    requires
        0 <= n <= s.len(),
    ensures
        s.filter(keep).len() >= s.take(n).filter(keep).len(),
    decreases s.len() - n,
{
    if n < s.len() {
        reveal(Seq::filter);
        assert(s.take(n + 1).drop_last() =~= s.take(n));
        lemma_filter_grows(s, keep, n + 1);
    } else {
        assert(s.take(n) =~= s);
    }
}

/// Whether a request holds the cookie `expected_name`, whatever its value.
pub fn cookie_name_present(headers: &HeaderMap, expected_name: &str) -> (r: bool)
    ensures
        r == (cookie_values_of(*headers, expected_name@).len() > 0),
{
    let values = cookie_values(headers, expected_name);
    assert(text::views(values@).len() == values@.len());
    values.len() > 0
}

/// The token of the authorization header of a request.
pub fn authorization_token(headers: &HeaderMap) -> (r: Option<String>)
    ensures
        text::opt_view(r) == bearer_of(headers::texts_of(*headers, headers::AUTHORIZATION@)),
{
    proof {
        headers::lemma_names();
    }
    let texts = headers::get_texts(headers, headers::AUTHORIZATION);
    let ghost all = texts@.map_values(|t: Option<String>| text::opt_view(t));
    if texts.len() != 1 {
        return None;
    }
    assert(all[0] == text::opt_view(texts@[0]));
    match &texts[0] {
        Some(value) => match text::strip_prefix(value.as_str(), "Bearer ") {
            Some(token) => if token.is_empty() {
                None
            } else {
                Some(token.to_owned())
            },
            None => None,
        },
        None => None,
    }
}

/// What a request presents as its credential. An authorization header always wins and
/// never gives way to a cookie. Where it is repeated or malformed, or where there is no
/// such header and the session cookie is repeated or blank, the credential is invalid.
pub fn presented_credential(headers: &HeaderMap, release_hardened: bool) -> (r: CredentialSelection)
    ensures
        r@ == presented(*headers, release_hardened),
{
    proof {
        headers::lemma_names();
    }
    if headers::contains(headers, headers::AUTHORIZATION) {
        return match authorization_token(headers) {
            Some(token) => CredentialSelection::Valid(
                PresentedCredential { token, cookie_authenticated: false },
            ),
            None => CredentialSelection::Invalid,
        };
    }
    let name = customer_session_cookie_name(release_hardened);
    if !cookie_name_present(headers, name) {
        return CredentialSelection::Missing;
    }
    let mut values = cookie_values(headers, name);
    let ghost all = text::views(values@);
    assert(all.len() == values@.len());
    if values.len() != 1 {
        return CredentialSelection::Invalid;
    }
    assert(all[0] == values@[0]@);
    match values.pop() {
        Some(token) => if token.as_str().is_empty() {
            CredentialSelection::Invalid
        } else {
            CredentialSelection::Valid(PresentedCredential { token, cookie_authenticated: true })
        },
        None => CredentialSelection::Missing,
    }
}

/// The token of a valid credential.
pub open spec fn token_of(selection: SelectionView) -> Option<Seq<char>> {
    match selection {
        SelectionView::Valid(credential) => Some(credential.token),
        _ => None,
    }
}

/// The token that a request presents, where its credential is valid.
pub fn bearer_token(headers: &HeaderMap, release_hardened: bool) -> (r: Option<String>)
    ensures
        text::opt_view(r) == token_of(presented(*headers, release_hardened)),
{
    match presented_credential(headers, release_hardened) {
        CredentialSelection::Valid(credential) => Some(credential.token),
        CredentialSelection::Missing => None,
        CredentialSelection::Invalid => None,
    }
}

/// How requests are authenticated, as a mathematical value.
pub enum AuthenticatorView {
    AuthService(Seq<char>),
    Deny,
    Static(CustomerView),
}

impl View for Authenticator {
    type V = AuthenticatorView;

    open spec fn view(&self) -> AuthenticatorView {
        match self {
            Authenticator::AuthService(url) => AuthenticatorView::AuthService(url@),
            Authenticator::Deny => AuthenticatorView::Deny,
            Authenticator::Static(ctx) => AuthenticatorView::Static((**ctx)@),
        }
    }
}

/// The fixed session of a development server.
pub open spec fn development_session() -> CustomerView {
    CustomerView {
        user_id: "fiducia-e2e-customer"@,
        email: Some("customer-e2e@fiducia.invalid"@),
        orgs: seq!["00000000-0000-4000-8000-000000000001"@],
        aal: "aal2"@,
        credential_binding: "development\0fiducia-e2e-customer"@,
        cookie_authenticated: false,
    }
}

/// What the settings of a deployment choose.
pub open spec fn configured(
    debug_build: bool,
    static_auth: Option<Seq<char>>,
    auth_url: Option<Seq<char>>,
) -> AuthenticatorView {
    if debug_build && static_auth == Some("1"@) {
        AuthenticatorView::Static(development_session())
    } else {
        match auth_url {
            Some(url) => if text::trimmed(url).len() > 0 {
                AuthenticatorView::AuthService(text::drop_trailing(url, '/'))
            } else {
                AuthenticatorView::Deny
            },
            None => AuthenticatorView::Deny,
        }
    }
}

/// The session that the auth service describes.
#[derive(Debug)]
pub struct Identity {
    pub user_id: String,
    pub email: Option<String>,
    pub orgs: Vec<String>,
    pub aal: String,
}

/// What became of the request to the auth service.
pub enum AuthOutcome {
    /// No answer came.
    Unreachable,
    /// An answer came, with this status and, where its body describes a session, that session.
    Answered(u16, Option<Identity>),
}

/// A session that the auth service describes, as a mathematical value.
pub struct IdentityView {
    pub user_id: Seq<char>,
    pub email: Option<Seq<char>>,
    pub orgs: Seq<Seq<char>>,
    pub aal: Seq<char>,
}

/// What became of the request to the auth service, as a mathematical value.
pub enum OutcomeView {
    Unreachable,
    Answered(int, Option<IdentityView>),
}

impl View for Identity {
    type V = IdentityView;

    open spec fn view(&self) -> IdentityView {
        IdentityView {
            user_id: self.user_id@,
            email: text::opt_view(self.email),
            orgs: text::views(self.orgs@),
            aal: self.aal@,
        }
    }
}

impl View for AuthOutcome {
    type V = OutcomeView;

    open spec fn view(&self) -> OutcomeView {
        match self {
            AuthOutcome::Unreachable => OutcomeView::Unreachable,
            AuthOutcome::Answered(status, Some(identity)) => OutcomeView::Answered(
                *status as int,
                Some(identity@),
            ),
            AuthOutcome::Answered(status, None) => OutcomeView::Answered(*status as int, None),
        }
    }
}

/// What authentication does first.
pub enum AuthStep {
    /// It is settled without the auth service.
    Settled(Result<CustomerCtx, Reply>),
    /// The auth service is asked at `url`, with the token of the credential.
    Verify { url: String, credential: PresentedCredential },
}

/// What authentication does first, as a mathematical value.
pub enum AuthStepView {
    Settled(Result<CustomerView, ReplyView>),
    Verify { url: Seq<char>, credential: CredentialView },
}

/// The outcome of a decision about a caller, as a mathematical value.
pub open spec fn outcome_view(r: Result<CustomerCtx, Reply>) -> Result<CustomerView, ReplyView> {
    match r {
        Ok(ctx) => Ok(ctx@),
        Err(refused) => Err(refused@),
    }
}

impl View for AuthStep {
    type V = AuthStepView;

    open spec fn view(&self) -> AuthStepView {
        match self {
            AuthStep::Settled(r) => AuthStepView::Settled(outcome_view(*r)),
            AuthStep::Verify { url, credential } => AuthStepView::Verify {
                url: url@,
                credential: credential@,
            },
        }
    }
}

/// What authentication does first with a request that presents the given credential.
pub open spec fn first_step(auth: AuthenticatorView, selection: SelectionView) -> AuthStepView {
    match auth {
        AuthenticatorView::Static(ctx) => AuthStepView::Settled(Ok(ctx)),
        AuthenticatorView::Deny => AuthStepView::Settled(
            Err(reply::refusal(503, "customer_auth_not_configured"@)),
        ),
        AuthenticatorView::AuthService(url) => match selection {
            SelectionView::Valid(credential) => AuthStepView::Verify {
                url: url + "/v1/me"@,
                credential,
            },
            SelectionView::Missing => AuthStepView::Settled(
                Err(reply::refusal(401, "missing_customer_session"@)),
            ),
            SelectionView::Invalid => AuthStepView::Settled(
                Err(reply::refusal(401, "invalid_customer_session"@)),
            ),
        },
    }
}

/// What cross-site request tokens of a session with the given credential are bound to.
pub open spec fn binding(credential: CredentialView) -> Seq<char> {
    if credential.cookie_authenticated {
        "cookie\0"@ + credential.token
    } else {
        "authorization\0"@ + credential.token
    }
}

/// Whether a status reports success.
pub open spec fn is_success(status: int) -> bool {
    200 <= status < 300
}

/// What follows from what became of the request to the auth service.
pub open spec fn verdict(credential: CredentialView, outcome: OutcomeView) -> Result<
    CustomerView,
    ReplyView,
> {
    match outcome {
        OutcomeView::Unreachable => Err(reply::refusal(503, "auth_unreachable"@)),
        OutcomeView::Answered(status, identity) => if is_success(status) {
            match identity {
                None => Err(reply::refusal(502, "auth_bad_response"@)),
                Some(user) => if text::trimmed(user.user_id).len() == 0 {
                    Err(reply::refusal(502, "auth_bad_response"@))
                } else if user.orgs.len() == 0 {
                    Err(reply::refusal(403, "no_org_membership"@))
                } else {
                    Ok(
                        CustomerView {
                            user_id: user.user_id,
                            email: user.email,
                            orgs: user.orgs,
                            aal: user.aal,
                            credential_binding: binding(credential),
                            cookie_authenticated: credential.cookie_authenticated,
                        },
                    )
                },
            }
        } else if status == 401 || status == 403 {
            Err(reply::refusal(401, "invalid_or_expired_session"@))
        } else {
            Err(reply::refusal(503, "auth_unavailable"@))
        },
    }
}

/// Whether a status reports success.
pub fn success(status: u16) -> (r: bool)
    ensures
        r == is_success(status as int),
{
    200 <= status && status < 300
}

impl Authenticator {
    /// The authenticator that the settings of a deployment choose. The fixed session is for
    /// debug builds that ask for it; without the address of an auth service all are refused.
    pub fn from_env(
        debug_build: bool,
        static_auth: Option<&str>,
        auth_url: Option<&str>,
    ) -> (r: Authenticator)
        ensures
            r@ == configured(
                debug_build,
                text::opt_str_view(static_auth),
                text::opt_str_view(auth_url),
            ),
    {
        let wants_static = match static_auth {
            Some(value) => text::same(value, "1"),
            None => false,
        };
        if debug_build && wants_static {
            let mut orgs: Vec<String> = Vec::new();
            orgs.push("00000000-0000-4000-8000-000000000001".to_owned());
            let ctx = CustomerCtx {
                user_id: "fiducia-e2e-customer".to_owned(),
                email: Some("customer-e2e@fiducia.invalid".to_owned()),
                orgs,
                aal: "aal2".to_owned(),
                credential_binding: "development\0fiducia-e2e-customer".to_owned(),
                cookie_authenticated: false,
            };
            assert(ctx@.orgs =~= development_session().orgs);
            return Authenticator::Static(Arc::new(ctx));
        }
        match auth_url {
            Some(url) => if text::trim(url).is_empty() {
                Authenticator::Deny
            } else {
                Authenticator::AuthService(text::trim_end_matches(url, '/').to_owned())
            },
            None => Authenticator::Deny,
        }
    }

    /// Decides about a request as far as that goes without the auth service.
    pub fn authenticate(&self, headers: &HeaderMap, release_hardened: bool) -> (r: AuthStep)
        ensures
            r@ == first_step(self@, presented(*headers, release_hardened)),
    {
        match self {
            Authenticator::Static(ctx) => AuthStep::Settled(Ok((**ctx).clone())),
            Authenticator::Deny => AuthStep::Settled(
                Err(reply::deny(503, "customer_auth_not_configured")),
            ),
            Authenticator::AuthService(url) => match presented_credential(
                headers,
                release_hardened,
            ) {
                CredentialSelection::Valid(credential) => AuthStep::Verify {
                    url: text::cat(url.as_str(), "/v1/me"),
                    credential,
                },
                CredentialSelection::Missing => AuthStep::Settled(
                    Err(reply::deny(401, "missing_customer_session")),
                ),
                CredentialSelection::Invalid => AuthStep::Settled(
                    Err(reply::deny(401, "invalid_customer_session")),
                ),
            },
        }
    }
}

/// What the auth service's answer says of the user: its member `user`, or null.
pub open spec fn user_nodes(body: JsonNodes) -> JsonNodes {
    match json::member(body, "user"@) {
        Some(user) => user,
        None => json::null_nodes(),
    }
}

/// What the auth service's answer says of the user.
pub fn user_document(body: &serde_json::Value) -> (r: serde_json::Value)
    ensures
        json::json_nodes(r) == user_nodes(json::json_nodes(*body)),
{
    match json::get(body, "user") {
        Some(user) => json::copy_of(user),
        None => json::null(),
    }
}

/// Decides about a request after the auth service was asked about its credential.
pub fn authenticated(credential: &PresentedCredential, outcome: AuthOutcome) -> (r: Result<
    CustomerCtx,
    Reply,
>)
    ensures
        outcome_view(r) == verdict(credential@, outcome@),
{
    match outcome {
        AuthOutcome::Unreachable => Err(reply::deny(503, "auth_unreachable")),
        AuthOutcome::Answered(status, identity) => {
            if success(status) {
                match identity {
                    None => Err(reply::deny(502, "auth_bad_response")),
                    Some(user) => {
                        assert(text::views(user.orgs@).len() == user.orgs@.len());
                        if text::trim(user.user_id.as_str()).is_empty() {
                            return Err(reply::deny(502, "auth_bad_response"));
                        }
                        if user.orgs.len() == 0 {
                            return Err(reply::deny(403, "no_org_membership"));
                        }
                        let kind = if credential.cookie_authenticated {
                            "cookie\0"
                        } else {
                            "authorization\0"
                        };
                        Ok(
                            CustomerCtx {
                                user_id: user.user_id,
                                email: user.email,
                                orgs: user.orgs,
                                aal: user.aal,
                                credential_binding: text::cat(kind, credential.token.as_str()),
                                cookie_authenticated: credential.cookie_authenticated,
                            },
                        )
                    },
                }
            } else if status == 401 || status == 403 {
                Err(reply::deny(401, "invalid_or_expired_session"))
            } else {
                Err(reply::deny(503, "auth_unavailable"))
            }
        },
    }
}

} // verus!
