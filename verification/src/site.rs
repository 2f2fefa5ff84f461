//! The site as a whole: its settings, which host serves what, and what it tells of itself.

use axum::http::{HeaderMap, HeaderValue};
use vstd::prelude::*;
use vstd::string::*;

use crate::account;
use crate::auth::{CustomerCtx, CustomerView};
use crate::headers;
use crate::json;
use crate::json::{JsonNodes, JsonObject};
use crate::orgs;
use crate::reply;
use crate::reply::{Reply, ReplyView};
use crate::security;
use crate::text;

verus! {

/// The name of the service.
pub const SERVICE: &'static str = "fiducia-backend";

/// How often a stream shows that it is alive.
pub const STREAM_HEARTBEAT_SECS: u64 = 15;

// Settings.

/// A setting of the environment.
pub enum Setting<'a> {
    Unset,
    /// It is set to something that is no text.
    NotText,
    Given(&'a str),
}

/// A setting, as a mathematical value.
pub enum SettingView {
    Unset,
    NotText,
    Given(Seq<char>),
}

impl<'a> View for Setting<'a> {
    type V = SettingView;

    open spec fn view(&self) -> SettingView {
        match self {
            Setting::Unset => SettingView::Unset,
            Setting::NotText => SettingView::NotText,
            Setting::Given(s) => SettingView::Given(s@),
        }
    }
}

/// The value of a setting that must not be blank.
pub open spec fn filled(value: Option<Seq<char>>) -> Option<Seq<char>> {
    match value {
        Some(s) => if text::trimmed(s).len() > 0 {
            Some(s)
        } else {
            None
        },
        None => None,
    }
}

/// The value of a setting that must be there.
pub fn required_env(name: &str, value: Option<&str>) -> (r: Result<String, String>)
    ensures
        match r {
            Ok(s) => filled(text::opt_str_view(value)) == Some(s@),
            Err(message) => filled(text::opt_str_view(value)) is None && message@ == name@
                + " must be set"@,
        },
        r is Ok <==> (value matches Some(s) && text::trimmed(s@).len() > 0),
        r matches Ok(s) ==> (value matches Some(given) && s@ == given@),
{
    if let Some(s) = value {
        if !text::trim(s).is_empty() {
            return Ok(s.to_owned());
        }
    }
    Err(text::cat(name, " must be set"))
}

/// The database schema that a setting names.
pub fn db_schema(value: Option<&str>) -> (r: String)
    ensures
        r@ == match filled(text::opt_str_view(value)) {
            Some(s) => text::trimmed(s),
            None => "fiducia"@,
        },
        value is None ==> r@ == "fiducia"@,
        value matches Some(s) ==> r@ == if text::trimmed(s@).len() > 0 {
            text::trimmed(s@)
        } else {
            "fiducia"@
        },
{
    if let Some(s) = value {
        let s = text::trim(s);
        if !s.is_empty() {
            return s.to_owned();
        }
    }
    "fiducia".to_owned()
}

/// Whether a setting makes this site the portal, whatever the host.
pub fn customer_site_mode(value: Option<&str>) -> (r: bool)
    ensures
        r == (value matches Some(s) && text::lowered(s@) == text::lowered("customer"@)),
{
    match value {
        Some(s) => text::eq_ignore_ascii_case(s, "customer"),
        None => false,
    }
}

// The origin of the stand-alone portal.

/// The parts of an address.
pub struct UriParts {
    pub scheme: Option<String>,
    pub authority: Option<String>,
    pub path_and_query: Option<String>,
}

/// The parts of an address, as a mathematical value.
pub struct UriView {
    pub scheme: Option<Seq<char>>,
    pub authority: Option<Seq<char>>,
    pub path_and_query: Option<Seq<char>>,
}

impl View for UriParts {
    type V = UriView;

    open spec fn view(&self) -> UriView {
        UriView {
            scheme: text::opt_view(self.scheme),
            authority: text::opt_view(self.authority),
            path_and_query: text::opt_view(self.path_and_query),
        }
    }
}

/// The parts of the address that a text denotes.
pub uninterp spec fn uri_parts(s: Seq<char>) -> Option<UriView>;

/// The parts of an optional address, as a mathematical value.
pub open spec fn opt_parts(parts: Option<UriParts>) -> Option<UriView> {
    match parts {
        Some(parts) => Some(parts@),
        None => None,
    }
}

/// `Uri::from_str`, with `scheme_str`, `authority` and `path_and_query`: the parts of the address
/// that a text denotes. Which texts denote one, and its parts, are left to the parser.
#[verifier::external_body]
fn parse_uri(s: &str) -> (r: Option<UriParts>)
    ensures
        opt_parts(r) == uri_parts(s@),
{
    let uri = s.parse::<axum::http::Uri>().ok()?;
    Some(
        UriParts {
            scheme: uri.scheme_str().map(|part| part.to_owned()),
            authority: uri.authority().map(|part| part.as_str().to_owned()),
            path_and_query: uri.path_and_query().map(|part| part.as_str().to_owned()),
        },
    )
}

/// The origin that a scheme and an authority make.
pub open spec fn origin_text(scheme: Seq<char>, authority: Seq<char>) -> Seq<char> {
    scheme + "://"@ + authority
}

/// The origin that a trimmed setting denotes, given the parts of its address.
pub open spec fn origin_of(value: Seq<char>, parts: Option<UriView>) -> Result<Seq<u8>, Seq<char>> {
    match parts {
        None => Err("CUSTOMER_APP_ORIGIN must be an absolute http(s) origin"@),
        Some(uri) => match (uri.scheme, uri.authority) {
            (Some(scheme), Some(authority)) => if (scheme != "http"@ && scheme != "https"@)
                || authority.contains('@') {
                Err("CUSTOMER_APP_ORIGIN must contain only an http(s) scheme and host"@)
            } else if uri.path_and_query matches Some(path) && path != "/"@ {
                Err("CUSTOMER_APP_ORIGIN must not contain a path, query, or fragment"@)
            } else if value != origin_text(scheme, authority) && value != origin_text(
                scheme,
                authority,
            ) + "/"@ {
                Err("CUSTOMER_APP_ORIGIN must be a single exact origin"@)
            } else if !headers::is_value(origin_text(scheme, authority)) {
                Err("CUSTOMER_APP_ORIGIN is not a valid HTTP header origin"@)
            } else {
                Ok(vstd::utf8::encode_utf8(origin_text(scheme, authority)))
            },
            _ => Err("CUSTOMER_APP_ORIGIN must contain only an http(s) scheme and host"@),
        },
    }
}

/// A header value or a message, as a mathematical value.
pub open spec fn origin_view(r: Result<HeaderValue, &'static str>) -> Result<Seq<u8>, Seq<char>> {
    match r {
        Ok(value) => Ok(headers::header_bytes(value)),
        Err(message) => Err(message@),
    }
}

/// The origin that a trimmed setting denotes, given the parts of its address.
pub fn origin_from_parts(value: &str, parts: Option<UriParts>) -> (r: Result<
    HeaderValue,
    &'static str,
>)
    ensures
        origin_view(r) == origin_of(value@, opt_parts(parts)),
{
    let uri = match parts {
        Some(uri) => uri,
        None => return Err("CUSTOMER_APP_ORIGIN must be an absolute http(s) origin"),
    };
    let (scheme, authority) = match (uri.scheme, uri.authority) {
        (Some(scheme), Some(authority)) => (scheme, authority),
        _ => return Err("CUSTOMER_APP_ORIGIN must contain only an http(s) scheme and host"),
    };
    if (!text::same(scheme.as_str(), "http") && !text::same(scheme.as_str(), "https"))
        || text::contains_char(authority.as_str(), '@') {
        return Err("CUSTOMER_APP_ORIGIN must contain only an http(s) scheme and host");
    }
    if let Some(path) = uri.path_and_query {
        if !text::same(path.as_str(), "/") {
            return Err("CUSTOMER_APP_ORIGIN must not contain a path, query, or fragment");
        }
    }
    let mut canonical = text::cat(scheme.as_str(), "://");
    canonical.append(authority.as_str());
    let closed = text::cat(canonical.as_str(), "/");
    if !text::same(value, canonical.as_str()) && !text::same(value, closed.as_str()) {
        return Err("CUSTOMER_APP_ORIGIN must be a single exact origin");
    }
    match headers::from_str(canonical.as_str()) {
        Some(origin) => Ok(origin),
        None => Err("CUSTOMER_APP_ORIGIN is not a valid HTTP header origin"),
    }
}

/// The origin that a setting denotes.
pub fn parse_customer_app_origin(value: &str) -> (r: Result<HeaderValue, &'static str>)
    ensures
        origin_view(r) == origin_of(text::trimmed(value@), uri_parts(text::trimmed(value@))),
{
    let value = text::trim(value);
    let parts = parse_uri(value);
    origin_from_parts(value, parts)
}

/// The origin that is allowed to call this service from a browser, if one is.
pub fn customer_app_origin_from_env(setting: Setting) -> (r: Result<
    Option<HeaderValue>,
    &'static str,
>)
    ensures
        match setting@ {
            SettingView::NotText => r matches Err(message) && message@
                == "CUSTOMER_APP_ORIGIN must be valid UTF-8"@,
            SettingView::Unset => r == Ok::<Option<HeaderValue>, &'static str>(None),
            SettingView::Given(s) => if text::trimmed(s).len() == 0 {
                r == Ok::<Option<HeaderValue>, &'static str>(None)
            } else {
                match r {
                    Ok(Some(origin)) => origin_of(text::trimmed(s), uri_parts(text::trimmed(s)))
                        == Ok::<Seq<u8>, Seq<char>>(headers::header_bytes(origin)),
                    Ok(None) => false,
                    Err(message) => origin_of(text::trimmed(s), uri_parts(text::trimmed(s)))
                        == Err::<Seq<u8>, Seq<char>>(message@),
                }
            },
        },
{
    match setting {
        Setting::NotText => Err("CUSTOMER_APP_ORIGIN must be valid UTF-8"),
        Setting::Unset => Ok(None),
        Setting::Given(s) => {
            if text::trim(s).is_empty() {
                return Ok(None);
            }
            match parse_customer_app_origin(s) {
                Ok(origin) => Ok(Some(origin)),
                Err(message) => Err(message),
            }
        },
    }
}

/// An origin that is accepted is one exact web origin without credentials, and what was set is
/// that origin, at most with a slash behind it.
pub proof fn law_accepted_origins_are_exact(value: Seq<char>, parts: Option<UriView>)
    ensures
        origin_of(value, parts) matches Ok(bytes) ==> {
            &&& parts matches Some(uri) && uri.scheme matches Some(scheme) && uri.authority matches Some(
                authority,
            ) && {
                let origin = origin_text(scheme, authority);
                &&& scheme == "http"@ || scheme == "https"@
                &&& !authority.contains('@')
                &&& value == origin || value == origin + "/"@
                &&& bytes == vstd::utf8::encode_utf8(origin)
            }
        },
{
}

/// The methods that the stand-alone portal may use.
pub fn cors_methods() -> (r: Vec<&'static str>)
    ensures
        text::slice_views(r@) == seq!["GET"@, "POST"@, "PUT"@, "DELETE"@, "OPTIONS"@],
{
    let mut r: Vec<&'static str> = Vec::new();
    r.push("GET");
    r.push("POST");
    r.push("PUT");
    r.push("DELETE");
    r.push("OPTIONS");
    assert(text::slice_views(r@) =~= seq!["GET"@, "POST"@, "PUT"@, "DELETE"@, "OPTIONS"@]);
    r
}

/// The headers that the stand-alone portal may send.
pub fn cors_headers() -> (r: Vec<&'static str>)
    ensures
        text::slice_views(r@) == seq![
            headers::AUTHORIZATION@,
            "content-type"@,
            headers::CUSTOMER_ORG_HEADER@,
            headers::IDEMPOTENCY_KEY_HEADER@,
            headers::CUSTOMER_CSRF_HEADER@,
        ],
{
    let mut r: Vec<&'static str> = Vec::new();
    r.push(headers::AUTHORIZATION);
    r.push("content-type");
    r.push(headers::CUSTOMER_ORG_HEADER);
    r.push(headers::IDEMPOTENCY_KEY_HEADER);
    r.push(headers::CUSTOMER_CSRF_HEADER);
    assert(text::slice_views(r@) =~= seq![
        headers::AUTHORIZATION@,
        "content-type"@,
        headers::CUSTOMER_ORG_HEADER@,
        headers::IDEMPOTENCY_KEY_HEADER@,
        headers::CUSTOMER_CSRF_HEADER@,
    ]);
    r
}

// Which host serves what.

/// Whether a request is for the portal: the site is nothing else, or the host is the portal's,
/// whatever the port.
pub open spec fn is_for_portal(
    host: Option<Seq<u8>>,
    customer_app_host: Seq<char>,
    customer_site_mode: bool,
) -> bool {
    customer_site_mode || (host matches Some(bytes) && headers::readable(bytes) matches Some(s)
        && text::lowered(text::pieces(s, ':')[0]) == text::lowered(customer_app_host))
}

/// Whether a request is for the portal.
pub fn host_serves_customer_app(
    headers: &HeaderMap,
    customer_app_host: &str,
    customer_site_mode: bool,
) -> (r: bool)
    ensures
        r == is_for_portal(
            headers::first_value(*headers, headers::HOST@),
            customer_app_host@,
            customer_site_mode,
        ),
{
    if customer_site_mode {
        return true;
    }
    proof {
        headers::lemma_names();
    }
    match headers::get_text(headers, headers::HOST) {
        Some(host) => {
            let parts = text::split(host.as_str(), ':');
            let ghost all = text::slice_views(parts@);
            assert(all.len() == parts@.len());
            assert(all.len() > 0);
            assert(all[0] == parts@[0]@);
            text::eq_ignore_ascii_case(parts[0], customer_app_host)
        },
        None => false,
    }
}

/// The organisation that a page is about, once its caller is known, or what the caller gets
/// instead. `host` says why the host is the wrong one, if it is.
pub open spec fn page_access(
    ctx: CustomerView,
    host: Option<Seq<char>>,
    header: Option<Seq<u8>>,
    explicit: Option<Seq<char>>,
) -> Result<Seq<char>, ReplyView> {
    match host {
        Some(reason) => Err(security::rejection(reason)),
        None => orgs::page_org(ctx.orgs, header, explicit),
    }
}

/// The organisation that a page is about, once its caller is known.
pub fn customer_page_response(
    customer: &CustomerCtx,
    host: Result<(), String>,
    headers: &HeaderMap,
    explicit: Option<&str>,
) -> (r: Result<String, Reply>)
    ensures
        orgs::choice_view(r) == page_access(
            customer@,
            security::check_view(host),
            orgs::org_header(*headers),
            text::opt_str_view(explicit),
        ),
{
    match host {
        Err(reason) => Err(security::request_security_error(reason.as_str())),
        Ok(_) => orgs::customer_page_org(customer, headers, explicit),
    }
}

// What the site tells of itself.

/// What the service says where it is alive.
pub open spec fn health_nodes() -> JsonNodes {
    json::object_nodes(
        map![
            "status"@ => json::text_nodes("ok"@),
            "service"@ => json::text_nodes(SERVICE@),
        ],
    )
}

/// The answer to the question whether the service is alive.
pub fn health() -> (r: serde_json::Value)
    ensures
        json::json_nodes(r) == health_nodes(),
{
    JsonObject::new().with("status", json::string("ok")).with(
        "service",
        json::string(SERVICE),
    ).finish()
}

/// What the site tells of its portal.
pub open spec fn portal_nodes(host: Seq<char>, supabase_login: bool) -> JsonNodes {
    json::object_nodes(
        map![
            "host"@ => json::text_nodes(host),
            "path"@ => json::text_nodes("/app"@),
            "rendering"@ => json::text_nodes("maud+htmx"@),
            "streams"@ => json::object_nodes(
                map![
                    "websocket"@ => json::text_nodes(security::CUSTOMER_WS_PATH@),
                    "sse"@ => json::text_nodes(security::CUSTOMER_EVENTS_PATH@),
                    "heartbeat_secs"@ => json::integer_nodes(STREAM_HEARTBEAT_SECS as int),
                ],
            ),
            "regions"@ => json::text_array_nodes(account::regions()),
            "supabase_login"@ => json::flag_nodes(supabase_login),
        ],
    )
}

/// What the site tells of itself.
pub open spec fn info_nodes(version: Seq<char>, host: Seq<char>, supabase_login: bool) -> JsonNodes {
    json::object_nodes(
        map![
            "service"@ => json::text_nodes(SERVICE@),
            "version"@ => json::text_nodes(version),
            "domain"@ => json::text_nodes("fiducia.cloud"@),
            "role"@ => json::text_nodes("website"@),
            "customer_portal"@ => portal_nodes(host, supabase_login),
            "components"@ => json::object_nodes(
                map![
                    "data_plane"@ => json::text_nodes("fiducia-node"@),
                    "control_plane"@ => json::text_nodes("fiducia-brain"@),
                ],
            ),
        ],
    )
}

/// What the site tells of itself. A login by way of Supabase is offered where the project's
/// address and key are both configured.
pub fn info(
    version: &str,
    customer_app_host: &str,
    supabase_url: bool,
    supabase_key: bool,
) -> (r: serde_json::Value)
    ensures
        json::json_nodes(r) == info_nodes(
            version@,
            customer_app_host@,
            supabase_url && supabase_key,
        ),
{
    let streams = JsonObject::new()
        .with("websocket", json::string(security::CUSTOMER_WS_PATH))
        .with("sse", json::string(security::CUSTOMER_EVENTS_PATH))
        .with("heartbeat_secs", json::unsigned(STREAM_HEARTBEAT_SECS))
        .finish();
    let portal = JsonObject::new()
        .with("host", json::string(customer_app_host))
        .with("path", json::string("/app"))
        .with("rendering", json::string("maud+htmx"))
        .with("streams", streams)
        .with("regions", json::text_array(&account::customer_regions()))
        .with("supabase_login", json::flag(supabase_url && supabase_key))
        .finish();
    let components = JsonObject::new()
        .with("data_plane", json::string("fiducia-node"))
        .with("control_plane", json::string("fiducia-brain"))
        .finish();
    JsonObject::new()
        .with("service", json::string(SERVICE))
        .with("version", json::string(version))
        .with("domain", json::string("fiducia.cloud"))
        .with("role", json::string("website"))
        .with("customer_portal", portal)
        .with("components", components)
        .finish()
}

/// What a caller is told of their own session. Only a browser's session has a request token.
pub open spec fn context_nodes(ctx: CustomerView, csrf_token: Option<Seq<char>>) -> JsonNodes {
    json::object_nodes(
        map![
            "csrf_token"@ => json::opt_text_nodes(csrf_token),
            "user"@ => json::object_nodes(
                map![
                    "user_id"@ => json::text_nodes(ctx.user_id),
                    "email"@ => json::opt_text_nodes(ctx.email),
                    "orgs"@ => json::text_array_nodes(ctx.orgs),
                ],
            ),
        ],
    )
}

/// The answer to a caller's question about their own session. `csrf_token` is the request token
/// of the session.
pub fn customer_context_json(ctx: &CustomerCtx, csrf_token: String) -> (r: Reply)
    ensures
        r@ == reply::private_reply(
            200,
            context_nodes(
                ctx@,
                if crate::auth::of_browser(ctx@) {
                    Some(csrf_token@)
                } else {
                    None
                },
            ),
        ),
{
    let token = if ctx.is_browser_session() {
        Some(csrf_token)
    } else {
        None
    };
    let user = JsonObject::new()
        .with("user_id", json::string(ctx.user_id.as_str()))
        .with("email", json::optional_string(&ctx.email))
        .with("orgs", json::string_array(&ctx.orgs))
        .finish();
    reply::no_store_json(
        200,
        JsonObject::new()
            .with("csrf_token", json::optional_string(&token))
            .with("user", user)
            .finish(),
    )
}

} // verus!
