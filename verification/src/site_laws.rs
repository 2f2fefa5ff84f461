//! What the site as a whole, its headers and its table of keys guarantee.

use axum::http::HeaderMap;
use vstd::prelude::*;
use vstd::string::*;

use crate::auth::CustomerView;
use crate::headers;
use crate::json;
use crate::json::JsonNodes;
use crate::key_table;
use crate::orgs;
use crate::reply::ReplyView;
use crate::security;
use crate::site;
use crate::site::UriView;
use crate::text;
use crate::text_laws;

verus! {

/// A setting that must not be blank is used as it is, and a blank one is as good as none.
pub proof fn law_settings_are_used_as_given(s: Seq<char>)
    ensures
        text::trimmed(s).len() > 0 ==> site::filled(Some(s)) == Some(s),
        text::trimmed(s).len() == 0 ==> site::filled(Some(s)) is None,
        site::filled(None) is None,
{
}

/// Every plain web origin is accepted, with or without a slash behind it, and is used without
/// that slash.
pub proof fn law_plain_origins_are_accepted(
    scheme: Seq<char>,
    authority: Seq<char>,
    slash: bool,
    path: Option<Seq<char>>,
)
    requires
        scheme == "http"@ || scheme == "https"@,
        !authority.contains('@'),
        path is None || path == Some("/"@),
        headers::is_value(scheme + "://"@ + authority),
    ensures
        ({
            let origin = scheme + "://"@ + authority;
            let value = if slash {
                origin + "/"@
            } else {
                origin
            };
            site::origin_of(
                value,
                Some(
                    UriView {
                        scheme: Some(scheme),
                        authority: Some(authority),
                        path_and_query: path,
                    },
                ),
            ) == Ok::<Seq<u8>, Seq<char>>(vstd::utf8::encode_utf8(origin))
        }),
{
}

/// What is wrong with an origin is told: the first of no address, no web scheme and plain host, a
/// path, more than one origin, and what no header can hold.
pub proof fn law_refused_origins_are_told_why(value: Seq<char>, uri: UriView)
    ensures
        site::origin_of(value, None) == Err::<Seq<u8>, Seq<char>>(
            "CUSTOMER_APP_ORIGIN must be an absolute http(s) origin"@,
        ),
        ({
            let r = site::origin_of(value, Some(uri));
            let web = uri.scheme == Some("http"@) || uri.scheme == Some("https"@);
            let plain = web && uri.authority is Some && !uri.authority->0.contains('@');
            let bare = uri.path_and_query is None || uri.path_and_query == Some("/"@);
            let origin = uri.scheme->0 + "://"@ + uri.authority->0;
            let exact = value == origin || value == origin + "/"@;
            &&& r is Ok <==> plain && bare && exact && headers::is_value(origin)
            &&& !plain ==> r == Err::<Seq<u8>, Seq<char>>(
                "CUSTOMER_APP_ORIGIN must contain only an http(s) scheme and host"@,
            )
            &&& plain && !bare ==> r == Err::<Seq<u8>, Seq<char>>(
                "CUSTOMER_APP_ORIGIN must not contain a path, query, or fragment"@,
            )
            &&& plain && bare && !exact ==> r == Err::<Seq<u8>, Seq<char>>(
                "CUSTOMER_APP_ORIGIN must be a single exact origin"@,
            )
            &&& plain && bare && exact && !headers::is_value(origin) ==> r == Err::<
                Seq<u8>,
                Seq<char>,
            >("CUSTOMER_APP_ORIGIN is not a valid HTTP header origin"@)
        }),
{
}

/// A request is for the portal where its host, up to a port, is the portal's in either case of
/// its letters, or where the site is nothing else; one without a readable host is not.
pub proof fn law_the_portal_is_known_by_its_host(
    bytes: Seq<u8>,
    name: Seq<char>,
    port: Seq<char>,
    portal: Seq<char>,
    host: Option<Seq<u8>>,
)
    requires
        !name.contains(':'),
    ensures
        site::is_for_portal(host, portal, true),
        !site::is_for_portal(None, portal, false),
        headers::readable(bytes) is None ==> !site::is_for_portal(Some(bytes), portal, false),
        headers::readable(bytes) == Some(name) || headers::readable(bytes) == Some(
            name + seq![':'] + port,
        ) ==> (site::is_for_portal(Some(bytes), portal, false) <==> text::lowered(name)
            == text::lowered(portal)),
{
    text_laws::law_cuts_are_at_the_first(name, ':', port);
    let long = name + seq![':'] + port;
    assert(text::pieces(long, ':')[0] =~= name);
    assert(text::pieces(name, ':')[0] =~= name);
}

/// A page is about the organisation that its caller may see it for; from the wrong host it is
/// rejected with the reason.
pub proof fn law_pages_are_for_the_right_host(
    ctx: CustomerView,
    reason: Seq<char>,
    header: Option<Seq<u8>>,
    explicit: Option<Seq<char>>,
)
    ensures
        site::page_access(ctx, Some(reason), header, explicit) == Err::<Seq<char>, ReplyView>(
            security::rejection(reason),
        ),
        site::page_access(ctx, None, header, explicit) == orgs::page_org(
            ctx.orgs,
            header,
            explicit,
        ),
{
}

/// A service that is alive says so, and which it is.
pub proof fn law_the_living_say_so()
    ensures
        json::has_keys(site::health_nodes(), set!["status"@, "service"@]),
        json::member_text(site::health_nodes(), "status"@) == Some("ok"@),
        json::member_text(site::health_nodes(), "service"@) == Some("fiducia-backend"@),
{
    reveal_strlit("status");
    reveal_strlit("service");
    assert("status"@.len() == 6);
    assert("service"@.len() == 7);
    let members = map![
        "status"@ => json::text_nodes("ok"@),
        "service"@ => json::text_nodes("fiducia-backend"@),
    ];
    json::lemma_object_reads(members);
    assert(members.dom() =~= set!["status"@, "service"@]);
    assert(members["status"@] == json::text_nodes("ok"@));
    assert(members["service"@] == json::text_nodes("fiducia-backend"@));
}

/// A header value is readable exactly where it is visible ASCII, spaces and tabs, and its text is
/// then its bytes, letter for letter.
pub proof fn law_header_values_are_read_letter_for_letter(bytes: Seq<u8>)
    ensures
        headers::readable(bytes) is Some <==> forall|i: int|
            0 <= i < bytes.len() ==> (' ' as u32 <= #[trigger] bytes[i] <= '~' as u32 || bytes[i]
                == 9),
        headers::readable(bytes) matches Some(s) ==> s.len() == bytes.len() && forall|i: int|
            0 <= i < s.len() ==> #[trigger] s[i] as u32 == bytes[i],
{
    if headers::readable(bytes) is Some {
        assert forall|i: int| 0 <= i < bytes.len() implies (' ' as u32 <= #[trigger] bytes[i]
            <= '~' as u32 || bytes[i] == 9) by {
            assert(headers::is_visible(bytes[i]));
        }
    }
}

/// A text can be sent as a header value exactly where none of its bytes is a control character
/// other than the tab.
pub proof fn law_header_values_hold_no_controls(s: Seq<char>)
    ensures
        headers::is_value(s) <==> forall|i: int|
            0 <= i < vstd::utf8::encode_utf8(s).len() ==> ({
                let b = #[trigger] vstd::utf8::encode_utf8(s)[i];
                b == 9 || (b >= 32 && b != 127)
            }),
{
    let bytes = vstd::utf8::encode_utf8(s);
    if headers::is_value(s) {
        assert forall|i: int| 0 <= i < bytes.len() implies ({
            let b = #[trigger] bytes[i];
            b == 9 || (b >= 32 && b != 127)
        }) by {
            assert(headers::is_value_byte(bytes[i]));
        }
    } else {
        let i = choose|i: int|
            0 <= i < bytes.len() && !headers::is_value_byte(#[trigger] bytes[i]);
        assert(bytes[i] != 9);
    }
}

/// The values of a header are those that the request has under its name, in order; the first is
/// the first of them, and each is read by itself.
pub proof fn law_headers_have_their_values(headers: HeaderMap, name: Seq<char>, i: int)
    ensures
        headers::header_contents(headers).contains_key(name) ==> headers::values_of(headers, name)
            == headers::header_contents(headers)[name],
        !headers::header_contents(headers).contains_key(name) ==> headers::values_of(
            headers,
            name,
        ).len() == 0,
        headers::values_of(headers, name).len() == 0 ==> headers::first_value(
            headers,
            name,
        ) is None,
        headers::values_of(headers, name).len() > 0 ==> headers::first_value(headers, name)
            == Some(headers::values_of(headers, name)[0]),
        headers::texts_of(headers, name).len() == headers::values_of(headers, name).len(),
        0 <= i < headers::values_of(headers, name).len() ==> headers::texts_of(headers, name)[i]
            == headers::readable(headers::values_of(headers, name)[i]),
{
}

/// The names of the headers that requests are read by.
pub proof fn law_header_names()
    ensures
        headers::CUSTOMER_ORG_HEADER@ == "x-fiducia-org-id"@,
        headers::IDEMPOTENCY_KEY_HEADER@ == "idempotency-key"@,
        headers::CUSTOMER_CSRF_HEADER@ == "x-fiducia-csrf"@,
        headers::AUTHORIZATION@ == "authorization"@,
        headers::COOKIE@ == "cookie"@,
        headers::HOST@ == "host"@,
        security::CUSTOMER_WS_PATH@ == "/app/ws"@,
        security::CUSTOMER_EVENTS_PATH@ == "/app/events"@,
{
}

/// A line of the table tells each text of what is shown of a key under its own name, and nothing
/// where there is no such text; it can be acted on exactly where its status is active.
pub proof fn law_lines_tell_what_is_shown(display: JsonNodes)
    ensures
        ({
            let row = key_table::row_of(display);
            let told = |key: Seq<char>, cell: Seq<char>|
                match json::member_text(display, key) {
                    Some(s) => cell == s,
                    None => cell.len() == 0,
                };
            &&& told("name"@, row.name)
            &&& told("prefix"@, row.prefix)
            &&& told("environment"@, row.environment)
            &&& told("scopes"@, row.scopes)
            &&& told("status"@, row.status)
            &&& row.active <==> json::member_text(display, "status"@) == Some("active"@)
        }),
{
    reveal_strlit("");
}

} // verus!
