//! API keys of a customer.
//!
//! The keys belong to the credential authority. What this module decides is which call to it
//! a request leads to, and what is told of its answer: an answer about another organisation,
//! or one that contradicts itself, is reported as a failure and never shown.

use vstd::prelude::*;
use vstd::string::*;

use crate::json;
use crate::json::{JsonNodes, JsonObject};
use crate::text;

verus! {

/// The longest name of a key.
pub const MAX_API_KEY_NAME_CHARS: usize = 100;

/// The length of a key's id.
pub const KEY_ID_CHARS: usize = 16;

/// The length of a key's secret part.
pub const KEY_SECRET_CHARS: usize = 64;

/// A key as the authority describes it.
#[derive(Debug)]
pub struct AuthKeyMeta {
    pub key_id: String,
    pub org_id: String,
    pub name: String,
    pub scopes: Vec<String>,
    pub env: String,
    pub last_used_ms: Option<u64>,
    pub revoked: bool,
    pub version: u64,
    pub require_idempotency: bool,
}

/// A key, as a mathematical value.
pub struct KeyView {
    pub key_id: Seq<char>,
    pub org_id: Seq<char>,
    pub name: Seq<char>,
    pub scopes: Seq<Seq<char>>,
    pub env: Seq<char>,
    pub last_used_ms: Option<u64>,
    pub revoked: bool,
    pub version: u64,
    pub require_idempotency: bool,
}

impl View for AuthKeyMeta {
    type V = KeyView;

    open spec fn view(&self) -> KeyView {
        KeyView {
            key_id: self.key_id@,
            org_id: self.org_id@,
            name: self.name@,
            scopes: text::views(self.scopes@),
            env: self.env@,
            last_used_ms: self.last_used_ms,
            revoked: self.revoked,
            version: self.version,
            require_idempotency: self.require_idempotency,
        }
    }
}

/// The authority's answer to a request for its keys.
pub struct AuthKeyListResponse {
    pub keys: Vec<AuthKeyMeta>,
}

/// The authority's answer to the creation of a key.
pub struct AuthKeyCreateResponse {
    pub api_key: String,
    pub key: AuthKeyMeta,
}

/// The authority's answer to the rotation of a key.
pub struct AuthKeyRotateResponse {
    pub api_key: String,
    pub key: AuthKeyMeta,
    pub overlap_seconds: u64,
}

/// The authority's answer to the revocation of a key.
pub struct AuthKeyRevokeResponse {
    pub revoked: bool,
}

/// A request for a new key.
#[derive(Debug)]
pub struct CreateCustomerApiKeyRequest {
    pub name: String,
    pub environment: String,
    pub scope: String,
    pub require_idempotency: Option<bool>,
}

/// A request for a new key, as a mathematical value.
pub struct RequestView {
    pub name: Seq<char>,
    pub environment: Seq<char>,
    pub scope: Seq<char>,
    pub require_idempotency: Option<bool>,
}

impl View for CreateCustomerApiKeyRequest {
    type V = RequestView;

    open spec fn view(&self) -> RequestView {
        RequestView {
            name: self.name@,
            environment: self.environment@,
            scope: self.scope@,
            require_idempotency: self.require_idempotency,
        }
    }
}

/// The scopes that a key can have.
pub open spec fn allowed_scopes() -> Seq<Seq<char>> {
    seq![
        "requests:read"@,
        "requests:write"@,
        "locks:read"@,
        "locks:write"@,
        "kv:read"@,
        "kv:write"@,
        "services:read"@,
        "services:write"@,
        "elections:read"@,
        "elections:write"@,
        "cron:read"@,
        "cron:write"@,
        "rate-limit:read"@,
        "rate-limit:write"@,
    ]
}

/// The scopes that a key can have.
pub fn allowed_api_key_scopes() -> (r: Vec<&'static str>)
    ensures
        text::slice_views(r@) == allowed_scopes(),
{
    let mut r: Vec<&'static str> = Vec::new();
    r.push("requests:read");
    r.push("requests:write");
    r.push("locks:read");
    r.push("locks:write");
    r.push("kv:read");
    r.push("kv:write");
    r.push("services:read");
    r.push("services:write");
    r.push("elections:read");
    r.push("elections:write");
    r.push("cron:read");
    r.push("cron:write");
    r.push("rate-limit:read");
    r.push("rate-limit:write");
    assert(text::slice_views(r@) =~= allowed_scopes());
    r
}

/// An environment that a key can belong to.
pub open spec fn is_environment(s: Seq<char>) -> bool {
    s == "live"@ || s == "test"@
}

/// Whether `s` is an environment that a key can belong to.
fn known_environment(s: &str) -> (r: bool)
    ensures
        r == is_environment(s@),
{
    text::same(s, "live") || text::same(s, "test")
}

/// The id of a key: lower-case hexadecimal digits.
pub open spec fn is_key_id(s: Seq<char>) -> bool {
    s.len() == KEY_ID_CHARS && text::all_lower_hex(s)
}

/// Whether `key_id` is the id of a key.
pub fn valid_key_id(key_id: &str) -> (r: bool)
    ensures
        r == is_key_id(key_id@),
{
    key_id.unicode_len() == KEY_ID_CHARS && text::only_lower_hex(key_id)
}

/// What is shown of a key in place of its secret.
pub open spec fn prefix_of(env: Seq<char>, key_id: Seq<char>) -> Seq<char> {
    "fdc_"@ + env + "_"@ + key_id
}

/// What is shown of a key in place of its secret.
fn key_prefix(env: &str, key_id: &str) -> (r: String)
    ensures
        r@ == prefix_of(env@, key_id@),
{
    let mut r = "fdc_".to_owned();
    r.append(env);
    r.append("_");
    r.append(key_id);
    r
}

/// The id in the prefix of a key.
pub open spec fn id_in_prefix(prefix: Seq<char>) -> Option<Seq<char>> {
    match text::suffix_after(prefix, "fdc_"@) {
        None => None,
        Some(rest) => match text::cut_once(rest, '_') {
            None => None,
            Some((env, id)) => if is_environment(env) && is_key_id(id) {
                Some(id)
            } else {
                None
            },
        },
    }
}

/// The id in the prefix of a key.
pub fn auth_key_id_from_prefix<'a>(prefix: &'a str) -> (r: Option<&'a str>)
    ensures
        text::opt_str_view(r) == id_in_prefix(prefix@),
{
    match text::strip_prefix(prefix, "fdc_") {
        None => None,
        Some(rest) => match text::split_once(rest, '_') {
            None => None,
            Some((env, id)) => if known_environment(env) && valid_key_id(id) {
                Some(id)
            } else {
                None
            },
        },
    }
}

/// Whether a plaintext key is the one described: its prefix, a full stop, and a secret.
pub open spec fn raw_matches(raw: Seq<char>, key: KeyView) -> bool {
    match text::suffix_after(raw, prefix_of(key.env, key.key_id) + "."@) {
        Some(secret) => secret.len() == KEY_SECRET_CHARS && text::all_lower_hex(secret),
        None => false,
    }
}

/// Whether a plaintext key is the one described.
pub fn raw_api_key_matches(raw: &str, key: &AuthKeyMeta) -> (r: bool)
    ensures
        r == raw_matches(raw@, key@),
{
    let mut prefix = key_prefix(key.env.as_str(), key.key_id.as_str());
    prefix.append(".");
    match text::strip_prefix(raw, prefix.as_str()) {
        Some(secret) => secret.unicode_len() == KEY_SECRET_CHARS && text::only_lower_hex(secret),
        None => false,
    }
}

/// A description that may be shown to a member of the organisation `org_id`.
pub open spec fn is_showable(key: KeyView, org_id: Seq<char>) -> bool {
    &&& key.org_id == org_id
    &&& is_key_id(key.key_id)
    &&& is_environment(key.env)
    &&& key.version != 0
    &&& forall|i: int|
        0 <= i < key.scopes.len() ==> allowed_scopes().contains(#[trigger] key.scopes[i])
}

/// What is shown of a key.
pub open spec fn shown(key: KeyView) -> JsonNodes {
    json::object_nodes(
        map![
            "id"@ => json::text_nodes(key.key_id),
            "name"@ => json::text_nodes(key.name),
            "prefix"@ => json::text_nodes(prefix_of(key.env, key.key_id)),
            "scopes"@ => json::text_nodes(text::joined(key.scopes, ", "@)),
            "last_used"@ => json::text_nodes(
                if key.last_used_ms is Some { "recently"@ } else { "never"@ },
            ),
            "status"@ => json::text_nodes(if key.revoked { "revoked"@ } else { "active"@ }),
            "environment"@ => json::text_nodes(key.env),
            "require_idempotency"@ => json::flag_nodes(key.require_idempotency),
            "version"@ => json::integer_nodes(key.version as int),
        ],
    )
}

/// Whether a description may be shown to a member of the organisation `org_id`.
fn showable(key: &AuthKeyMeta, org_id: &str) -> (r: bool)
    ensures
        r == is_showable(key@, org_id@),
{
    if !text::same(key.org_id.as_str(), org_id) || !valid_key_id(key.key_id.as_str())
        || !known_environment(key.env.as_str()) || key.version == 0 {
        return false;
    }
    let allowed = allowed_api_key_scopes();
    let mut i: usize = 0;
    while i < key.scopes.len()
        invariant
            i <= key.scopes.len(),
            text::slice_views(allowed@) == allowed_scopes(),
            forall|j: int|
                0 <= j < i ==> allowed_scopes().contains(#[trigger] text::views(key.scopes@)[j]),
        decreases key.scopes.len() - i,
    {
        assert(text::views(key.scopes@)[i as int] == key.scopes@[i as int]@);
        if !text::one_of(&allowed, key.scopes[i].as_str()) {
            assert(!allowed_scopes().contains(key@.scopes[i as int]));
            return false;
        }
        i += 1;
    }
    assert(text::views(key.scopes@).len() == key.scopes@.len());
    true
}

/// What is shown of a key to a member of the organisation `expected_org_id`.
pub fn auth_key_to_display(key: &AuthKeyMeta, expected_org_id: &str) -> (r: Result<
    serde_json::Value,
    &'static str,
>)
    ensures
        match r {
            Ok(display) => is_showable(key@, expected_org_id@) && json::json_nodes(display)
                == shown(key@),
            Err(reason) => !is_showable(key@, expected_org_id@) && reason@
                == "invalid key metadata"@,
        },
{
    if !showable(key, expected_org_id) {
        return Err("invalid key metadata");
    }
    let prefix = key_prefix(key.env.as_str(), key.key_id.as_str());
    let scopes = text::join(&key.scopes, ", ");
    let last_used = if key.last_used_ms.is_some() {
        "recently"
    } else {
        "never"
    };
    let status = if key.revoked {
        "revoked"
    } else {
        "active"
    };
    Ok(
        JsonObject::new()
            .with("id", json::string(key.key_id.as_str()))
            .with("name", json::string(key.name.as_str()))
            .with("prefix", json::string(prefix.as_str()))
            .with("scopes", json::string(scopes.as_str()))
            .with("last_used", json::string(last_used))
            .with("status", json::string(status))
            .with("environment", json::string(key.env.as_str()))
            .with("require_idempotency", json::flag(key.require_idempotency))
            .with("version", json::unsigned(key.version))
            .finish(),
    )
}

} // verus!
