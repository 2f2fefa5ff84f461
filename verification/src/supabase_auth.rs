//! Logins without a password, and second factors, by way of Supabase Auth.
//!
//! Codes by mail or text message are sent and redeemed there, and authenticator apps are
//! enrolled and challenged there. This module decides what is asked of Supabase, and what its
//! answers come to: whatever is not a clear success is an error, never a session.

use vstd::prelude::*;
use vstd::slice::*;
use vstd::string::*;

use crate::auth;
use crate::json;
use crate::json::{JsonNodes, JsonObject};
use crate::text;
use crate::upstream;
use crate::upstream::Verb;

verus! {

/// The longest mail address, in bytes.
pub const MAX_EMAIL_BYTES: usize = 320;

/// How much of an answer that cannot be understood is reported.
pub const MAX_REPORTED_CHARS: usize = 200;

/// How a code travels.
#[derive(Clone, Copy, Debug, PartialEq, Eq, Structural)]
pub enum OtpChannel {
    Email,
    Phone,
}

impl OtpChannel {
    /// The field of a request that names the recipient.
    pub open spec fn field_name(self) -> Seq<char> {
        match self {
            OtpChannel::Email => "email"@,
            OtpChannel::Phone => "phone"@,
        }
    }

    /// What Supabase calls the kind of code.
    pub open spec fn kind_name(self) -> Seq<char> {
        match self {
            OtpChannel::Email => "email"@,
            OtpChannel::Phone => "sms"@,
        }
    }

    /// The field of a request that names the recipient.
    pub fn field(self) -> (r: &'static str)
        ensures
            r@ == self.field_name(),
    {
        match self {
            OtpChannel::Email => "email",
            OtpChannel::Phone => "phone",
        }
    }

    /// What Supabase calls the kind of code.
    pub fn verify_type(self) -> (r: &'static str)
        ensures
            r@ == self.kind_name(),
    {
        match self {
            OtpChannel::Email => "email",
            OtpChannel::Phone => "sms",
        }
    }
}

/// A session as Supabase gives it out.
#[derive(Clone, Debug)]
pub struct SupabaseSession {
    pub access_token: String,
    pub refresh_token: Option<String>,
    pub token_type: Option<String>,
    pub expires_in: Option<i64>,
}

/// An authenticator factor of a user.
#[derive(Clone, Debug)]
pub struct Factor {
    pub id: String,
    pub factor_type: Option<String>,
    pub status: Option<String>,
    pub friendly_name: Option<String>,
}

/// A factor, as a mathematical value.
pub struct FactorView {
    pub id: Seq<char>,
    pub factor_type: Option<Seq<char>>,
    pub status: Option<Seq<char>>,
    pub friendly_name: Option<Seq<char>>,
}

impl View for Factor {
    type V = FactorView;

    open spec fn view(&self) -> FactorView {
        FactorView {
            id: self.id@,
            factor_type: text::opt_view(self.factor_type),
            status: text::opt_view(self.status),
            friendly_name: text::opt_view(self.friendly_name),
        }
    }
}

/// An authenticator app that its user has finished enrolling.
pub open spec fn verified_totp(factor: FactorView) -> bool {
    factor.factor_type == Some("totp"@) && factor.status == Some("verified"@)
}

/// Whether an optional text is the given one.
fn is_text(s: &Option<String>, wanted: &str) -> (r: bool)
    ensures
        r == (text::opt_view(*s) == Some(wanted@)),
{
    match s {
        Some(s) => text::same(s.as_str(), wanted),
        None => false,
    }
}

impl Factor {
    /// Whether this is an authenticator app that its user has finished enrolling.
    pub fn is_verified_totp(&self) -> (r: bool)
        ensures
            r == verified_totp(self@),
    {
        is_text(&self.factor_type, "totp") && is_text(&self.status, "verified")
    }
}

/// What an authenticator app needs to be enrolled.
#[derive(Clone, Debug)]
pub struct TotpEnrollment {
    pub factor_id: String,
    pub qr_code: String,
    pub secret: String,
    pub uri: String,
}

/// What an authenticator app needs to be enrolled, as a mathematical value.
pub struct EnrollmentView {
    pub factor_id: Seq<char>,
    pub qr_code: Seq<char>,
    pub secret: Seq<char>,
    pub uri: Seq<char>,
}

impl View for TotpEnrollment {
    type V = EnrollmentView;

    open spec fn view(&self) -> EnrollmentView {
        EnrollmentView {
            factor_id: self.factor_id@,
            qr_code: self.qr_code@,
            secret: self.secret@,
            uri: self.uri@,
        }
    }
}

/// A challenge that waits for the code of an authenticator app.
#[derive(Clone, Debug)]
pub struct TotpChallenge {
    pub challenge_id: String,
    pub factor_id: String,
}

/// Why something asked of Supabase did not come about.
#[derive(Debug)]
pub enum SupabaseAuthError {
    /// What the user typed is malformed; Supabase was not asked.
    Invalid(&'static str),
    /// Supabase refused, for this reason.
    Rejected(String),
    /// Supabase could not be reached or understood.
    Unavailable(String),
}

/// Why something did not come about, as a mathematical value.
pub enum ErrorView {
    Invalid(Seq<char>),
    Rejected(Seq<char>),
    Unavailable(Seq<char>),
}

impl View for SupabaseAuthError {
    type V = ErrorView;

    open spec fn view(&self) -> ErrorView {
        match self {
            SupabaseAuthError::Invalid(reason) => ErrorView::Invalid(reason@),
            SupabaseAuthError::Rejected(detail) => ErrorView::Rejected(detail@),
            SupabaseAuthError::Unavailable(detail) => ErrorView::Unavailable(detail@),
        }
    }
}

impl SupabaseAuthError {
    /// The error in words.
    pub open spec fn words(self) -> Seq<char> {
        match self@ {
            ErrorView::Invalid(reason) => "invalid input: "@ + reason,
            ErrorView::Rejected(detail) => "supabase rejected request: "@ + detail,
            ErrorView::Unavailable(detail) => "supabase unavailable: "@ + detail,
        }
    }

    /// The error in words.
    pub fn message(&self) -> (r: String)
        ensures
            r@ == self.words(),
    {
        match self {
            SupabaseAuthError::Invalid(reason) => text::cat("invalid input: ", reason),
            SupabaseAuthError::Rejected(detail) => text::cat(
                "supabase rejected request: ",
                detail.as_str(),
            ),
            SupabaseAuthError::Unavailable(detail) => text::cat(
                "supabase unavailable: ",
                detail.as_str(),
            ),
        }
    }
}

/// A result over texts, as a mathematical value.
pub open spec fn text_result(r: Result<String, SupabaseAuthError>) -> Result<Seq<char>, ErrorView> {
    match r {
        Ok(s) => Ok(s@),
        Err(error) => Err(error@),
    }
}

// What users type.

/// A text that can be a mail address: one `@` with something before it, and after it
/// something with an inner full stop.
pub open spec fn is_email(s: Seq<char>) -> bool {
    let parts = text::pieces(s, '@');
    &&& vstd::utf8::encode_utf8(s).len() <= MAX_EMAIL_BYTES
    &&& !text::has_white_space(s)
    &&& parts.len() == 2
    &&& parts[0].len() > 0
    &&& parts[1].contains('.')
    &&& parts[1][0] != '.'
    &&& parts[1].last() != '.'
}

/// A telephone number in the form of E.164: a `+` and 7 to 15 digits, the first not zero.
pub open spec fn is_e164(s: Seq<char>) -> bool {
    &&& s.len() > 0
    &&& s[0] == '+'
    &&& 7 <= s.len() - 1 <= 15
    &&& text::all_digits(s.skip(1))
    &&& s[1] != '0'
}

/// What a user types as a recipient, as it is sent to Supabase.
pub open spec fn normalized(channel: OtpChannel, identifier: Seq<char>) -> Result<
    Seq<char>,
    ErrorView,
> {
    match channel {
        OtpChannel::Email => {
            let email = text::trimmed(identifier);
            if is_email(email) {
                Ok(email)
            } else {
                Err(ErrorView::Invalid("email is not well-formed"@))
            }
        },
        OtpChannel::Phone => {
            let phone = text::without_white_space(text::trimmed(identifier));
            if is_e164(phone) {
                Ok(phone)
            } else {
                Err(ErrorView::Invalid("phone must be E.164, e.g. +14155550123"@))
            }
        },
    }
}

/// A code: 6 to 8 digits.
pub open spec fn is_code(s: Seq<char>) -> bool {
    6 <= s.len() <= 8 && text::all_digits(s)
}

/// What a user types as a code, as it is sent to Supabase.
pub open spec fn normalized_code(token: Seq<char>) -> Result<Seq<char>, ErrorView> {
    if is_code(text::trimmed(token)) {
        Ok(text::trimmed(token))
    } else {
        Err(ErrorView::Invalid("code must be 6–8 digits"@))
    }
}

/// Whether `value` can be a mail address.
pub fn is_plausible_email(value: &str) -> (r: bool)
    ensures
        r == is_email(value@),
{
    if text::byte_len(value) > MAX_EMAIL_BYTES || text::contains_white_space(value) {
        return false;
    }
    let parts = text::split(value, '@');
    let ghost all = text::slice_views(parts@);
    assert(all.len() == parts@.len());
    if parts.len() != 2 {
        return false;
    }
    let local = parts[0];
    let domain = parts[1];
    assert(all[0] == local@);
    assert(all[1] == domain@);
    if local.is_empty() || !text::contains_char(domain, '.') {
        return false;
    }
    let n = domain.unicode_len();
    assert(n > 0);
    domain.get_char(0) != '.' && domain.get_char(n - 1) != '.'
}

/// Whether `value` is a telephone number in the form of E.164.
pub fn is_e164_phone(value: &str) -> (r: bool)
    ensures
        r == is_e164(value@),
{
    let n = value.unicode_len();
    if n < 8 || n > 16 || value.get_char(0) != '+' {
        return false;
    }
    let digits = value.substring_char(1, n);
    assert(digits@ =~= value@.skip(1));
    text::only_digits(digits) && value.get_char(1) != '0'
}

/// What a user types as a recipient, as it is sent to Supabase.
pub fn normalize_identifier(channel: OtpChannel, identifier: &str) -> (r: Result<
    String,
    SupabaseAuthError,
>)
    ensures
        text_result(r) == normalized(channel, identifier@),
{
    let trimmed = text::trim(identifier);
    match channel {
        OtpChannel::Email => if is_plausible_email(trimmed) {
            Ok(trimmed.to_owned())
        } else {
            Err(SupabaseAuthError::Invalid("email is not well-formed"))
        },
        OtpChannel::Phone => {
            let compact = text::remove_white_space(trimmed);
            if is_e164_phone(compact.as_str()) {
                Ok(compact)
            } else {
                Err(SupabaseAuthError::Invalid("phone must be E.164, e.g. +14155550123"))
            }
        },
    }
}

/// What a user types as a code, as it is sent to Supabase.
pub fn normalize_otp_code(token: &str) -> (r: Result<String, SupabaseAuthError>)
    ensures
        text_result(r) == normalized_code(token@),
{
    let trimmed = text::trim(token);
    let n = trimmed.unicode_len();
    if 6 <= n && n <= 8 && text::only_digits(trimmed) {
        Ok(trimmed.to_owned())
    } else {
        Err(SupabaseAuthError::Invalid("code must be 6–8 digits"))
    }
}

// What is sent to Supabase.

/// The request for a code.
pub open spec fn otp_request(
    channel: OtpChannel,
    identifier: Seq<char>,
    allow_signup: bool,
) -> JsonNodes {
    json::object_nodes(
        map![
            channel.field_name() => json::text_nodes(identifier),
            "should_create_user"@ => json::flag_nodes(allow_signup),
        ],
    )
}

/// The request for a code. `allow_signup` lets unknown recipients register.
pub fn otp_request_body(channel: OtpChannel, identifier: &str, allow_signup: bool) -> (r:
    serde_json::Value)
    ensures
        json::json_nodes(r) == otp_request(channel, identifier@, allow_signup),
{
    JsonObject::new()
        .with(channel.field(), json::string(identifier))
        .with("should_create_user", json::flag(allow_signup))
        .finish()
}

/// The request that redeems a code.
pub open spec fn verify_request(
    channel: OtpChannel,
    identifier: Seq<char>,
    token: Seq<char>,
) -> JsonNodes {
    json::object_nodes(
        map![
            "type"@ => json::text_nodes(channel.kind_name()),
            channel.field_name() => json::text_nodes(identifier),
            "token"@ => json::text_nodes(token),
        ],
    )
}

/// The request that redeems a code.
pub fn verify_otp_body(channel: OtpChannel, identifier: &str, token: &str) -> (r: serde_json::Value)
    ensures
        json::json_nodes(r) == verify_request(channel, identifier@, token@),
{
    JsonObject::new()
        .with("type", json::string(channel.verify_type()))
        .with(channel.field(), json::string(identifier))
        .with("token", json::string(token))
        .finish()
}

/// The request to enroll an authenticator app, with a name where there is one.
pub open spec fn enroll_request(friendly_name: Seq<char>) -> JsonNodes {
    let bare = map!["factor_type"@ => json::text_nodes("totp"@)];
    let name = text::trimmed(friendly_name);
    json::object_nodes(
        if name.len() == 0 {
            bare
        } else {
            bare.insert("friendly_name"@, json::text_nodes(name))
        },
    )
}

/// The request to enroll an authenticator app.
pub fn enroll_totp_body(friendly_name: &str) -> (r: serde_json::Value)
    ensures
        json::json_nodes(r) == enroll_request(friendly_name@),
{
    let name = text::trim(friendly_name);
    let bare = JsonObject::new().with("factor_type", json::string("totp"));
    if name.is_empty() {
        bare.finish()
    } else {
        bare.with("friendly_name", json::string(name)).finish()
    }
}

/// The request that answers a challenge.
pub open spec fn factor_request(challenge_id: Seq<char>, code: Seq<char>) -> JsonNodes {
    json::object_nodes(
        map![
            "challenge_id"@ => json::text_nodes(challenge_id),
            "code"@ => json::text_nodes(code),
        ],
    )
}

/// The request that answers a challenge.
pub fn verify_factor_body(challenge_id: &str, code: &str) -> (r: serde_json::Value)
    ensures
        json::json_nodes(r) == factor_request(challenge_id@, code@),
{
    JsonObject::new()
        .with("challenge_id", json::string(challenge_id))
        .with("code", json::string(code))
        .finish()
}

/// A request to Supabase.
pub struct SupabaseCall {
    pub verb: Verb,
    pub url: String,
    pub apikey: String,
    /// The user's own token, where the request is made for a user.
    pub bearer: Option<String>,
    pub body: Option<serde_json::Value>,
}

/// A request to Supabase, as a mathematical value.
pub struct SupabaseCallView {
    pub verb: Verb,
    pub url: Seq<char>,
    pub apikey: Seq<char>,
    pub bearer: Option<Seq<char>>,
    pub body: Option<JsonNodes>,
}

impl View for SupabaseCall {
    type V = SupabaseCallView;

    open spec fn view(&self) -> SupabaseCallView {
        SupabaseCallView {
            verb: self.verb,
            url: self.url@,
            apikey: self.apikey@,
            bearer: text::opt_view(self.bearer),
            body: upstream::opt_nodes(self.body),
        }
    }
}

/// A Supabase project.
#[derive(Clone)]
pub struct SupabaseAuth {
    base_url: String,
    publishable_key: String,
}

/// A Supabase project, as a mathematical value.
pub struct ProjectView {
    pub base_url: Seq<char>,
    pub publishable_key: Seq<char>,
}

impl View for SupabaseAuth {
    type V = ProjectView;

    closed spec fn view(&self) -> ProjectView {
        ProjectView { base_url: self.base_url@, publishable_key: self.publishable_key@ }
    }
}

/// The address of a part of the Auth interface.
pub open spec fn endpoint_of(base_url: Seq<char>, path: Seq<char>) -> Seq<char> {
    base_url + "/auth/v1/"@ + text::drop_leading(path, '/')
}

/// A request to a project.
pub open spec fn call_of(
    project: ProjectView,
    verb: Verb,
    path: Seq<char>,
    bearer: Option<Seq<char>>,
    body: Option<JsonNodes>,
) -> SupabaseCallView {
    SupabaseCallView {
        verb,
        url: endpoint_of(project.base_url, path),
        apikey: project.publishable_key,
        bearer,
        body,
    }
}

/// A decision about a request, as a mathematical value.
pub open spec fn call_result(r: Result<SupabaseCall, SupabaseAuthError>) -> Result<
    SupabaseCallView,
    ErrorView,
> {
    match r {
        Ok(call) => Ok(call@),
        Err(error) => Err(error@),
    }
}

impl SupabaseAuth {
    /// The project at `base_url`, whose trailing slashes do not count.
    pub fn new(base_url: &str, publishable_key: &str) -> (r: SupabaseAuth)
        ensures
            r@ == (ProjectView {
                base_url: text::drop_trailing(base_url@, '/'),
                publishable_key: publishable_key@,
            }),
    {
        SupabaseAuth {
            base_url: text::trim_end_matches(base_url, '/').to_owned(),
            publishable_key: publishable_key.to_owned(),
        }
    }

    /// The address of a part of the Auth interface.
    pub fn endpoint(&self, path: &str) -> (r: String)
        ensures
            r@ == endpoint_of(self@.base_url, path@),
    {
        let mut r = text::cat(self.base_url.as_str(), "/auth/v1/");
        r.append(text::trim_start_matches(path, '/'));
        r
    }

    /// A request to the project.
    fn call(
        &self,
        verb: Verb,
        path: &str,
        bearer: Option<&str>,
        body: Option<serde_json::Value>,
    ) -> (r: SupabaseCall)
        ensures
            r@ == call_of(self@, verb, path@, text::opt_str_view(bearer), upstream::opt_nodes(body)),
    {
        SupabaseCall {
            verb,
            url: self.endpoint(path),
            apikey: self.publishable_key.clone(),
            bearer: match bearer {
                Some(token) => Some(token.to_owned()),
                None => None,
            },
            body,
        }
    }

    /// The request for a code. `allow_signup` lets unknown recipients register.
    pub fn send_otp(&self, channel: OtpChannel, identifier: &str, allow_signup: bool) -> (r: Result<
        SupabaseCall,
        SupabaseAuthError,
    >)
        ensures
            call_result(r) == match normalized(channel, identifier@) {
                Ok(recipient) => Ok::<SupabaseCallView, ErrorView>(
                    call_of(
                        self@,
                        Verb::Post,
                        "otp"@,
                        None,
                        Some(otp_request(channel, recipient, allow_signup)),
                    ),
                ),
                Err(error) => Err(error),
            },
            r matches Ok(call) ==> call.verb == Verb::Post && call@.url == self@.base_url
                + "/auth/v1/otp"@ && call.bearer is None,
    {
        proof {
            reveal_strlit("otp");
            reveal_strlit("/auth/v1/");
            reveal_strlit("/auth/v1/otp");
            assert(endpoint_of(self@.base_url, "otp"@) =~= self@.base_url + "/auth/v1/otp"@);
        }
        match normalize_identifier(channel, identifier) {
            Ok(recipient) => Ok(
                self.call(
                    Verb::Post,
                    "otp",
                    None,
                    Some(otp_request_body(channel, recipient.as_str(), allow_signup)),
                ),
            ),
            Err(error) => Err(error),
        }
    }

    /// The request that redeems a code for a session.
    pub fn verify_otp(&self, channel: OtpChannel, identifier: &str, token: &str) -> (r: Result<
        SupabaseCall,
        SupabaseAuthError,
    >)
        ensures
            call_result(r) == match (normalized(channel, identifier@), normalized_code(token@)) {
                (Ok(recipient), Ok(code)) => Ok::<SupabaseCallView, ErrorView>(
                    call_of(
                        self@,
                        Verb::Post,
                        "verify"@,
                        None,
                        Some(verify_request(channel, recipient, code)),
                    ),
                ),
                (Err(error), _) => Err(error),
                (Ok(_), Err(error)) => Err(error),
            },
            r matches Ok(call) ==> call.verb == Verb::Post && call@.url == self@.base_url
                + "/auth/v1/verify"@ && call.bearer is None,
    {
        proof {
            reveal_strlit("verify");
            reveal_strlit("/auth/v1/");
            reveal_strlit("/auth/v1/verify");
            assert(endpoint_of(self@.base_url, "verify"@) =~= self@.base_url + "/auth/v1/verify"@);
        }
        let recipient = match normalize_identifier(channel, identifier) {
            Ok(recipient) => recipient,
            Err(error) => return Err(error),
        };
        let code = match normalize_otp_code(token) {
            Ok(code) => code,
            Err(error) => return Err(error),
        };
        Ok(
            self.call(
                Verb::Post,
                "verify",
                None,
                Some(verify_otp_body(channel, recipient.as_str(), code.as_str())),
            ),
        )
    }

    /// The request for a user, whose answer lists the user's factors.
    pub fn list_factors(&self, access_token: &str) -> (r: SupabaseCall)
        ensures
            r@ == call_of(self@, Verb::Get, "user"@, Some(access_token@), None),
            r.verb == Verb::Get,
            r@.url == self@.base_url + "/auth/v1/user"@,
            r@.bearer == Some(access_token@),
    {
        proof {
            reveal_strlit("user");
            reveal_strlit("/auth/v1/");
            reveal_strlit("/auth/v1/user");
            assert(endpoint_of(self@.base_url, "user"@) =~= self@.base_url + "/auth/v1/user"@);
        }
        self.call(Verb::Get, "user", Some(access_token), None)
    }

    /// The request to enroll an authenticator app.
    pub fn enroll_totp(&self, access_token: &str, friendly_name: &str) -> (r: SupabaseCall)
        ensures
            r@ == call_of(
                self@,
                Verb::Post,
                "factors"@,
                Some(access_token@),
                Some(enroll_request(friendly_name@)),
            ),
            r.verb == Verb::Post,
            r@.url == self@.base_url + "/auth/v1/factors"@,
            r@.bearer == Some(access_token@),
    {
        proof {
            reveal_strlit("factors");
            reveal_strlit("/auth/v1/");
            reveal_strlit("/auth/v1/factors");
            assert(endpoint_of(self@.base_url, "factors"@) =~= self@.base_url
                + "/auth/v1/factors"@);
        }
        self.call(
            Verb::Post,
            "factors",
            Some(access_token),
            Some(enroll_totp_body(friendly_name)),
        )
    }

    /// The request to challenge an enrolled factor.
    pub fn challenge(&self, access_token: &str, factor_id: &str) -> (r: SupabaseCall)
        ensures
            r@ == call_of(
                self@,
                Verb::Post,
                "factors/"@ + factor_id@ + "/challenge"@,
                Some(access_token@),
                Some(json::object_nodes(Map::empty())),
            ),
            r.verb == Verb::Post,
            r@.url == self@.base_url + "/auth/v1/factors/"@ + factor_id@ + "/challenge"@,
            r@.bearer == Some(access_token@),
    {
        proof {
            reveal_strlit("factors/");
            reveal_strlit("/auth/v1/");
            reveal_strlit("/auth/v1/factors/");
            let part = "factors/"@ + factor_id@ + "/challenge"@;
            assert(part[0] == 'f');
            assert(endpoint_of(self@.base_url, part) =~= self@.base_url + "/auth/v1/factors/"@
                + factor_id@ + "/challenge"@);
        }
        let mut path = text::cat("factors/", factor_id);
        path.append("/challenge");
        self.call(
            Verb::Post,
            path.as_str(),
            Some(access_token),
            Some(JsonObject::new().finish()),
        )
    }

    /// The request that answers a challenge with a code.
    pub fn verify_factor(&self, access_token: &str, challenge: &TotpChallenge, code: &str) -> (r:
        Result<SupabaseCall, SupabaseAuthError>)
        ensures
            call_result(r) == match normalized_code(code@) {
                Ok(code) => Ok::<SupabaseCallView, ErrorView>(
                    call_of(
                        self@,
                        Verb::Post,
                        "factors/"@ + challenge.factor_id@ + "/verify"@,
                        Some(access_token@),
                        Some(factor_request(challenge.challenge_id@, code)),
                    ),
                ),
                Err(error) => Err(error),
            },
            r matches Ok(call) ==> call.verb == Verb::Post && call@.url == self@.base_url
                + "/auth/v1/factors/"@ + challenge.factor_id@ + "/verify"@ && call@.bearer == Some(
                access_token@,
            ),
    {
        proof {
            reveal_strlit("factors/");
            reveal_strlit("/auth/v1/");
            reveal_strlit("/auth/v1/factors/");
            let part = "factors/"@ + challenge.factor_id@ + "/verify"@;
            assert(part[0] == 'f');
            assert(endpoint_of(self@.base_url, part) =~= self@.base_url + "/auth/v1/factors/"@
                + challenge.factor_id@ + "/verify"@);
        }
        let code = match normalize_otp_code(code) {
            Ok(code) => code,
            Err(error) => return Err(error),
        };
        let mut path = text::cat("factors/", challenge.factor_id.as_str());
        path.append("/verify");
        Ok(
            self.call(
                Verb::Post,
                path.as_str(),
                Some(access_token),
                Some(verify_factor_body(challenge.challenge_id.as_str(), code.as_str())),
            ),
        )
    }

    /// The request to remove an enrolled factor.
    pub fn unenroll(&self, access_token: &str, factor_id: &str) -> (r: SupabaseCall)
        ensures
            r@ == call_of(
                self@,
                Verb::Delete,
                "factors/"@ + factor_id@,
                Some(access_token@),
                None,
            ),
            r.verb == Verb::Delete,
            r@.url == self@.base_url + "/auth/v1/factors/"@ + factor_id@,
            r@.bearer == Some(access_token@),
    {
        proof {
            reveal_strlit("factors/");
            reveal_strlit("/auth/v1/");
            reveal_strlit("/auth/v1/factors/");
            let part = "factors/"@ + factor_id@;
            assert(part[0] == 'f');
            assert(endpoint_of(self@.base_url, part) =~= self@.base_url + "/auth/v1/factors/"@
                + factor_id@);
        }
        let path = text::cat("factors/", factor_id);
        self.call(Verb::Delete, path.as_str(), Some(access_token), None)
    }
}

// Who must show a second factor.

/// The views of a list of factors.
pub open spec fn factor_views(factors: Seq<Factor>) -> Seq<FactorView> {
    factors.map_values(|f: Factor| f@)
}

/// The id of the first authenticator app that its user has finished enrolling.
pub open spec fn first_verified(factors: Seq<FactorView>) -> Option<Seq<char>>
    decreases factors.len(),
{
    if factors.len() == 0 {
        None
    } else if verified_totp(factors[0]) {
        Some(factors[0].id)
    } else {
        first_verified(factors.drop_first())
    }
}

/// The factor that a user must show beside the first, where there is one.
pub fn required_totp_factor(factors: &[Factor]) -> (r: Option<String>)
    ensures
        text::opt_view(r) == first_verified(factor_views(factors@)),
{
    let ghost all = factor_views(factors@);
    let mut i: usize = 0;
    assert(all.skip(0) =~= all);
    while i < factors.len()
        invariant
            i <= factors.len(),
            all == factor_views(factors@),
            first_verified(all) == first_verified(all.skip(i as int)),
        decreases factors.len() - i,
    {
        let ghost rest = all.skip(i as int);
        assert(rest[0] == factors@[i as int]@);
        assert(rest.drop_first() =~= all.skip(i + 1));
        if factors[i].is_verified_totp() {
            return Some(factors[i].id.clone());
        }
        i += 1;
    }
    None
}

} // verus!
