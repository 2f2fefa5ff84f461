//! What the answers of Supabase Auth come to.

use vstd::prelude::*;
use vstd::string::*;

use crate::auth;
use crate::json;
use crate::json::JsonNodes;
use crate::supabase_auth;
use crate::supabase_auth::{
    EnrollmentView, ErrorView, Factor, SupabaseAuthError, SupabaseSession, TotpChallenge,
    TotpEnrollment,
};
use crate::text;

verus! {

/// What became of a request.
pub enum SupabaseOutcome {
    /// No answer came, or its body could not be read; this is the reason.
    Failed(String),
    /// An answer came, with this status and body.
    Answered(u16, String),
}

/// What became of a request, as a mathematical value.
pub enum SupabaseOutcomeView {
    Failed(Seq<char>),
    Answered(int, Seq<char>),
}

impl View for SupabaseOutcome {
    type V = SupabaseOutcomeView;

    open spec fn view(&self) -> SupabaseOutcomeView {
        match self {
            SupabaseOutcome::Failed(reason) => SupabaseOutcomeView::Failed(reason@),
            SupabaseOutcome::Answered(status, body) => SupabaseOutcomeView::Answered(
                *status as int,
                body@,
            ),
        }
    }
}

/// The member `key` of a document, where it is a text and not empty.
pub open spec fn filled_member(document: JsonNodes, key: Seq<char>) -> Option<Seq<char>> {
    match json::member_text(document, key) {
        Some(s) => if s.len() > 0 {
            Some(s)
        } else {
            None
        },
        None => None,
    }
}

/// The reason that a document gives: the first of its filled members under these keys.
pub open spec fn reason_in(document: JsonNodes) -> Option<Seq<char>> {
    if let Some(s) = filled_member(document, "error_description"@) {
        Some(s)
    } else if let Some(s) = filled_member(document, "msg"@) {
        Some(s)
    } else if let Some(s) = filled_member(document, "message"@) {
        Some(s)
    } else {
        filled_member(document, "error"@)
    }
}

/// The beginning of a text.
pub open spec fn beginning(s: Seq<char>, n: int) -> Seq<char> {
    if s.len() <= n {
        s
    } else {
        s.take(n)
    }
}

/// The reason for a refusal: what the body says as a document, else the beginning of the body.
pub open spec fn refusal_reason(body: Seq<char>, document: Option<JsonNodes>) -> Seq<char> {
    let said = match document {
        Some(nodes) => reason_in(nodes),
        None => None,
    };
    match said {
        Some(reason) => reason,
        None => if text::trimmed(body).len() == 0 {
            "supabase returned a non-success status with no body"@
        } else {
            beginning(text::trimmed(body), supabase_auth::MAX_REPORTED_CHARS as int)
        },
    }
}

/// The document that a text denotes, if it is JSON.
pub open spec fn document_of(s: Seq<char>) -> Option<JsonNodes> {
    match json::json_document(s) {
        Ok(nodes) => Some(nodes),
        Err(_) => None,
    }
}

/// The member `key` of a document, where it is a text and not empty.
fn filled_text(document: &serde_json::Value, key: &str) -> (r: Option<String>)
    ensures
        text::opt_view(r) == filled_member(json::json_nodes(*document), key@),
{
    match json::text_member(document, key) {
        Some(s) => if s.is_empty() {
            None
        } else {
            Some(s.to_owned())
        },
        None => None,
    }
}

/// The reason for a refusal, given its body and, where that is JSON, the document.
pub fn error_message_in(body: &str, document: Option<&serde_json::Value>) -> (r: String)
    ensures
        r@ == refusal_reason(
            body@,
            match document {
                Some(value) => Some(json::json_nodes(*value)),
                None => None,
            },
        ),
{
    if let Some(value) = document {
        if let Some(s) = filled_text(value, "error_description") {
            return s;
        }
        if let Some(s) = filled_text(value, "msg") {
            return s;
        }
        if let Some(s) = filled_text(value, "message") {
            return s;
        }
        if let Some(s) = filled_text(value, "error") {
            return s;
        }
    }
    let trimmed = text::trim(body);
    if trimmed.is_empty() {
        "supabase returned a non-success status with no body".to_owned()
    } else if trimmed.unicode_len() <= supabase_auth::MAX_REPORTED_CHARS {
        trimmed.to_owned()
    } else {
        let start = trimmed.substring_char(0, supabase_auth::MAX_REPORTED_CHARS);
        assert(start@ =~= text::trimmed(body@).take(supabase_auth::MAX_REPORTED_CHARS as int));
        start.to_owned()
    }
}

/// The reason for a refusal with the given body.
pub fn extract_error_message(body: &str) -> (r: String)
    ensures
        r@ == refusal_reason(body@, document_of(body@)),
{
    match json::parse(body) {
        Ok(document) => error_message_in(body, Some(&document)),
        Err(_) => error_message_in(body, None),
    }
}

/// The body of a success, of which a blank one counts as null.
pub open spec fn success_body(body: Seq<char>, document: Result<JsonNodes, Seq<char>>) -> Result<
    JsonNodes,
    ErrorView,
> {
    if text::trimmed(body).len() == 0 {
        Ok(json::null_nodes())
    } else {
        match document {
            Ok(nodes) => Ok(nodes),
            Err(message) => Err(ErrorView::Unavailable(message)),
        }
    }
}

/// What an answer comes to: the document of a success, or the error.
pub open spec fn expected(outcome: SupabaseOutcomeView) -> Result<JsonNodes, ErrorView> {
    match outcome {
        SupabaseOutcomeView::Failed(reason) => Err(ErrorView::Unavailable(reason)),
        SupabaseOutcomeView::Answered(status, body) => if auth::is_success(status) {
            success_body(body, json::json_document(body))
        } else {
            Err(ErrorView::Rejected(refusal_reason(body, document_of(body))))
        },
    }
}

/// A document or an error, as a mathematical value.
pub open spec fn document_result(r: Result<serde_json::Value, SupabaseAuthError>) -> Result<
    JsonNodes,
    ErrorView,
> {
    match r {
        Ok(value) => Ok(json::json_nodes(value)),
        Err(error) => Err(error@),
    }
}

/// The body of a success, given what parsing it gave.
pub fn success_document(body: &str, parsed: Result<serde_json::Value, String>) -> (r: Result<
    serde_json::Value,
    SupabaseAuthError,
>)
    ensures
        document_result(r) == success_body(
            body@,
            match parsed {
                Ok(value) => Ok::<JsonNodes, Seq<char>>(json::json_nodes(value)),
                Err(message) => Err(message@),
            },
        ),
{
    if text::trim(body).is_empty() {
        return Ok(json::null());
    }
    match parsed {
        Ok(value) => Ok(value),
        Err(message) => Err(SupabaseAuthError::Unavailable(message)),
    }
}

/// What an answer comes to: the document of a success, or the error.
pub fn expect_success(outcome: SupabaseOutcome) -> (r: Result<serde_json::Value, SupabaseAuthError>)
    ensures
        document_result(r) == expected(outcome@),
{
    match outcome {
        SupabaseOutcome::Failed(reason) => Err(SupabaseAuthError::Unavailable(reason)),
        SupabaseOutcome::Answered(status, body) => {
            if auth::success(status) {
                let parsed = json::parse(body.as_str());
                success_document(body.as_str(), parsed)
            } else {
                Err(SupabaseAuthError::Rejected(extract_error_message(body.as_str())))
            }
        },
    }
}

/// The session of an answer that was read as one, if it has a token.
pub fn parse_session(decoded: Option<SupabaseSession>) -> (r: Result<
    SupabaseSession,
    SupabaseAuthError,
>)
    ensures
        match r {
            Ok(session) => decoded == Some(session) && text::trimmed(session.access_token@).len()
                > 0,
            Err(error) => (decoded matches Some(session) ==> text::trimmed(
                session.access_token@,
            ).len() == 0) && error@ == ErrorView::Unavailable(
                "session response missing access_token"@,
            ),
        },
        decoded is None ==> r is Err,
        decoded matches Some(session) ==> (r is Ok <==> text::trimmed(session.access_token@).len()
            > 0),
{
    if let Some(session) = decoded {
        if !text::trim(session.access_token.as_str()).is_empty() {
            return Ok(session);
        }
    }
    Err(SupabaseAuthError::Unavailable("session response missing access_token".to_owned()))
}

/// The items under `factors` in the document of a user.
pub open spec fn factor_documents(document: JsonNodes) -> Seq<JsonNodes> {
    match json::member(document, "factors"@) {
        Some(factors) => match json::as_items(factors) {
            Some(items) => items,
            None => Seq::empty(),
        },
        None => Seq::empty(),
    }
}

/// The items under `factors` in the document of a user.
pub fn factor_items(document: &serde_json::Value) -> (r: Vec<serde_json::Value>)
    ensures
        json::nodes_of(r@) == factor_documents(json::json_nodes(*document)),
{
    let mut items: Vec<serde_json::Value> = Vec::new();
    assert(json::nodes_of(items@) =~= Seq::empty());
    if let Some(factors) = json::get(document, "factors") {
        if let Some(all) = json::as_array(factors) {
            let mut i: usize = 0;
            while i < all.len()
                invariant
                    i <= all.len(),
                    items@.len() == i,
                    forall|j: int|
                        0 <= j < i ==> json::json_nodes(#[trigger] items@[j]) == json::json_nodes(
                            all@[j],
                        ),
                decreases all.len() - i,
            {
                items.push(json::copy_of(&all[i]));
                i += 1;
            }
            assert(json::nodes_of(items@) =~= json::nodes_of(all@));
        }
    }
    items
}

/// The factors among items that were read as such; an item that could not be is passed over.
pub open spec fn read_factors(decoded: Seq<Option<Factor>>) -> Seq<Factor>
    decreases decoded.len(),
{
    if decoded.len() == 0 {
        Seq::empty()
    } else {
        let before = read_factors(decoded.drop_last());
        match decoded.last() {
            Some(factor) => before.push(factor),
            None => before,
        }
    }
}

/// The factors among items that were read as such.
pub fn parse_factors(decoded: Vec<Option<Factor>>) -> (r: Vec<Factor>)
    ensures
        r@ == read_factors(decoded@),
{
    let ghost all = decoded@;
    let mut rest = decoded;
    let mut reversed: Vec<Factor> = Vec::new();
    assert(all.take(all.len() as int) =~= all);
    assert(reversed@.reverse() =~= Seq::empty());
    while rest.len() > 0
        invariant
            rest@ == all.take(rest@.len() as int),
            rest@.len() <= all.len(),
            read_factors(all) == read_factors(rest@) + reversed@.reverse(),
        decreases rest.len(),
    {
        let ghost before = rest@;
        let ghost collected = reversed@;
        match rest.pop() {
            Some(Some(factor)) => {
                reversed.push(factor);
                proof {
                    assert(before.last() == Some(factor));
                    assert(before.drop_last() =~= rest@);
                    assert(reversed@.reverse() =~= seq![factor] + collected.reverse());
                    assert(read_factors(rest@).push(factor) + collected.reverse() =~= read_factors(
                        rest@,
                    ) + reversed@.reverse());
                }
            },
            Some(None) => {
                assert(before.drop_last() =~= rest@);
            },
            None => {},
        }
        assert(rest@ =~= all.take(rest@.len() as int));
    }
    let mut factors: Vec<Factor> = Vec::new();
    let ghost target = reversed@.reverse();
    assert(read_factors(all) =~= target);
    while reversed.len() > 0
        invariant
            factors@ + reversed@.reverse() == target,
        decreases reversed.len(),
    {
        let ghost left = reversed@;
        let ghost done = factors@;
        if let Some(factor) = reversed.pop() {
            factors.push(factor);
            proof {
                assert(left =~= reversed@.push(factor));
                assert(left.reverse() =~= seq![factor] + reversed@.reverse());
                assert(factors@ + reversed@.reverse() =~= done + left.reverse());
            }
        }
    }
    assert(factors@ =~= target);
    factors
}

/// A text of an optional document, or an empty one.
pub open spec fn text_or_empty(document: Option<JsonNodes>, key: Seq<char>) -> Seq<char> {
    match document {
        Some(nodes) => match json::member_text(nodes, key) {
            Some(s) => s,
            None => ""@,
        },
        None => ""@,
    }
}

/// What the answer to an enrollment says.
pub open spec fn enrollment(document: JsonNodes) -> Result<EnrollmentView, ErrorView> {
    let totp = json::member(document, "totp"@);
    let factor_id = text_or_empty(Some(document), "id"@);
    let secret = text_or_empty(totp, "secret"@);
    if factor_id.len() == 0 || secret.len() == 0 {
        Err(ErrorView::Unavailable("enroll response missing factor id or secret"@))
    } else {
        Ok(
            EnrollmentView {
                factor_id,
                qr_code: text_or_empty(totp, "qr_code"@),
                secret,
                uri: text_or_empty(totp, "uri"@),
            },
        )
    }
}

/// A text of an optional document, or an empty one.
fn owned_text(document: Option<&serde_json::Value>, key: &str) -> (r: String)
    ensures
        r@ == text_or_empty(
            match document {
                Some(value) => Some(json::json_nodes(*value)),
                None => None,
            },
            key@,
        ),
{
    match document {
        Some(value) => match json::text_member(value, key) {
            Some(s) => s.to_owned(),
            None => "".to_owned(),
        },
        None => "".to_owned(),
    }
}

/// What the answer to an enrollment says. Without a factor and a secret it is of no use.
pub fn parse_enrollment(value: &serde_json::Value) -> (r: Result<TotpEnrollment, SupabaseAuthError>)
    ensures
        match r {
            Ok(e) => enrollment(json::json_nodes(*value)) == Ok::<EnrollmentView, ErrorView>(e@),
            Err(error) => enrollment(json::json_nodes(*value)) == Err::<EnrollmentView, ErrorView>(
                error@,
            ),
        },
{
    let totp = json::get(value, "totp");
    let factor_id = owned_text(Some(value), "id");
    let secret = owned_text(totp, "secret");
    if factor_id.as_str().is_empty() || secret.as_str().is_empty() {
        return Err(
            SupabaseAuthError::Unavailable("enroll response missing factor id or secret".to_owned()),
        );
    }
    Ok(
        TotpEnrollment {
            factor_id,
            qr_code: owned_text(totp, "qr_code"),
            secret,
            uri: owned_text(totp, "uri"),
        },
    )
}

/// The challenge that an answer about the factor `factor_id` opens.
pub fn parse_challenge(value: &serde_json::Value, factor_id: &str) -> (r: Result<
    TotpChallenge,
    SupabaseAuthError,
>)
    ensures
        match r {
            Ok(challenge) => json::member_text(json::json_nodes(*value), "id"@) == Some(
                challenge.challenge_id@,
            ) && challenge.factor_id@ == factor_id@,
            Err(error) => json::member_text(json::json_nodes(*value), "id"@) is None && error@
                == ErrorView::Unavailable("challenge response missing id"@),
        },
{
    match json::text_member(value, "id") {
        Some(id) => Ok(
            TotpChallenge { challenge_id: id.to_owned(), factor_id: factor_id.to_owned() },
        ),
        None => Err(SupabaseAuthError::Unavailable("challenge response missing id".to_owned())),
    }
}

} // verus!
