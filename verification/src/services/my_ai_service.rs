//! Talking to the summarising backend: what is sent, and how whatever comes
//! back is read as a reply.
//!
//! The backend sometimes answers in plain text instead of JSON, and
//! sometimes appends stray characters to a JSON object. Reading a reply is
//! therefore a chain of three strategies, tried in order: take the body as
//! plain text; decode the body strictly; decode, strictly again, the span
//! from the first `{` to the last `}`. Strict decoding itself is the
//! caller's: the chain says which text to decode and what a decoding
//! outcome leads to.

use crate::error::AppError;
use crate::models::my_ai_response::Root;
use crate::services::http_client::{push_pair, HttpRequest, Method, RequestView};
use crate::text::{
    chars_of, clip, clipped, decimal, find, find_in, last_position, lemma_find_from,
    lemma_last_position, push_decimal, rfind_char, trim_bounds, trimmed,
};
use vstd::prelude::*;

verus! {

/// The most characters of content that are sent for summarising.
pub const MAX_CONTENT_CHARS: usize = 100000;

/// The most characters of a body that a parse failure quotes.
pub const EXCERPT_CHARS: usize = 200;

/// The content that is sent for `content`: its first `MAX_CONTENT_CHARS`
/// characters.
pub fn truncate_content(content: &str) -> (sent: String)
    ensures
        sent@ == clipped(content@, MAX_CONTENT_CHARS as nat),
{
    clip(content, MAX_CONTENT_CHARS)
}

/// Whether `body` sets out as JSON: its first character after leading white
/// space is `{` or `[`.
pub open spec fn looks_like_json(body: Seq<char>) -> bool {
    trimmed(body).len() > 0 && (trimmed(body)[0] == '{' || trimmed(body)[0] == '[')
}

/// The span of `body` from its first `{` to its last `}`, where the one
/// stands before the other.
pub open spec fn salvage_span(body: Seq<char>) -> Option<Seq<char>> {
    match find(body, seq!['{']) {
        Some(open) => if open < last_position(body, '}') {
            Some(body.subrange(open, last_position(body, '}') + 1))
        } else {
            None
        },
        None => None,
    }
}

/// Whether `reply` is the reply that stands for the plain text `body`: the
/// whole body as the answer, session `unknown`, no context, no trace.
pub open spec fn is_plain_reply(reply: Root, body: Seq<char>) -> bool {
    &&& reply.answer@ == body
    &&& reply.session_id@ == "unknown"@
    &&& !reply.context_used
    &&& reply.events@.len() == 0
}

/// Where a parse failure happened: the address, and the status in brackets.
pub open spec fn failure_location(status: u16, url: Seq<char>) -> Seq<char> {
    url + " (status "@ + decimal(status as nat) + ")"@
}

/// What a parse failure reports: the decoder's error and the first
/// `EXCERPT_CHARS` characters of the body.
pub open spec fn failure_message(error: Seq<char>, body: Seq<char>) -> Seq<char> {
    error + "; body excerpt: "@ + clipped(body, EXCERPT_CHARS as nat)
}

/// Whether `failure` is the parse failure for a body that came with
/// `status` from `url` and that the strict decoder refused with `error`.
pub open spec fn is_parse_failure(
    failure: AppError,
    error: Seq<char>,
    body: Seq<char>,
    status: u16,
    url: Seq<char>,
) -> bool {
    &&& failure matches AppError::JsonParse { location, message }
    &&& location@ == failure_location(status, url)
    &&& message@ == failure_message(error, body)
}

/// What reading `body` comes to, given what strict decoding makes of the
/// body (`strict`) and of its salvage span (`salvaged`).
///
/// A body that does not set out as JSON is a plain-text reply. Otherwise
/// the strictly decoded body is the reply; failing that, the strictly
/// decoded salvage span; failing that too, or where the body has no salvage
/// span, reading fails with the first decoding error.
pub open spec fn reads_as(
    body: Seq<char>,
    status: u16,
    url: Seq<char>,
    strict: Result<Root, String>,
    salvaged: Result<Root, String>,
    r: Result<Root, AppError>,
) -> bool {
    if !looks_like_json(body) {
        r matches Ok(reply) && is_plain_reply(reply, body)
    } else {
        match strict {
            Ok(reply) => r == Ok::<Root, AppError>(reply),
            Err(error) => match salvaged {
                Ok(reply) if salvage_span(body) is Some => r == Ok::<Root, AppError>(reply),
                _ => r matches Err(failure) && is_parse_failure(
                    failure,
                    error@,
                    body,
                    status,
                    url,
                ),
            },
        }
    }
}

/// What to do next while reading a body.
#[derive(Debug, PartialEq, Eq)]
pub enum NormalizeStep {
    /// The body is read: this is the reply.
    Finished(Root),
    /// Decode this text strictly and report the outcome.
    Decode(String),
    /// The body cannot be read.
    Failed(AppError),
}

/// Whether `body` sets out as JSON.
pub fn is_json_like(body: &str) -> (r: bool)
    ensures
        r == looks_like_json(body@),
{
    let chars = chars_of(body);
    let (start, end) = trim_bounds(&chars);
    if start == end {
        false
    } else {
        chars[start] == '{' || chars[start] == '['
    }
}

/// The span of `body` from its first `{` to its last `}`.
pub fn salvage_candidate(body: &str) -> (span: Option<String>)
    ensures
        crate::text::opt_text(span) == salvage_span(body@),
{
    let chars = chars_of(body);
    let mut brace: Vec<char> = Vec::new();
    brace.push('{');
    proof {
        lemma_find_from(chars@, brace@, 0);
        lemma_last_position(chars@, '}');
    }
    match find_in(&chars, &brace, 0) {
        Some(open) => match rfind_char(&chars, '}') {
            Some(close) => {
                if open < close {
                    assert(close < chars.len());
                    Some(body.substring_char(open, close + 1).to_owned())
                } else {
                    None
                }
            },
            None => None,
        },
        None => None,
    }
}

/// The reply that stands for a plain-text body.
pub fn plain_reply(body: &str) -> (reply: Root)
    ensures
        is_plain_reply(reply, body@),
{
    Root {
        answer: body.to_owned(),
        events: Vec::new(),
        session_id: "unknown".to_owned(),
        context_used: false,
    }
}

/// The parse failure for a body that came with `status` from `url` and
/// that the strict decoder refused with `error`.
pub fn parse_failure(error: &str, body: &str, status: u16, url: &str) -> (failure: AppError)
    ensures
        is_parse_failure(failure, error@, body@, status, url@),
{
    let mut location = url.to_owned();
    location.append(" (status ");
    push_decimal(&mut location, status as u64);
    location.append(")");
    let mut message = error.to_owned();
    message.append("; body excerpt: ");
    let excerpt = clip(body, EXCERPT_CHARS);
    message.append(excerpt.as_str());
    AppError::JsonParse { location, message }
}

/// The first step of reading `body`: a body that does not set out as JSON
/// is read at once, as plain text; any other is to be decoded as it stands.
pub fn begin(body: &str) -> (step: NormalizeStep)
    ensures
        match step {
            NormalizeStep::Finished(reply) => !looks_like_json(body@) && is_plain_reply(
                reply,
                body@,
            ),
            NormalizeStep::Decode(text) => looks_like_json(body@) && text@ == body@,
            NormalizeStep::Failed(_) => false,
        },
{
    if is_json_like(body) {
        NormalizeStep::Decode(body.to_owned())
    } else {
        NormalizeStep::Finished(plain_reply(body))
    }
}

/// The step after the body was decoded strictly, with `outcome`: a decoded
/// reply is the reply; after a refusal the salvage span is to be decoded,
/// and where the body has none, reading fails with the refusal.
pub fn after_strict(body: &str, status: u16, url: &str, outcome: Result<Root, String>) -> (step:
    NormalizeStep)
    ensures
        match outcome {
            Ok(reply) => step == NormalizeStep::Finished(reply),
            Err(error) => match salvage_span(body@) {
                Some(span) => step matches NormalizeStep::Decode(text) && text@ == span,
                None => step matches NormalizeStep::Failed(failure) && is_parse_failure(
                    failure,
                    error@,
                    body@,
                    status,
                    url@,
                ),
            },
        },
{
    match outcome {
        Ok(reply) => NormalizeStep::Finished(reply),
        Err(error) => match salvage_candidate(body) {
            Some(span) => NormalizeStep::Decode(span),
            None => NormalizeStep::Failed(parse_failure(error.as_str(), body, status, url)),
        },
    }
}

/// The end of reading, after the salvage span was decoded strictly, with
/// `outcome`: a decoded reply is the reply; a refusal fails the reading
/// with `first_error`, the refusal of the whole body.
pub fn after_salvage(
    body: &str,
    status: u16,
    url: &str,
    first_error: &str,
    outcome: Result<Root, String>,
) -> (r: Result<Root, AppError>)
    ensures
        match outcome {
            Ok(reply) => r == Ok::<Root, AppError>(reply),
            Err(_) => r matches Err(failure) && is_parse_failure(
                failure,
                first_error@,
                body@,
                status,
                url@,
            ),
        },
{
    match outcome {
        Ok(reply) => Ok(reply),
        Err(_) => Err(parse_failure(first_error, body, status, url)),
    }
}

/// Whether `outcome` is what `decode` may make of `text`.
pub open spec fn decodes_to<F: Fn(&str) -> Result<Root, String>>(
    decode: F,
    text: Seq<char>,
    outcome: Result<Root, String>,
) -> bool {
    exists|t: &str| t@ == text && #[trigger] decode.ensures((t,), outcome)
}

/// Reads `body`, which came with `status` from `url`, as a reply, decoding
/// strictly with `decode` where the chain asks for it: at most twice, first
/// the body, then its salvage span.
pub fn normalize<F: Fn(&str) -> Result<Root, String>>(
    body: &str,
    status: u16,
    url: &str,
    decode: F,
) -> (r: Result<Root, AppError>)
    requires
        forall|text: &str| #[trigger] decode.requires((text,)),
    ensures
        !looks_like_json(body@) ==> (r matches Ok(reply) && is_plain_reply(reply, body@)),
        looks_like_json(body@) ==> exists|strict: Result<Root, String>, salvaged: Result<Root, String>|
            {
                &&& decodes_to(decode, body@, strict)
                &&& strict is Err && salvage_span(body@) is Some ==> decodes_to(
                    decode,
                    salvage_span(body@)->0,
                    salvaged,
                )
                &&& #[trigger] reads_as(body@, status, url@, strict, salvaged, r)
            },
{
    match begin(body) {
        NormalizeStep::Finished(reply) => Ok(reply),
        NormalizeStep::Failed(failure) => Err(failure),
        NormalizeStep::Decode(text) => {
            let whole = text.as_str();
            let strict = decode(whole);
            let ghost strict_seen = strict;
            match strict {
                Ok(reply) => {
                    assert(reads_as(
                        body@,
                        status,
                        url@,
                        strict_seen,
                        strict_seen,
                        Ok::<Root, AppError>(reply),
                    ));
                    Ok(reply)
                },
                Err(error) => {
                    match after_strict(body, status, url, Err(error.clone())) {
                        NormalizeStep::Finished(reply) => Ok(reply),
                        NormalizeStep::Failed(failure) => {
                            assert(reads_as(
                                body@,
                                status,
                                url@,
                                strict_seen,
                                strict_seen,
                                Err::<Root, AppError>(failure),
                            ));
                            Err(failure)
                        },
                        NormalizeStep::Decode(span) => {
                            let part = span.as_str();
                            let salvaged = decode(part);
                            let ghost salvaged_seen = salvaged;
                            let r = after_salvage(body, status, url, error.as_str(), salvaged);
                            assert(reads_as(body@, status, url@, strict_seen, salvaged_seen, r));
                            r
                        },
                    }
                },
            }
        },
    }
}

/// One message of a conversation.
#[derive(Debug, Clone, PartialEq, Eq)]
pub struct ChatMessage {
    pub role: String,
    pub content: String,
}

/// What is sent to the backend: a persona tag, a user tag and the
/// conversation.
#[derive(Debug, Clone, PartialEq, Eq)]
pub struct ChatRequest {
    pub persona: String,
    pub user_id: String,
    pub messages: Vec<ChatMessage>,
}

/// Whether `payload` asks the backend to summarise `content`: one message
/// of the user, holding the first `MAX_CONTENT_CHARS` characters of the
/// content, under the persona of this service.
pub open spec fn asks_for(payload: ChatRequest, content: Seq<char>) -> bool {
    &&& payload.persona@ == "ks-discord"@
    &&& payload.user_id@ == "ks-discord"@
    &&& payload.messages@.len() == 1
    &&& payload.messages@[0].role@ == "user"@
    &&& payload.messages@[0].content@ == clipped(content, MAX_CONTENT_CHARS as nat)
}

/// The request that carries a chat payload to the backend at `api_url`.
pub open spec fn chat_request_of(api_url: Seq<char>) -> RequestView {
    RequestView {
        method: Method::Post,
        url: api_url,
        headers: seq![
            ("accept"@, "application/json"@),
            ("content-type"@, "application/json"@),
        ],
        query: Seq::empty(),
        timeout_secs: None,
    }
}

/// Builds what is sent to have `content` summarised. Content beyond
/// `MAX_CONTENT_CHARS` characters is dropped.
pub fn chat_payload(content: &str) -> (payload: ChatRequest)
    ensures
        asks_for(payload, content@),
{
    let mut messages: Vec<ChatMessage> = Vec::new();
    messages.push(ChatMessage { role: "user".to_owned(), content: truncate_content(content) });
    ChatRequest { persona: "ks-discord".to_owned(), user_id: "ks-discord".to_owned(), messages }
}

/// Describes the request that carries a chat payload to `api_url`.
pub fn chat_request(api_url: &str) -> (request: HttpRequest)
    ensures
        request@ == chat_request_of(api_url@),
{
    let mut headers: Vec<(String, String)> = Vec::new();
    push_pair(&mut headers, "accept", "application/json");
    push_pair(&mut headers, "content-type", "application/json");
    let request = HttpRequest {
        method: Method::Post,
        url: api_url.to_owned(),
        headers,
        query: Vec::new(),
        timeout_secs: None,
    };
    assert(request@.query =~= chat_request_of(api_url@).query);
    assert(request@.headers =~= chat_request_of(api_url@).headers);
    request
}

} // verus!
