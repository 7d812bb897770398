//! The errors of the pipeline, their categories, and which of them a later
//! run may get past.

use crate::services::http_client::{status_class, CallError, StatusClass};
use crate::text::{decimal, push_decimal};
use vstd::prelude::*;

verus! {

/// Main application error type.
#[derive(Debug, Clone, PartialEq, Eq)]
pub enum AppError {
    /// A required setting is missing or invalid.
    Config { message: String },
    /// A collaborator answered with a status other than 2xx.
    ApiError { url: String, status: u16 },
    /// A collaborator did not answer in time.
    ApiTimeout { seconds: u64 },
    /// The connection to a collaborator failed.
    Network(String),
    /// A body could not be decoded.
    JsonParse { location: String, message: String },
    /// A body decoded to an unexpected shape.
    InvalidResponse(String),
    /// The video provider reported a failure.
    YouTube(String),
    /// The transcript provider has no transcript for the video.
    TranscriptNotFound { video_id: String },
    /// The summarising backend reported a failure.
    AIService(String),
    /// The summarising backend's reply could not be read.
    AIParse(String),
    /// The chat destination refused a request.
    Discord { status: u16 },
    /// A message is longer than the chat destination takes.
    MessageTooLong { length: usize, max: usize },
    /// The transcript cache could not be read or written.
    Cache(String),
    /// A file operation failed.
    Io(String),
    /// Anything else.
    Internal(String),
}

impl AppError {
    /// Whether running again later may get past the error: timeouts,
    /// connection failures, and answers with status 429 or 5xx.
    pub open spec fn retryable(self) -> bool {
        match self {
            AppError::ApiTimeout { .. } => true,
            AppError::Network(_) => true,
            AppError::ApiError { status, .. } => status == 429 || 500 <= status <= 599,
            _ => false,
        }
    }

    /// The category under which the error is logged and counted.
    pub open spec fn category_text(self) -> Seq<char> {
        match self {
            AppError::Config { .. } => "config"@,
            AppError::ApiError { .. } | AppError::ApiTimeout { .. } => "api"@,
            AppError::Network(_) => "network"@,
            AppError::JsonParse { .. } | AppError::InvalidResponse(_) => "parse"@,
            AppError::YouTube(_) | AppError::TranscriptNotFound { .. } => "youtube"@,
            AppError::AIService(_) | AppError::AIParse(_) => "ai_service"@,
            AppError::Discord { .. } | AppError::MessageTooLong { .. } => "discord"@,
            AppError::Cache(_) => "cache"@,
            AppError::Io(_) => "io"@,
            AppError::Internal(_) => "internal"@,
        }
    }

    /// The error written out for a reader.
    pub open spec fn description(self) -> Seq<char> {
        match self {
            AppError::Config { message } => "Configuration error: "@ + message@,
            AppError::ApiError { url, status } => "API request failed to "@ + url@ + ": "@
                + decimal(status as nat),
            AppError::ApiTimeout { seconds } => "API request timeout after "@ + decimal(
                seconds as nat,
            ) + "s"@,
            AppError::Network(message) => "Network error: "@ + message@,
            AppError::JsonParse { location, message } => "JSON parse error at "@ + location@
                + ": "@ + message@,
            AppError::InvalidResponse(message) => "Invalid response format: "@ + message@,
            AppError::YouTube(message) => "YouTube API error: "@ + message@,
            AppError::TranscriptNotFound { video_id } => "Transcript not found for video: "@
                + video_id@,
            AppError::AIService(message) => "AI service error: "@ + message@,
            AppError::AIParse(message) => "AI response parsing failed: "@ + message@,
            AppError::Discord { status } => "Discord webhook failed: "@ + decimal(status as nat),
            AppError::MessageTooLong { length, max } => "Discord message too long: "@ + decimal(
                length as nat,
            ) + " chars (max: "@ + decimal(max as nat) + ")"@,
            AppError::Cache(message) => "Cache error: "@ + message@,
            AppError::Io(message) => "IO error: "@ + message@,
            AppError::Internal(message) => "Internal error: "@ + message@,
        }
    }

    /// Create a configuration error.
    pub fn config(message: &str) -> (error: AppError)
        ensures
            error matches AppError::Config { message: m } && m@ == message@,
    {
        AppError::Config { message: message.to_owned() }
    }

    /// Create a YouTube error.
    pub fn youtube(message: &str) -> (error: AppError)
        ensures
            error matches AppError::YouTube(m) && m@ == message@,
    {
        AppError::YouTube(message.to_owned())
    }

    /// Create an AI service error.
    pub fn ai_service(message: &str) -> (error: AppError)
        ensures
            error matches AppError::AIService(m) && m@ == message@,
    {
        AppError::AIService(message.to_owned())
    }

    /// Create a cache error.
    pub fn cache(message: &str) -> (error: AppError)
        ensures
            error matches AppError::Cache(m) && m@ == message@,
    {
        AppError::Cache(message.to_owned())
    }

    /// Check if error is retryable.
    pub fn is_retryable(&self) -> (r: bool)
        ensures
            r == self.retryable(),
    {
        match self {
            AppError::ApiTimeout { .. } => true,
            AppError::Network(_) => true,
            AppError::ApiError { status, .. } => *status == 429 || (500 <= *status && *status
                <= 599),
            _ => false,
        }
    }

    /// Get error category for logging/metrics.
    pub fn category(&self) -> (name: &'static str)
        ensures
            name@ == self.category_text(),
    {
        match self {
            AppError::Config { .. } => "config",
            AppError::ApiError { .. } | AppError::ApiTimeout { .. } => "api",
            AppError::Network(_) => "network",
            AppError::JsonParse { .. } | AppError::InvalidResponse(_) => "parse",
            AppError::YouTube(_) | AppError::TranscriptNotFound { .. } => "youtube",
            AppError::AIService(_) | AppError::AIParse(_) => "ai_service",
            AppError::Discord { .. } | AppError::MessageTooLong { .. } => "discord",
            AppError::Cache(_) => "cache",
            AppError::Io(_) => "io",
            AppError::Internal(_) => "internal",
        }
    }

    /// Writes the error out for a reader.
    pub fn describe(&self) -> (text: String)
        ensures
            text@ == self.description(),
    {
        match self {
            AppError::Config { message } => lead("Configuration error: ", message.as_str()),
            AppError::ApiError { url, status } => {
                let mut text = lead("API request failed to ", url.as_str());
                text.append(": ");
                push_decimal(&mut text, *status as u64);
                text
            },
            AppError::ApiTimeout { seconds } => {
                let mut text = "API request timeout after ".to_owned();
                push_decimal(&mut text, *seconds);
                text.append("s");
                text
            },
            AppError::Network(message) => lead("Network error: ", message.as_str()),
            AppError::JsonParse { location, message } => {
                let mut text = lead("JSON parse error at ", location.as_str());
                text.append(": ");
                text.append(message.as_str());
                text
            },
            AppError::InvalidResponse(message) => lead(
                "Invalid response format: ",
                message.as_str(),
            ),
            AppError::YouTube(message) => lead("YouTube API error: ", message.as_str()),
            AppError::TranscriptNotFound { video_id } => lead(
                "Transcript not found for video: ",
                video_id.as_str(),
            ),
            AppError::AIService(message) => lead("AI service error: ", message.as_str()),
            AppError::AIParse(message) => lead("AI response parsing failed: ", message.as_str()),
            AppError::Discord { status } => {
                let mut text = "Discord webhook failed: ".to_owned();
                push_decimal(&mut text, *status as u64);
                text
            },
            AppError::MessageTooLong { length, max } => {
                let mut text = "Discord message too long: ".to_owned();
                push_decimal(&mut text, *length as u64);
                text.append(" chars (max: ");
                push_decimal(&mut text, *max as u64);
                text.append(")");
                text
            },
            AppError::Cache(message) => lead("Cache error: ", message.as_str()),
            AppError::Io(message) => lead("IO error: ", message.as_str()),
            AppError::Internal(message) => lead("Internal error: ", message.as_str()),
        }
    }

    /// Whether `self` stands for the failure `error` of a call to `url`: an
    /// API error with the last status where there was one, else a timeout
    /// or a network error.
    pub open spec fn stands_for(self, error: CallError, url: Seq<char>) -> bool {
        match error {
            CallError::Rejected { status, .. } | CallError::ExhaustedStatus { status, .. } => {
                self matches AppError::ApiError { url: u, status: s } && u@ == url && s == status
            },
            CallError::ExhaustedTransport { message, .. } => self == AppError::Network(message),
            CallError::ExhaustedTimeout { seconds, .. } => self == (AppError::ApiTimeout {
                seconds,
            }),
        }
    }

    /// Turns the failure of a call to `url` into an application error.
    pub fn from_call(error: CallError, url: &str) -> (e: AppError)
        ensures
            e.stands_for(error, url@),
    {
        match error {
            CallError::Rejected { status, .. } => AppError::ApiError { url: url.to_owned(), status },
            CallError::ExhaustedStatus { status, .. } => AppError::ApiError {
                url: url.to_owned(),
                status,
            },
            CallError::ExhaustedTransport { message, .. } => AppError::Network(message),
            CallError::ExhaustedTimeout { seconds, .. } => AppError::ApiTimeout { seconds },
        }
    }
}

/// Whether `error` is the configuration error of message `message`.
pub open spec fn is_config_error(error: AppError, message: Seq<char>) -> bool {
    error matches AppError::Config { message: m } && m@ == message
}

/// Whether `error` is the YouTube error of message `message`.
pub open spec fn is_youtube_error(error: AppError, message: Seq<char>) -> bool {
    error matches AppError::YouTube(m) && m@ == message
}

/// `head` followed by `tail`.
fn lead(head: &str, tail: &str) -> (text: String)
    ensures
        text@ == head@ + tail@,
{
    let mut text = head.to_owned();
    text.append(tail);
    text
}

/// A failed call is worth another run exactly when its last attempt was
/// worth another attempt: it timed out, failed in transport, or was
/// answered with status 429 or 5xx.
pub proof fn lemma_call_errors_retryable(error: CallError, url: Seq<char>, e: AppError)
    requires
        e.stands_for(error, url),
    ensures
        e.retryable() <==> match error {
            CallError::Rejected { status, .. } | CallError::ExhaustedStatus { status, .. } => {
                status_class(status) == StatusClass::Retryable
            },
            _ => true,
        },
{
}

} // verus!
