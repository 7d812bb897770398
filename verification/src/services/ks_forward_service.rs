//! The run itself: locate the newest episode, get its transcript, have it
//! summarised, deliver the summary.
//!
//! The run is a state machine. It performs nothing and reads no clock: each
//! step names the action whose result it needs next, and the caller
//! performs the action and reports the result as the next event. Actions
//! that call a collaborator are meant to go through the resilient caller,
//! so an error reported here is final for the run.

use crate::config::Config;
use crate::error::{is_config_error, is_youtube_error, AppError};
use crate::models::discord::{webhook_views, DiscordWebhook};
use crate::models::my_ai_response::Root as Reply;
use crate::models::youtube_snippet::{Item, SearchResult, SearchResultView};
use crate::models::youtube_transcript::{segment_texts, Root as TranscriptDocument};
use crate::services::discord_service::{compose_message, message_requests};
use crate::services::my_ai_service::{truncate_content, MAX_CONTENT_CHARS};
use crate::services::youtube_service::{
    candidate, candidate_of, extract_video_id, pick_latest, picked_from, video_id_of,
};
use crate::text::{clipped, is_blank, joined, trimmed};
use vstd::prelude::*;

verus! {

/// With what the titles of the monitored series begin.
pub open spec fn series_prefix() -> Seq<char> {
    "KS Forward"@
}

/// Flattens a transcript: the texts of all its segments, in the order
/// received, with a single space between neighbours.
pub fn flatten(transcript: &TranscriptDocument) -> (text: String)
    ensures
        text@ == transcript.flat_text(),
{
    let mut text = String::new();
    let mut i: usize = 0;
    let ghost parts = segment_texts(transcript.content@);
    while i < transcript.content.len()
        invariant
            i <= transcript.content@.len(),
            parts == segment_texts(transcript.content@),
            text@ == joined(parts.take(i as int), seq![' ']),
        decreases transcript.content@.len() - i,
    {
        proof {
            reveal_strlit(" ");
            lemma_joined_step(parts, i + 1);
        }
        if i > 0 {
            text.append(" ");
        }
        text.append(transcript.content[i].text.as_str());
        i = i + 1;
    }
    assert(parts.take(i as int) =~= parts);
    text
}

/// Parses a transcript document into the full transcript text.
pub fn parse_transcript_fullscript(transcript_json: TranscriptDocument) -> (r: Result<
    String,
    AppError,
>)
    ensures
        r matches Ok(text) && text@ == transcript_json.flat_text(),
{
    Ok(flatten(&transcript_json))
}

/// Where a run stands.
#[derive(Debug, Clone, Copy, PartialEq, Eq, Structural)]
pub enum Stage {
    Locate,
    FetchTranscript,
    Summarize,
    Deliver,
    Done,
    Failed,
}

/// How a run ended well.
#[derive(Debug, PartialEq, Eq)]
pub enum Outcome {
    /// No video of the series was found: nothing new to process.
    NothingToProcess,
    /// The transcript is empty: nothing to summarise.
    EmptyTranscript,
    /// The summary was delivered in `requests` requests.
    Delivered { answer: String, requests: usize },
}

/// How a run failed.
#[derive(Debug, PartialEq, Eq)]
pub struct Failure {
    /// The stage that failed.
    pub stage: Stage,
    pub error: AppError,
    /// The request that was not delivered, counted from 0, where the run
    /// failed in delivery. The requests before it stay delivered.
    pub batch: Option<usize>,
}

/// The state of a run.
#[derive(Debug, PartialEq, Eq)]
pub enum Pipeline {
    /// Waiting for the channel's recent videos.
    Locating { use_canned: bool },
    /// Waiting for the details of the video behind `link`.
    LocatingByLink { link: String },
    /// Waiting for the cache's answer for `key`.
    ReadingCache { video: SearchResult, key: String },
    /// Waiting for the transcript: from the provider, to be cached under
    /// `key`, or the canned one, which is not cached.
    Fetching { video: SearchResult, key: Option<String> },
    /// Waiting for the cache to have stored the transcript.
    Caching { video: SearchResult, text: String },
    /// Waiting for the summary.
    Summarizing { video: SearchResult },
    /// Waiting for request number `next` to be delivered.
    Delivering { video: SearchResult, answer: String, requests: Vec<DiscordWebhook>, next: usize },
    Done(Outcome),
    Failed(Failure),
}

/// What the caller is to do next.
#[derive(Debug, PartialEq, Eq)]
pub enum Action {
    /// List the recent videos of the channel, newest first.
    Search { channel_id: String },
    /// Look up the details of the video with this identifier.
    LookUp { video_id: String },
    /// Read the cached transcript stored under `key`, without any network
    /// call.
    ReadCache { key: String },
    /// Fetch the transcript of the video behind `link` from the provider.
    FetchTranscript { link: String },
    /// Load the canned transcript.
    LoadCanned,
    /// Store `raw`, the provider's answer as it came, in the cache under
    /// `key`. Failing to is no error.
    WriteCache { key: String, raw: String },
    /// Have `content` summarised.
    Summarize { content: String },
    /// Deliver `request`, which is number `index` of the run's requests.
    Deliver { index: usize, request: DiscordWebhook },
    /// Nothing: the run is over.
    Stop,
}

/// A transcript as it was fetched: the provider's answer as it came, and
/// the document decoded from it.
#[derive(Debug, PartialEq, Eq)]
pub struct FetchedTranscript {
    pub raw: String,
    pub document: TranscriptDocument,
}

/// A summary as it was received: the backend's reply, and the time of its
/// arrival as an ISO 8601 text, with which the messages are stamped.
#[derive(Debug, PartialEq, Eq)]
pub struct Summary {
    pub reply: Reply,
    pub received_at: String,
}

/// What the caller reports back.
#[derive(Debug, PartialEq, Eq)]
pub enum Event {
    /// The videos asked for, in the provider's order; or why not.
    VideosListed(Result<Vec<Item>, AppError>),
    /// What the cache holds under the key: a transcript or nothing. A cache
    /// that cannot be read holds nothing.
    CacheRead(Option<TranscriptDocument>),
    /// The transcript asked for; or why not.
    TranscriptFetched(Result<FetchedTranscript, AppError>),
    /// Whether the cache stored the transcript.
    CacheWritten(bool),
    /// The summary asked for; or why not.
    Summarized(Result<Summary, AppError>),
    /// The request was delivered; or why not.
    Delivered(Result<(), AppError>),
}

/// The run ends in failure at `stage` with `error`.
pub open spec fn fails_with(
    stage: Stage,
    error: AppError,
    batch: Option<usize>,
    next: Pipeline,
    action: Action,
) -> bool {
    next == Pipeline::Failed(Failure { stage, error, batch }) && action is Stop
}

/// The run ends in failure at `stage` with a YouTube error of `message`.
pub open spec fn fails_on_video(
    stage: Stage,
    message: Seq<char>,
    next: Pipeline,
    action: Action,
) -> bool {
    &&& next matches Pipeline::Failed(f)
    &&& f.stage == stage
    &&& f.batch is None
    &&& is_youtube_error(f.error, message)
    &&& action is Stop
}

/// The run ends in failure at `stage` because the event does not answer
/// the action that was pending.
pub open spec fn fails_unexpected(stage: Stage, next: Pipeline, action: Action) -> bool {
    &&& next matches Pipeline::Failed(f)
    &&& f.stage == stage
    &&& f.batch is None
    &&& f.error matches AppError::Internal(m)
    &&& m@ == "unexpected event"@
    &&& action is Stop
}

/// The run goes on to get the transcript of `video`.
///
/// With the canned transcript selected, that one is loaded. Otherwise the
/// cache is consulted first, under the identifier read from the video's
/// link; a link without identifier fails the run.
pub open spec fn starts_fetch(
    video: SearchResultView,
    use_canned: bool,
    next: Pipeline,
    action: Action,
) -> bool {
    if use_canned {
        &&& next matches Pipeline::Fetching { video: v, key }
        &&& v@ == video
        &&& key is None
        &&& action is LoadCanned
    } else {
        match video_id_of(video.link) {
            Some(id) => {
                &&& next matches Pipeline::ReadingCache { video: v, key }
                &&& v@ == video
                &&& key@ == id
                &&& action matches Action::ReadCache { key: asked }
                &&& asked@ == id
            },
            None => fails_on_video(
                Stage::FetchTranscript,
                "Could not extract video ID from URL"@,
                next,
                action,
            ),
        }
    }
}

/// The run goes on with the flattened transcript `text` of `video`: an
/// empty transcript ends it, and any other is sent for summarising, cut
/// off at `MAX_CONTENT_CHARS` characters.
pub open spec fn starts_summary(
    video: SearchResult,
    text: Seq<char>,
    next: Pipeline,
    action: Action,
) -> bool {
    if text.len() == 0 {
        next == Pipeline::Done(Outcome::EmptyTranscript) && action is Stop
    } else {
        &&& next == Pipeline::Summarizing { video }
        &&& action matches Action::Summarize { content }
        &&& content@ == clipped(text, MAX_CONTENT_CHARS as nat)
    }
}

/// The candidate that stands for the video behind `link`, described by
/// `item`: the link as given, the rest as the item has it.
pub open spec fn linked_candidate(link: Seq<char>, item: Item) -> SearchResultView {
    SearchResultView {
        video_id: candidate_of(item).video_id,
        link,
        title: candidate_of(item).title,
        publish_time: candidate_of(item).publish_time,
    }
}

/// Whether a run in `state` that is told `event` goes on in state `next`
/// with `action`.
pub open spec fn follows(state: Pipeline, event: Event, next: Pipeline, action: Action) -> bool {
    match state {
        Pipeline::Locating { use_canned } => match event {
            Event::VideosListed(Ok(items)) => match picked_from(items@, series_prefix()) {
                Some(video) => starts_fetch(video, use_canned, next, action),
                None => next == Pipeline::Done(Outcome::NothingToProcess) && action is Stop,
            },
            Event::VideosListed(Err(error)) => fails_with(
                Stage::Locate,
                error,
                None,
                next,
                action,
            ),
            _ => fails_unexpected(Stage::Locate, next, action),
        },
        Pipeline::LocatingByLink { link } => match event {
            Event::VideosListed(Ok(items)) => if items@.len() == 0 {
                fails_on_video(
                    Stage::Locate,
                    "No video details found for the provided link"@,
                    next,
                    action,
                )
            } else {
                starts_fetch(linked_candidate(link@, items@[0]), false, next, action)
            },
            Event::VideosListed(Err(error)) => fails_with(
                Stage::Locate,
                error,
                None,
                next,
                action,
            ),
            _ => fails_unexpected(Stage::Locate, next, action),
        },
        Pipeline::ReadingCache { video, key } => match event {
            Event::CacheRead(Some(transcript)) => starts_summary(
                video,
                transcript.flat_text(),
                next,
                action,
            ),
            Event::CacheRead(None) => {
                &&& next == Pipeline::Fetching { video, key: Some(key) }
                &&& action matches Action::FetchTranscript { link }
                &&& link@ == video.link@
            },
            _ => fails_unexpected(Stage::FetchTranscript, next, action),
        },
        Pipeline::Fetching { video, key } => match event {
            Event::TranscriptFetched(Ok(fetched)) => match key {
                Some(key) => {
                    &&& next matches Pipeline::Caching { video: v, text }
                    &&& v == video
                    &&& text@ == fetched.document.flat_text()
                    &&& action == Action::WriteCache { key, raw: fetched.raw }
                },
                None => starts_summary(video, fetched.document.flat_text(), next, action),
            },
            Event::TranscriptFetched(Err(error)) => fails_with(
                Stage::FetchTranscript,
                error,
                None,
                next,
                action,
            ),
            _ => fails_unexpected(Stage::FetchTranscript, next, action),
        },
        Pipeline::Caching { video, text } => match event {
            Event::CacheWritten(_) => starts_summary(video, text@, next, action),
            _ => fails_unexpected(Stage::FetchTranscript, next, action),
        },
        Pipeline::Summarizing { video } => match event {
            Event::Summarized(Ok(summary)) => {
                &&& next matches Pipeline::Delivering { video: v, answer, requests, next: n }
                &&& v == video
                &&& answer == summary.reply.answer
                &&& webhook_views(requests@) == message_requests(
                    video.title@,
                    summary.reply.answer@,
                    summary.received_at@,
                )
                &&& n == 0
                &&& action matches Action::Deliver { index, request }
                &&& index == 0
                &&& request@ == message_requests(
                    video.title@,
                    summary.reply.answer@,
                    summary.received_at@,
                )[0]
            },
            Event::Summarized(Err(error)) => fails_with(
                Stage::Summarize,
                error,
                None,
                next,
                action,
            ),
            _ => fails_unexpected(Stage::Summarize, next, action),
        },
        Pipeline::Delivering { video, answer, requests, next: n } => match event {
            Event::Delivered(Ok(_)) => if n + 1 < requests@.len() {
                &&& next == Pipeline::Delivering { video, answer, requests, next: (n + 1) as usize }
                &&& action matches Action::Deliver { index, request }
                &&& index == n + 1
                &&& request@ == requests@[n + 1]@
            } else {
                &&& next == Pipeline::Done(
                    Outcome::Delivered { answer, requests: requests@.len() as usize },
                )
                &&& action is Stop
            },
            Event::Delivered(Err(error)) => fails_with(
                Stage::Deliver,
                error,
                Some(n),
                next,
                action,
            ),
            _ => fails_unexpected(Stage::Deliver, next, action),
        },
        Pipeline::Done(_) | Pipeline::Failed(_) => next == state && action is Stop,
    }
}

fn unexpected(stage: Stage) -> (r: (Pipeline, Action))
    ensures
        fails_unexpected(stage, r.0, r.1),
{
    (
        Pipeline::Failed(
            Failure { stage, error: AppError::Internal("unexpected event".to_owned()), batch: None },
        ),
        Action::Stop,
    )
}

fn failed(stage: Stage, error: AppError, batch: Option<usize>) -> (r: (Pipeline, Action))
    ensures
        fails_with(stage, error, batch, r.0, r.1),
{
    (Pipeline::Failed(Failure { stage, error, batch }), Action::Stop)
}

fn begin_fetch(video: SearchResult, use_canned: bool) -> (r: (Pipeline, Action))
    ensures
        starts_fetch(video@, use_canned, r.0, r.1),
{
    if use_canned {
        return (Pipeline::Fetching { video, key: None }, Action::LoadCanned);
    }
    match extract_video_id(video.link.as_str()) {
        Ok(key) => {
            let asked = key.clone();
            (Pipeline::ReadingCache { video, key }, Action::ReadCache { key: asked })
        },
        Err(error) => (
            Pipeline::Failed(Failure { stage: Stage::FetchTranscript, error, batch: None }),
            Action::Stop,
        ),
    }
}

fn begin_summary(video: SearchResult, text: &str) -> (r: (Pipeline, Action))
    ensures
        starts_summary(video, text@, r.0, r.1),
{
    if text.is_empty() {
        (Pipeline::Done(Outcome::EmptyTranscript), Action::Stop)
    } else {
        (Pipeline::Summarizing { video }, Action::Summarize { content: truncate_content(text) })
    }
}

impl Pipeline {
    /// The stage of the run.
    pub open spec fn stage_of(self) -> Stage {
        match self {
            Pipeline::Locating { .. } | Pipeline::LocatingByLink { .. } => Stage::Locate,
            Pipeline::ReadingCache { .. } | Pipeline::Fetching { .. } | Pipeline::Caching {
                ..
            } => Stage::FetchTranscript,
            Pipeline::Summarizing { .. } => Stage::Summarize,
            Pipeline::Delivering { .. } => Stage::Deliver,
            Pipeline::Done(_) => Stage::Done,
            Pipeline::Failed(_) => Stage::Failed,
        }
    }

    /// The status with which the process ends once the run is over: 0 after
    /// a run that ended well, 75 after a failure that a later run may get
    /// past, 1 after any other failure.
    pub open spec fn status(self) -> Option<u8> {
        match self {
            Pipeline::Done(_) => Some(0u8),
            Pipeline::Failed(f) => if f.error.retryable() {
                Some(75u8)
            } else {
                Some(1u8)
            },
            _ => None,
        }
    }

    /// The stage of the run.
    pub fn stage(&self) -> (stage: Stage)
        ensures
            stage == self.stage_of(),
    {
        match self {
            Pipeline::Locating { .. } | Pipeline::LocatingByLink { .. } => Stage::Locate,
            Pipeline::ReadingCache { .. } | Pipeline::Fetching { .. } | Pipeline::Caching {
                ..
            } => Stage::FetchTranscript,
            Pipeline::Summarizing { .. } => Stage::Summarize,
            Pipeline::Delivering { .. } => Stage::Deliver,
            Pipeline::Done(_) => Stage::Done,
            Pipeline::Failed(_) => Stage::Failed,
        }
    }

    /// The status with which the process is to end, once the run is over.
    pub fn exit_status(&self) -> (status: Option<u8>)
        ensures
            status == self.status(),
    {
        match self {
            Pipeline::Done(_) => Some(0),
            Pipeline::Failed(f) => if f.error.is_retryable() {
                Some(75)
            } else {
                Some(1)
            },
            _ => None,
        }
    }

    /// Starts the run for the newest video of the monitored series on the
    /// configured channel. A blank channel identifier fails the run at
    /// once.
    pub fn start(config: &Config) -> (r: (Pipeline, Action))
        ensures
            if trimmed(config.ksforword_channel_id@).len() == 0 {
                &&& r.0 matches Pipeline::Failed(f)
                &&& f.stage == Stage::Locate
                &&& f.batch is None
                &&& is_config_error(
                    f.error,
                    "channel_id is empty; set KSFORWORD_CHANNEL_ID before running"@,
                )
                &&& r.1 is Stop
            } else {
                &&& r.0 == (Pipeline::Locating { use_canned: config.use_mock_data })
                &&& r.1 matches Action::Search { channel_id }
                &&& channel_id@ == config.ksforword_channel_id@
            },
    {
        if is_blank(config.ksforword_channel_id.as_str()) {
            (
                Pipeline::Failed(
                    Failure {
                        stage: Stage::Locate,
                        error: AppError::config(
                            "channel_id is empty; set KSFORWORD_CHANNEL_ID before running",
                        ),
                        batch: None,
                    },
                ),
                Action::Stop,
            )
        } else {
            (
                Pipeline::Locating { use_canned: config.use_mock_data },
                Action::Search { channel_id: config.ksforword_channel_id.clone() },
            )
        }
    }

    /// Starts the run for the video behind `link`. A link without video
    /// identifier fails the run at once.
    pub fn start_with_link(link: &str) -> (r: (Pipeline, Action))
        ensures
            match video_id_of(link@) {
                Some(id) => {
                    &&& r.0 matches Pipeline::LocatingByLink { link: kept }
                    &&& kept@ == link@
                    &&& r.1 matches Action::LookUp { video_id }
                    &&& video_id@ == id
                },
                None => fails_on_video(
                    Stage::Locate,
                    "Could not extract video ID from URL"@,
                    r.0,
                    r.1,
                ),
            },
    {
        match extract_video_id(link) {
            Ok(video_id) => (
                Pipeline::LocatingByLink { link: link.to_owned() },
                Action::LookUp { video_id },
            ),
            Err(error) => (
                Pipeline::Failed(Failure { stage: Stage::Locate, error, batch: None }),
                Action::Stop,
            ),
        }
    }

    /// Takes the run one step on: told `event`, the result of the action
    /// that was pending, it gives the next state and the next action. An
    /// event that does not answer the pending action fails the run; a run
    /// that is over stays as it is.
    pub fn advance(self, event: Event) -> (r: (Pipeline, Action))
        ensures
            follows(self, event, r.0, r.1),
    {
        match self {
            Pipeline::Locating { use_canned } => match event {
                Event::VideosListed(Ok(items)) => match pick_latest(&items, "KS Forward") {
                    Some(video) => begin_fetch(video, use_canned),
                    None => (Pipeline::Done(Outcome::NothingToProcess), Action::Stop),
                },
                Event::VideosListed(Err(error)) => failed(Stage::Locate, error, None),
                _ => unexpected(Stage::Locate),
            },
            Pipeline::LocatingByLink { link } => match event {
                Event::VideosListed(Ok(items)) => {
                    if items.len() == 0 {
                        (
                            Pipeline::Failed(
                                Failure {
                                    stage: Stage::Locate,
                                    error: AppError::youtube(
                                        "No video details found for the provided link",
                                    ),
                                    batch: None,
                                },
                            ),
                            Action::Stop,
                        )
                    } else {
                        let found = candidate(&items[0]);
                        let video = SearchResult {
                            video_id: found.video_id,
                            link,
                            title: found.title,
                            publish_time: found.publish_time,
                        };
                        begin_fetch(video, false)
                    }
                },
                Event::VideosListed(Err(error)) => failed(Stage::Locate, error, None),
                _ => unexpected(Stage::Locate),
            },
            Pipeline::ReadingCache { video, key } => match event {
                Event::CacheRead(Some(transcript)) => {
                    let text = flatten(&transcript);
                    begin_summary(video, text.as_str())
                },
                Event::CacheRead(None) => {
                    let link = video.link.clone();
                    (Pipeline::Fetching { video, key: Some(key) }, Action::FetchTranscript { link })
                },
                _ => unexpected(Stage::FetchTranscript),
            },
            Pipeline::Fetching { video, key } => match event {
                Event::TranscriptFetched(Ok(fetched)) => {
                    let text = flatten(&fetched.document);
                    match key {
                        Some(key) => (
                            Pipeline::Caching { video, text },
                            Action::WriteCache { key, raw: fetched.raw },
                        ),
                        None => begin_summary(video, text.as_str()),
                    }
                },
                Event::TranscriptFetched(Err(error)) => failed(
                    Stage::FetchTranscript,
                    error,
                    None,
                ),
                _ => unexpected(Stage::FetchTranscript),
            },
            Pipeline::Caching { video, text } => match event {
                Event::CacheWritten(_) => begin_summary(video, text.as_str()),
                _ => unexpected(Stage::FetchTranscript),
            },
            Pipeline::Summarizing { video } => match event {
                Event::Summarized(Ok(summary)) => {
                    let requests = compose_message(
                        video.title.as_str(),
                        summary.reply.answer.as_str(),
                        summary.received_at.as_str(),
                    );
                    let request = requests[0].clone();
                    (
                        Pipeline::Delivering {
                            video,
                            answer: summary.reply.answer,
                            requests,
                            next: 0,
                        },
                        Action::Deliver { index: 0, request },
                    )
                },
                Event::Summarized(Err(error)) => failed(Stage::Summarize, error, None),
                _ => unexpected(Stage::Summarize),
            },
            Pipeline::Delivering { video, answer, requests, next } => match event {
                Event::Delivered(Ok(_)) => {
                    let total = requests.len();
                    if next < total && next + 1 < total {
                        let request = requests[next + 1].clone();
                        (
                            Pipeline::Delivering { video, answer, requests, next: next + 1 },
                            Action::Deliver { index: next + 1, request },
                        )
                    } else {
                        (Pipeline::Done(Outcome::Delivered { answer, requests: total }), Action::Stop)
                    }
                },
                Event::Delivered(Err(error)) => failed(Stage::Deliver, error, Some(next)),
                _ => unexpected(Stage::Deliver),
            },
            Pipeline::Done(outcome) => (Pipeline::Done(outcome), Action::Stop),
            Pipeline::Failed(failure) => (Pipeline::Failed(failure), Action::Stop),
        }
    }
}

/// The place of a stage in the order of a run.
pub open spec fn rank(stage: Stage) -> nat {
    match stage {
        Stage::Locate => 0,
        Stage::FetchTranscript => 1,
        Stage::Summarize => 2,
        Stage::Deliver => 3,
        Stage::Done => 4,
        Stage::Failed => 4,
    }
}

/// Where the flattened transcript holds segment `i`: after the segments
/// before it and the spaces that follow them.
pub open spec fn segment_start(parts: Seq<Seq<char>>, i: int) -> int {
    if i <= 0 {
        0
    } else {
        (joined(parts.take(i), seq![' ']).len() + 1) as int
    }
}

/// Flattening drops no segment and keeps the order: every segment's text
/// stands in the flattened transcript, the first at the start, each later
/// one a single space after the one before it, and the last at the end.
pub proof fn lemma_flat_text_holds_each_segment(transcript: TranscriptDocument, i: int)
    requires
        0 <= i < transcript.content@.len(),
    ensures
        crate::text::occurs_at(
            transcript.flat_text(),
            transcript.content@[i].text@,
            segment_start(segment_texts(transcript.content@), i),
        ),
        i > 0 ==> segment_start(segment_texts(transcript.content@), i) == segment_start(
            segment_texts(transcript.content@),
            i - 1,
        ) + transcript.content@[i - 1].text@.len() + 1,
        i > 0 ==> transcript.flat_text()[segment_start(segment_texts(transcript.content@), i)
            - 1] == ' ',
        i == transcript.content@.len() - 1 ==> segment_start(
            segment_texts(transcript.content@),
            i,
        ) + transcript.content@[i].text@.len() == transcript.flat_text().len(),
{
    let parts = segment_texts(transcript.content@);
    lemma_joined_prefix(parts, parts.len() as int, i);
    assert(parts.take(parts.len() as int) =~= parts);
    if i > 0 {
        lemma_joined_step(parts, i);
    }
}

/// The first `k` parts, joined, are the first `k - 1` parts, joined,
/// followed by a space and part `k - 1`.
proof fn lemma_joined_step(parts: Seq<Seq<char>>, k: int)
    requires
        1 <= k <= parts.len(),
    ensures
        joined(parts.take(k), seq![' ']) == if k == 1 {
            parts[0]
        } else {
            joined(parts.take(k - 1), seq![' ']) + seq![' '] + parts[k - 1]
        },
{
    let head = parts.take(k);
    assert(head.drop_last() =~= parts.take(k - 1));
}

/// What the first `i + 1` parts join to is a prefix of what the first `k`
/// parts join to, and ends with part `i`.
proof fn lemma_joined_prefix(parts: Seq<Seq<char>>, k: int, i: int)
    requires
        0 <= i < k <= parts.len(),
    ensures
        crate::text::occurs_at(joined(parts.take(k), seq![' ']), parts[i], segment_start(parts, i)),
        joined(parts.take(i + 1), seq![' ']).is_prefix_of(joined(parts.take(k), seq![' '])),
        joined(parts.take(i + 1), seq![' ']).len() == segment_start(parts, i) + parts[i].len(),
        i > 0 ==> joined(parts.take(k), seq![' '])[segment_start(parts, i) - 1] == ' ',
    decreases k,
{
    let sep = seq![' '];
    let whole = joined(parts.take(k), sep);
    lemma_joined_step(parts, k);
    if i == k - 1 {
        if i > 0 {
            let before = joined(parts.take(k - 1), sep);
            assert(whole.subrange((before.len() + 1) as int, whole.len() as int) =~= parts[i]);
        }
        assert(whole.subrange(0, whole.len() as int) =~= whole);
    } else {
        lemma_joined_prefix(parts, k - 1, i);
        let shorter = joined(parts.take(k - 1), sep);
        let start = segment_start(parts, i);
        assert(whole.subrange(start, start + parts[i].len()) =~= shorter.subrange(
            start,
            start + parts[i].len(),
        ));
    }
}

/// A run only moves forward: a step never leads to an earlier stage.
pub proof fn lemma_stages_only_advance(
    state: Pipeline,
    event: Event,
    next: Pipeline,
    action: Action,
)
    requires
        follows(state, event, next, action),
    ensures
        rank(next.stage_of()) >= rank(state.stage_of()),
{
}

/// A run that is over stays over: whatever it is told, its state does not
/// change and it asks for nothing more. And a step asks for nothing more
/// only where it ends the run.
pub proof fn lemma_over_is_final(
    state: Pipeline,
    event: Event,
    next: Pipeline,
    action: Action,
)
    requires
        follows(state, event, next, action),
    ensures
        state is Done || state is Failed ==> next == state,
        action is Stop <==> next is Done || next is Failed,
        next.status() is Some <==> action is Stop,
{
}

/// A transcript found in the cache is used without any call to the
/// provider: the step after a cache hit asks for the summary, or ends the
/// run where the transcript is empty. Only a miss leads to a fetch.
pub proof fn lemma_cache_hit_skips_fetch(
    state: Pipeline,
    cached: Option<TranscriptDocument>,
    next: Pipeline,
    action: Action,
)
    requires
        state is ReadingCache,
        follows(state, Event::CacheRead(cached), next, action),
    ensures
        action is FetchTranscript <==> cached is None,
        cached matches Some(transcript) ==> starts_summary(
            state->ReadingCache_video,
            transcript.flat_text(),
            next,
            action,
        ),
{
}

/// Caching is best effort: whether the cache stored the transcript or not,
/// the run goes on in the same way, and never fails over it.
pub proof fn lemma_cache_write_never_fails_the_run(
    state: Pipeline,
    stored: bool,
    next: Pipeline,
    action: Action,
)
    requires
        state is Caching,
        follows(state, Event::CacheWritten(stored), next, action),
    ensures
        follows(state, Event::CacheWritten(!stored), next, action),
        !(next is Failed),
{
}

/// The requests of a run are delivered one at a time, in order: after
/// request `n` was delivered the run asks for request `n + 1`, or is done
/// where `n` was the last. A request that could not be delivered fails the
/// run and is named in the failure; the run asks for no request after it.
pub proof fn lemma_delivery_is_sequential(
    state: Pipeline,
    delivered: Result<(), AppError>,
    next: Pipeline,
    action: Action,
)
    requires
        state is Delivering,
        follows(state, Event::Delivered(delivered), next, action),
    ensures
        match delivered {
            Ok(_) => match action {
                Action::Deliver { index, request } => {
                    &&& index == state->Delivering_next + 1
                    &&& index < state->Delivering_requests@.len()
                    &&& request@ == state->Delivering_requests@[index as int]@
                },
                _ => next is Done && state->Delivering_next + 1 >= state->Delivering_requests@.len(),
            },
            Err(error) => {
                &&& next matches Pipeline::Failed(f)
                &&& f.stage == Stage::Deliver
                &&& f.error == error
                &&& f.batch == Some(state->Delivering_next)
                &&& action is Stop
            },
        },
{
}

/// What goes into the cache is the provider's answer as it came, under the
/// identifier read from the video's link: the step after a fetch hands
/// both back unchanged.
pub proof fn lemma_cache_takes_the_answer_as_it_came(
    state: Pipeline,
    fetched: FetchedTranscript,
    next: Pipeline,
    action: Action,
)
    requires
        state matches Pipeline::Fetching { key: Some(_), .. },
        follows(state, Event::TranscriptFetched(Ok(fetched)), next, action),
    ensures
        action == (Action::WriteCache { key: state->Fetching_key->0, raw: fetched.raw }),
        next is Caching,
{
}

} // verus!
