use ks_forward::config::Config;
use ks_forward::error::AppError;
use ks_forward::models::my_ai_response::Root as Reply;
use ks_forward::models::youtube_snippet::{Id, Item, SearchResult, Snippet};
use ks_forward::models::youtube_transcript::{Content, Root as TranscriptDocument};
use ks_forward::services::ks_forward_service::{
    flatten, parse_transcript_fullscript, Action, Event, Failure, FetchedTranscript, Outcome,
    Pipeline, Stage, Summary,
};
use std::collections::HashMap;

fn config(use_mock_data: bool) -> Config {
    Config {
        api_url: "https://api.example".to_string(),
        token: "t".to_string(),
        youtube_api_key: "yt".to_string(),
        supabase_api_key: "sb".to_string(),
        ksforword_channel_id: "UC1".to_string(),
        use_mock_data,
        my_ai_api_url: "https://ai.example".to_string(),
        discord_ks_bot_token: "https://discord.example/hook".to_string(),
    }
}

fn video(id: &str, title: &str) -> Item {
    Item {
        kind: String::new(),
        etag: String::new(),
        id: Id::Object { kind: None, video_id: Some(id.to_string()) },
        snippet: Snippet {
            title: Some(title.to_string()),
            publish_time: Some("2024-01-01T00:00:00Z".to_string()),
            ..Snippet::default()
        },
    }
}

fn picked(id: &str, title: &str) -> SearchResult {
    SearchResult {
        video_id: id.to_string(),
        link: format!("https://www.youtube.com/watch?v={}", id),
        title: title.to_string(),
        publish_time: "2024-01-01T00:00:00Z".to_string(),
    }
}

fn transcript(texts: &[&str]) -> TranscriptDocument {
    TranscriptDocument {
        lang: "th".to_string(),
        available_langs: vec!["th".to_string()],
        content: texts
            .iter()
            .enumerate()
            .map(|(i, t)| Content {
                lang: "th".to_string(),
                text: t.to_string(),
                offset: 1000 * i as u64,
                duration: 900,
            })
            .collect(),
    }
}

fn reply(answer: &str) -> Reply {
    Reply {
        answer: answer.to_string(),
        events: Vec::new(),
        session_id: "s1".to_string(),
        context_used: false,
    }
}

const NOW: &str = "2024-03-03T08:00:00+07:00";

fn summary(answer: &str) -> Summary {
    Summary { reply: reply(answer), received_at: NOW.to_string() }
}

/// The provider's answer for a transcript, written as the provider would:
/// with fractional times that the decoded document does not keep.
fn raw_of(texts: &[&str]) -> String {
    let parts: Vec<String> = texts
        .iter()
        .map(|t| format!("{{\"text\":\"{}\",\"offset\":0.5,\"duration\":1.25}}", t))
        .collect();
    format!("{{\"lang\":\"th\",\"content\":[{}]}}", parts.join(","))
}

fn fetched(texts: &[&str]) -> FetchedTranscript {
    FetchedTranscript { raw: raw_of(texts), document: transcript(texts) }
}

/// The collaborators of a run, played from memory, counting their calls.
struct World {
    videos: Vec<Item>,
    provider: HashMap<String, Vec<String>>,
    cache: HashMap<String, String>,
    cache_accepts_writes: bool,
    answer: String,
    failing_request: Option<usize>,
    provider_calls: usize,
    cache_writes: usize,
    summarized: Vec<String>,
    delivered: Vec<(usize, Vec<String>)>,
}

impl World {
    fn new() -> World {
        World {
            videos: Vec::new(),
            provider: HashMap::new(),
            cache: HashMap::new(),
            cache_accepts_writes: true,
            answer: "the summary".to_string(),
            failing_request: None,
            provider_calls: 0,
            cache_writes: 0,
            summarized: Vec::new(),
            delivered: Vec::new(),
        }
    }

    fn perform(&mut self, action: Action) -> Option<Event> {
        match action {
            Action::Search { .. } | Action::LookUp { .. } => {
                Some(Event::VideosListed(Ok(self.videos.clone())))
            }
            Action::ReadCache { key } => {
                Some(Event::CacheRead(self.cache.get(&key).map(|raw| self.decode(raw))))
            }
            Action::FetchTranscript { link } => {
                self.provider_calls += 1;
                match self.provider.get(&link) {
                    Some(texts) => {
                        let texts: Vec<&str> = texts.iter().map(|t| t.as_str()).collect();
                        Some(Event::TranscriptFetched(Ok(fetched(&texts))))
                    }
                    None => Some(Event::TranscriptFetched(Err(AppError::TranscriptNotFound {
                        video_id: link,
                    }))),
                }
            }
            Action::LoadCanned => Some(Event::TranscriptFetched(Ok(fetched(&["canned", "text"])))),
            Action::WriteCache { key, raw } => {
                self.cache_writes += 1;
                if self.cache_accepts_writes {
                    self.cache.insert(key, raw);
                }
                Some(Event::CacheWritten(self.cache_accepts_writes))
            }
            Action::Summarize { content } => {
                self.summarized.push(content);
                Some(Event::Summarized(Ok(summary(&self.answer))))
            }
            Action::Deliver { index, request } => {
                if self.failing_request == Some(index) {
                    return Some(Event::Delivered(Err(AppError::ApiError {
                        url: "https://discord.example/hook".to_string(),
                        status: 503,
                    })));
                }
                let bodies = request
                    .embeds
                    .unwrap()
                    .into_iter()
                    .map(|embed| embed.description)
                    .collect();
                self.delivered.push((index, bodies));
                Some(Event::Delivered(Ok(())))
            }
            Action::Stop => None,
        }
    }

    /// Decodes a cached answer: the document of the provider's transcript
    /// that was written out to it.
    fn decode(&self, raw: &str) -> TranscriptDocument {
        for texts in self.provider.values() {
            let texts: Vec<&str> = texts.iter().map(|t| t.as_str()).collect();
            if raw_of(&texts) == raw {
                return transcript(&texts);
            }
        }
        panic!("the cache holds what no provider answered: {}", raw);
    }

    fn provide(&mut self, id: &str, texts: &[&str]) {
        self.provider.insert(
            format!("https://www.youtube.com/watch?v={}", id),
            texts.iter().map(|t| t.to_string()).collect(),
        );
    }

    fn run(&mut self, start: (Pipeline, Action)) -> Pipeline {
        let (mut state, mut action) = start;
        let mut steps = 0;
        while let Some(event) = self.perform(action) {
            let (next, then) = state.advance(event);
            state = next;
            action = then;
            steps += 1;
            assert!(steps < 100);
        }
        state
    }
}

#[test]
fn flatten_joins_segments_with_single_spaces() {
    assert_eq!(flatten(&transcript(&["Hello", "world"])), "Hello world");
    assert_eq!(flatten(&transcript(&["a", "b", "c", "d"])), "a b c d");
    assert_eq!(flatten(&transcript(&["only"])), "only");
    assert_eq!(flatten(&transcript(&[])), "");
}

#[test]
fn flatten_keeps_empty_segments_and_the_order_given() {
    assert_eq!(flatten(&transcript(&["a", "", "b"])), "a  b");
    assert_eq!(flatten(&transcript(&["", ""])), " ");
    assert_eq!(flatten(&transcript(&[""])), "");
    assert_eq!(flatten(&transcript(&["second", "first"])), "second first");
    assert_eq!(flatten(&transcript(&["สวัสดี", "ครับ"])), "สวัสดี ครับ");
}

#[test]
fn parse_transcript_fullscript_flattens() {
    assert_eq!(
        parse_transcript_fullscript(transcript(&["one", "two", "three"])),
        Ok("one two three".to_string())
    );
    assert_eq!(parse_transcript_fullscript(TranscriptDocument::default()), Ok(String::new()));
}

#[test]
fn start_asks_for_the_channels_videos() {
    let (state, action) = Pipeline::start(&config(false));
    assert_eq!(state, Pipeline::Locating { use_canned: false });
    assert_eq!(action, Action::Search { channel_id: "UC1".to_string() });
    assert_eq!(state.stage(), Stage::Locate);
    assert_eq!(state.exit_status(), None);
}

#[test]
fn start_refuses_a_blank_channel() {
    let mut blank = config(false);
    blank.ksforword_channel_id = "  ".to_string();
    let (state, action) = Pipeline::start(&blank);
    assert_eq!(action, Action::Stop);
    assert_eq!(
        state,
        Pipeline::Failed(Failure {
            stage: Stage::Locate,
            error: AppError::Config {
                message: "channel_id is empty; set KSFORWORD_CHANNEL_ID before running".to_string()
            },
            batch: None,
        })
    );
    assert_eq!(state.exit_status(), Some(1));
}

#[test]
fn end_to_end_picks_the_series_video_and_delivers_its_summary() {
    let mut world = World::new();
    world.videos = vec![video("new1", "Other Show"), video("old1", "KS Forward Ep1")];
    world.provide("old1", &["first part", "second part"]);
    let end = world.run(Pipeline::start(&config(false)));
    assert_eq!(
        end,
        Pipeline::Done(Outcome::Delivered { answer: "the summary".to_string(), requests: 1 })
    );
    assert_eq!(end.stage(), Stage::Done);
    assert_eq!(end.exit_status(), Some(0));
    assert_eq!(world.summarized, vec!["first part second part".to_string()]);
    assert_eq!(world.delivered, vec![(0, vec!["the summary".to_string()])]);
    assert_eq!(world.provider_calls, 1);
}

#[test]
fn locate_step_moves_to_the_cache_lookup() {
    let (state, _) = Pipeline::start(&config(false));
    let listed = Event::VideosListed(Ok(vec![
        video("new1", "Other Show"),
        video("old1", "KS Forward Ep1"),
    ]));
    let (next, action) = state.advance(listed);
    assert_eq!(
        next,
        Pipeline::ReadingCache { video: picked("old1", "KS Forward Ep1"), key: "old1".to_string() }
    );
    assert_eq!(action, Action::ReadCache { key: "old1".to_string() });
    assert_eq!(next.stage(), Stage::FetchTranscript);
}

#[test]
fn no_matching_video_is_a_normal_end() {
    let mut world = World::new();
    world.videos = vec![video("new1", "Other Show")];
    let end = world.run(Pipeline::start(&config(false)));
    assert_eq!(end, Pipeline::Done(Outcome::NothingToProcess));
    assert_eq!(end.exit_status(), Some(0));
    assert_eq!(world.provider_calls, 0);
    assert!(world.summarized.is_empty());
    assert!(world.delivered.is_empty());
}

#[test]
fn empty_transcript_is_a_normal_end() {
    let mut world = World::new();
    world.videos = vec![video("abc123", "KS Forward Ep2")];
    world.provide("abc123", &[]);
    let end = world.run(Pipeline::start(&config(false)));
    assert_eq!(end, Pipeline::Done(Outcome::EmptyTranscript));
    assert_eq!(end.exit_status(), Some(0));
    assert!(world.summarized.is_empty());
    assert!(world.delivered.is_empty());
}

#[test]
fn second_fetch_is_served_from_the_cache() {
    let mut world = World::new();
    world.videos = vec![video("abc123", "KS Forward Ep3")];
    world.provide("abc123", &["alpha", "beta", "gamma"]);
    let first = world.run(Pipeline::start(&config(false)));
    assert!(matches!(first, Pipeline::Done(Outcome::Delivered { .. })));
    assert_eq!(world.provider_calls, 1);
    assert_eq!(world.cache_writes, 1);
    assert_eq!(world.cache.get("abc123"), Some(&raw_of(&["alpha", "beta", "gamma"])));

    let second = world.run(Pipeline::start(&config(false)));
    assert!(matches!(second, Pipeline::Done(Outcome::Delivered { .. })));
    assert_eq!(world.provider_calls, 1);
    assert_eq!(world.cache_writes, 1);
    assert_eq!(world.summarized, vec!["alpha beta gamma".to_string(), "alpha beta gamma".to_string()]);
}

#[test]
fn failed_cache_write_does_not_fail_the_run() {
    let mut world = World::new();
    world.cache_accepts_writes = false;
    world.videos = vec![video("abc123", "KS Forward Ep3")];
    world.provide("abc123", &["alpha"]);
    let end = world.run(Pipeline::start(&config(false)));
    assert!(matches!(end, Pipeline::Done(Outcome::Delivered { .. })));
    assert_eq!(world.cache_writes, 1);
    assert_eq!(world.delivered.len(), 1);
}

#[test]
fn canned_transcript_bypasses_cache_and_provider() {
    let mut world = World::new();
    world.videos = vec![video("abc123", "KS Forward Ep4")];
    let end = world.run(Pipeline::start(&config(true)));
    assert!(matches!(end, Pipeline::Done(Outcome::Delivered { .. })));
    assert_eq!(world.provider_calls, 0);
    assert_eq!(world.cache_writes, 0);
    assert_eq!(world.summarized, vec!["canned text".to_string()]);
}

#[test]
fn missing_transcript_fails_the_fetch_stage() {
    let mut world = World::new();
    world.videos = vec![video("abc123", "KS Forward Ep5")];
    let end = world.run(Pipeline::start(&config(false)));
    assert_eq!(
        end,
        Pipeline::Failed(Failure {
            stage: Stage::FetchTranscript,
            error: AppError::TranscriptNotFound {
                video_id: "https://www.youtube.com/watch?v=abc123".to_string()
            },
            batch: None,
        })
    );
    assert_eq!(end.stage(), Stage::Failed);
    assert_eq!(end.exit_status(), Some(1));
}

#[test]
fn search_failure_fails_the_locate_stage_with_a_retryable_status() {
    let (state, _) = Pipeline::start(&config(false));
    let error = AppError::ApiError { url: "https://yt.example".to_string(), status: 503 };
    let (next, action) = state.advance(Event::VideosListed(Err(error.clone())));
    assert_eq!(action, Action::Stop);
    assert_eq!(next, Pipeline::Failed(Failure { stage: Stage::Locate, error, batch: None }));
    assert_eq!(next.exit_status(), Some(75));
}

#[test]
fn summary_failure_fails_the_summarize_stage() {
    let state = Pipeline::Summarizing { video: picked("abc123", "KS Forward Ep6") };
    let error = AppError::AIService("overloaded".to_string());
    let (next, action) = state.advance(Event::Summarized(Err(error.clone())));
    assert_eq!(action, Action::Stop);
    assert_eq!(next, Pipeline::Failed(Failure { stage: Stage::Summarize, error, batch: None }));
}

#[test]
fn long_summary_is_delivered_in_order_request_by_request() {
    let mut world = World::new();
    world.videos = vec![video("abc123", "KS Forward Ep7")];
    world.provide("abc123", &["alpha"]);
    world.answer = format!("{}{}{}", "a".repeat(4000 * 10), "b".repeat(4000 * 10), "c");
    let end = world.run(Pipeline::start(&config(false)));
    assert_eq!(
        end,
        Pipeline::Done(Outcome::Delivered { answer: world.answer.clone(), requests: 3 })
    );
    assert_eq!(world.delivered.len(), 3);
    assert_eq!(world.delivered[0].0, 0);
    assert_eq!(world.delivered[1].0, 1);
    assert_eq!(world.delivered[2].0, 2);
    assert_eq!(world.delivered[0].1.len(), 10);
    assert_eq!(world.delivered[1].1.len(), 10);
    assert_eq!(world.delivered[2].1, vec!["c".to_string()]);
    let mut rebuilt = String::new();
    for (_, bodies) in &world.delivered {
        for body in bodies {
            rebuilt.push_str(body);
        }
    }
    assert_eq!(rebuilt, world.answer);
}

#[test]
fn failed_delivery_names_the_request_and_keeps_earlier_ones() {
    let mut world = World::new();
    world.videos = vec![video("abc123", "KS Forward Ep8")];
    world.provide("abc123", &["alpha"]);
    world.answer = "z".repeat(4000 * 10 * 2 + 1);
    world.failing_request = Some(1);
    let end = world.run(Pipeline::start(&config(false)));
    assert_eq!(
        end,
        Pipeline::Failed(Failure {
            stage: Stage::Deliver,
            error: AppError::ApiError {
                url: "https://discord.example/hook".to_string(),
                status: 503
            },
            batch: Some(1),
        })
    );
    assert_eq!(end.exit_status(), Some(75));
    assert_eq!(world.delivered.len(), 1);
    assert_eq!(world.delivered[0].0, 0);
}

#[test]
fn long_transcript_is_cut_before_summarising() {
    let state = Pipeline::Fetching { video: picked("abc123", "KS Forward Ep9"), key: None };
    let long = "w".repeat(100001);
    let (next, action) = state.advance(Event::TranscriptFetched(Ok(fetched(&[&long]))));
    assert_eq!(next, Pipeline::Summarizing { video: picked("abc123", "KS Forward Ep9") });
    assert_eq!(action, Action::Summarize { content: "w".repeat(100000) });
    assert_eq!(next.stage(), Stage::Summarize);
}

#[test]
fn summary_step_stamps_the_embeds_with_the_time_given() {
    let state = Pipeline::Summarizing { video: picked("abc123", "KS Forward Ep9") };
    let (next, action) = state.advance(Event::Summarized(Ok(summary("short"))));
    assert_eq!(next.stage(), Stage::Deliver);
    match action {
        Action::Deliver { index, request } => {
            assert_eq!(index, 0);
            let embeds = request.embeds.unwrap();
            assert_eq!(embeds.len(), 1);
            assert_eq!(embeds[0].title, "KS Forward Ep9");
            assert_eq!(embeds[0].description, "short");
            assert_eq!(embeds[0].timestamp, "2024-03-03T08:00:00+07:00");
        }
        _ => unreachable!(),
    }
}

#[test]
fn cache_takes_the_providers_answer_as_it_came() {
    let state = Pipeline::Fetching {
        video: picked("abc123", "KS Forward Ep9"),
        key: Some("abc123".to_string()),
    };
    let answer = fetched(&["alpha", "beta"]);
    let raw = answer.raw.clone();
    assert!(raw.contains("0.5"));
    let (next, action) = state.advance(Event::TranscriptFetched(Ok(answer)));
    assert_eq!(action, Action::WriteCache { key: "abc123".to_string(), raw });
    assert_eq!(
        next,
        Pipeline::Caching {
            video: picked("abc123", "KS Forward Ep9"),
            text: "alpha beta".to_string()
        }
    );
}

#[test]
fn unexpected_event_fails_the_run() {
    let (state, _) = Pipeline::start(&config(false));
    let (next, action) = state.advance(Event::CacheWritten(true));
    assert_eq!(action, Action::Stop);
    assert_eq!(
        next,
        Pipeline::Failed(Failure {
            stage: Stage::Locate,
            error: AppError::Internal("unexpected event".to_string()),
            batch: None,
        })
    );
}

#[test]
fn finished_run_stays_finished() {
    let done = Pipeline::Done(Outcome::NothingToProcess);
    let (next, action) = done.advance(Event::CacheWritten(true));
    assert_eq!(next, Pipeline::Done(Outcome::NothingToProcess));
    assert_eq!(action, Action::Stop);
    let failure = Failure { stage: Stage::Deliver, error: AppError::Discord { status: 400 }, batch: Some(0) };
    let failed = Pipeline::Failed(Failure { stage: Stage::Deliver, error: AppError::Discord { status: 400 }, batch: Some(0) });
    let (next, action) = failed.advance(Event::Delivered(Ok(())));
    assert_eq!(next, Pipeline::Failed(failure));
    assert_eq!(action, Action::Stop);
}

#[test]
fn on_demand_run_starts_from_the_link() {
    let (state, action) = Pipeline::start_with_link("https://youtu.be/abc123?t=5");
    assert_eq!(state, Pipeline::LocatingByLink { link: "https://youtu.be/abc123?t=5".to_string() });
    assert_eq!(action, Action::LookUp { video_id: "abc123".to_string() });
    let listed = Event::VideosListed(Ok(vec![Item {
        id: Id::StringId("abc123".to_string()),
        ..video("ignored", "Any Title")
    }]));
    let (next, action) = state.advance(listed);
    assert_eq!(
        next,
        Pipeline::ReadingCache {
            video: SearchResult {
                video_id: "abc123".to_string(),
                link: "https://youtu.be/abc123?t=5".to_string(),
                title: "Any Title".to_string(),
                publish_time: "2024-01-01T00:00:00Z".to_string(),
            },
            key: "abc123".to_string(),
        }
    );
    assert_eq!(action, Action::ReadCache { key: "abc123".to_string() });
}

#[test]
fn on_demand_run_needs_a_video_link_and_details() {
    let (state, action) = Pipeline::start_with_link("https://example.com/page");
    assert_eq!(action, Action::Stop);
    assert_eq!(
        state,
        Pipeline::Failed(Failure {
            stage: Stage::Locate,
            error: AppError::YouTube("Could not extract video ID from URL".to_string()),
            batch: None,
        })
    );
    let (state, _) = Pipeline::start_with_link("https://youtu.be/abc123");
    let (next, action) = state.advance(Event::VideosListed(Ok(Vec::new())));
    assert_eq!(action, Action::Stop);
    assert_eq!(
        next,
        Pipeline::Failed(Failure {
            stage: Stage::Locate,
            error: AppError::YouTube("No video details found for the provided link".to_string()),
            batch: None,
        })
    );
}

#[test]
fn video_without_identifier_cannot_be_fetched() {
    let (state, _) = Pipeline::start(&config(false));
    let mut nameless = video("x", "KS Forward Ep0");
    nameless.id = Id::Object { kind: None, video_id: None };
    let (next, action) = state.advance(Event::VideosListed(Ok(vec![nameless])));
    assert_eq!(action, Action::ReadCache { key: String::new() });
    assert_eq!(next.stage(), Stage::FetchTranscript);
}
