//! What the video search returns, and the candidate picked from it.

use crate::text::opt_text;
use vstd::prelude::*;

verus! {

/// The video picked for processing.
#[derive(Debug, Clone, PartialEq, Eq, Default)]
pub struct SearchResult {
    pub video_id: String,
    /// The watch page of `video_id`.
    pub link: String,
    pub title: String,
    pub publish_time: String,
}

/// The model of a [`SearchResult`].
pub struct SearchResultView {
    pub video_id: Seq<char>,
    pub link: Seq<char>,
    pub title: Seq<char>,
    pub publish_time: Seq<char>,
}

impl View for SearchResult {
    type V = SearchResultView;

    open spec fn view(&self) -> SearchResultView {
        SearchResultView {
            video_id: self.video_id@,
            link: self.link@,
            title: self.title@,
            publish_time: self.publish_time@,
        }
    }
}

/// One page of search or detail results.
#[derive(Debug, Clone, PartialEq, Eq, Default)]
pub struct Root {
    pub kind: String,
    pub etag: String,
    pub next_page_token: Option<String>,
    pub region_code: Option<String>,
    pub page_info: PageInfo,
    /// The videos, newest first.
    pub items: Vec<Item>,
}

#[derive(Debug, Clone, PartialEq, Eq, Default)]
pub struct PageInfo {
    pub total_results: i64,
    pub results_per_page: i64,
}

/// One video of a result page.
#[derive(Debug, Clone, PartialEq, Eq, Default)]
pub struct Item {
    pub kind: String,
    pub etag: String,
    pub id: Id,
    pub snippet: Snippet,
}

/// A video's identifier, in either of the two shapes the provider uses.
#[derive(Debug, Clone, PartialEq, Eq)]
pub enum Id {
    /// A plain identifier, as the detail lookup returns it.
    StringId(String),
    /// An identifier object, as the search returns it.
    Object { kind: Option<String>, video_id: Option<String> },
}

impl Default for Id {
    fn default() -> (id: Id)
        ensures
            id matches Id::StringId(s) && s@.len() == 0,
    {
        Id::StringId(String::new())
    }
}

impl Id {
    /// The video identifier that `self` carries: a plain identifier unless
    /// it is empty, or the `video_id` of an identifier object.
    pub open spec fn video_id(self) -> Option<Seq<char>> {
        match self {
            Id::StringId(s) => if s@.len() == 0 {
                None
            } else {
                Some(s@)
            },
            Id::Object { video_id, .. } => opt_text(video_id),
        }
    }

    /// Return the video id when available.
    pub fn as_video_id(&self) -> (id: Option<String>)
        ensures
            opt_text(id) == self.video_id(),
    {
        match self {
            Id::StringId(s) => {
                if s.as_str().is_empty() {
                    None
                } else {
                    Some(s.clone())
                }
            },
            Id::Object { video_id, .. } => crate::text::copy_opt(video_id),
        }
    }
}

#[derive(Debug, Clone, PartialEq, Eq, Default)]
pub struct Snippet {
    pub published_at: Option<String>,
    pub channel_id: Option<String>,
    pub title: Option<String>,
    pub description: Option<String>,
    pub thumbnails: Option<Thumbnails>,
    pub channel_title: Option<String>,
    pub live_broadcast_content: Option<String>,
    pub publish_time: Option<String>,
}

#[derive(Debug, Clone, PartialEq, Eq, Default)]
pub struct Thumbnails {
    pub default: Option<ThumbnailDefault>,
    pub medium: Option<Medium>,
    pub high: Option<High>,
}

#[derive(Debug, Clone, PartialEq, Eq, Default)]
pub struct ThumbnailDefault {
    pub url: Option<String>,
    pub width: Option<i64>,
    pub height: Option<i64>,
}

#[derive(Debug, Clone, PartialEq, Eq, Default)]
pub struct Medium {
    pub url: Option<String>,
    pub width: Option<i64>,
    pub height: Option<i64>,
}

#[derive(Debug, Clone, PartialEq, Eq, Default)]
pub struct High {
    pub url: Option<String>,
    pub width: Option<i64>,
    pub height: Option<i64>,
}

} // verus!
