//! A video's transcript as the transcript provider returns it.

use crate::text::joined;
use vstd::prelude::*;

verus! {

/// A transcript document.
#[derive(Debug, Clone, PartialEq, Eq, Default)]
pub struct Root {
    /// The language of the transcript.
    pub lang: String,
    /// The languages in which the provider offers the transcript.
    pub available_langs: Vec<String>,
    /// The segments, in the provider's order.
    pub content: Vec<Content>,
}

/// One timed snippet of transcript text. `offset` and `duration` are whole
/// milliseconds.
#[derive(Debug, Clone, PartialEq, Eq, Default)]
pub struct Content {
    pub lang: String,
    pub text: String,
    pub offset: u64,
    pub duration: u64,
}

/// A transcript flattened to one text.
#[derive(Debug, Clone, PartialEq, Eq, Default)]
pub struct Transcript {
    pub full_transcript: String,
}

/// The texts of `segments`, in order.
pub open spec fn segment_texts(segments: Seq<Content>) -> Seq<Seq<char>> {
    segments.map_values(|c: Content| c.text@)
}

impl Root {
    /// The flattened transcript: the texts of all segments, in the order
    /// received, with a single space between neighbours.
    pub open spec fn flat_text(self) -> Seq<char> {
        joined(segment_texts(self.content@), seq![' '])
    }
}

} // verus!
