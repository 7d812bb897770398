//! What the summarising backend answers.

use vstd::prelude::*;

verus! {

/// The backend's reply.
#[derive(Debug, Clone, PartialEq, Eq, Default)]
pub struct Root {
    /// The answer text.
    pub answer: String,
    /// The steps the backend took; informational only.
    pub events: Vec<Event>,
    /// The conversation the reply belongs to.
    pub session_id: String,
    /// Whether the backend drew on earlier context.
    pub context_used: bool,
}

/// One step of the backend's trace. `tool` and `target_agent` hold the
/// step's free-form values as JSON text.
#[derive(Debug, Clone, PartialEq, Eq, Default)]
pub struct Event {
    pub step: i64,
    pub agent: String,
    pub action: String,
    pub tool: String,
    pub target_agent: String,
    pub thought: String,
}

} // verus!
