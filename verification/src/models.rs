//! The data that travels between the stages.

pub mod discord;
pub mod my_ai_response;
pub mod todo;
pub mod youtube_snippet;
pub mod youtube_transcript;
