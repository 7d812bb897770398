//! The stages and the policies that the stages share.

pub mod discord_service;
pub mod http_client;
pub mod ks_forward_service;
pub mod my_ai_service;
pub mod supabase_service;
pub mod todo_service;
pub mod youtube_service;
