//! The transcript provider and the cache that stands before it.
//!
//! The cache keeps one file per video identifier. Reading and writing the
//! files is the caller's; which file belongs to an identifier is decided
//! here.

use crate::error::{is_config_error, is_youtube_error, AppError};
use crate::services::http_client::{push_pair, HttpRequest, Method, RequestView};
use crate::services::youtube_service::{extract_video_id, video_id_of};
use crate::text::{chars_of, is_blank, trimmed};
use vstd::prelude::*;

verus! {

/// The time allowed for one attempt to fetch a transcript, in seconds.
pub const TRANSCRIPT_TIMEOUT_SECS: u64 = 30;

/// The request that fetches the transcript of the video behind `url`.
pub open spec fn transcript_request_of(url: Seq<char>, key: Seq<char>) -> RequestView {
    RequestView {
        method: Method::Get,
        url: "https://api.supadata.ai/v1/transcript"@,
        headers: seq![("x-api-key"@, key)],
        query: seq![("url"@, url)],
        timeout_secs: Some(TRANSCRIPT_TIMEOUT_SECS),
    }
}

/// Describes the fetch of the transcript of the video behind `url`. A
/// blank link is refused, then a link without video identifier, under
/// which nothing could be cached, then a blank key.
pub fn transcript_request(url: &str, key: &str) -> (r: Result<HttpRequest, AppError>)
    ensures
        match r {
            Ok(request) => {
                &&& trimmed(url@).len() > 0
                &&& video_id_of(url@) is Some
                &&& trimmed(key@).len() > 0
                &&& request@ == transcript_request_of(url@, key@)
            },
            Err(error) => if trimmed(url@).len() == 0 {
                is_youtube_error(error, "youtube url is empty"@)
            } else if video_id_of(url@) is None {
                is_youtube_error(error, "Could not extract video ID from URL"@)
            } else {
                &&& trimmed(key@).len() == 0
                &&& is_config_error(
                    error,
                    "SUPABASE_API_KEY is empty; set the secret/env before running"@,
                )
            },
        },
{
    if is_blank(url) {
        return Err(AppError::youtube("youtube url is empty"));
    }
    match extract_video_id(url) {
        Ok(_) => {},
        Err(error) => {
            return Err(error);
        },
    }
    if is_blank(key) {
        return Err(
            AppError::config("SUPABASE_API_KEY is empty; set the secret/env before running"),
        );
    }
    let mut headers: Vec<(String, String)> = Vec::new();
    push_pair(&mut headers, "x-api-key", key);
    let mut query: Vec<(String, String)> = Vec::new();
    push_pair(&mut query, "url", url);
    let request = HttpRequest {
        method: Method::Get,
        url: "https://api.supadata.ai/v1/transcript".to_owned(),
        headers,
        query,
        timeout_secs: Some(TRANSCRIPT_TIMEOUT_SECS),
    };
    assert(request@.query =~= transcript_request_of(url@, key@).query);
    assert(request@.headers =~= transcript_request_of(url@, key@).headers);
    Ok(request)
}

/// Whether `c` may stand in a cache key: an ASCII letter or digit, `-` or
/// `_`.
pub open spec fn is_key_char(c: char) -> bool {
    let u = c as u32;
    ||| 0x30 <= u <= 0x39
    ||| 0x41 <= u <= 0x5A
    ||| 0x61 <= u <= 0x7A
    ||| c == '-'
    ||| c == '_'
}

/// Whether `key` can name a cache file: it is not empty and holds key
/// characters only, so that the file lies in the cache directory itself.
pub open spec fn is_cache_key(key: Seq<char>) -> bool {
    key.len() > 0 && forall|i: int| 0 <= i < key.len() ==> is_key_char(#[trigger] key[i])
}

/// The directory that holds the cache files.
pub open spec fn cache_dir() -> Seq<char> {
    "cache/transcripts"@
}

/// The path of the cache file of `key`: its name within the cache
/// directory.
pub open spec fn cache_path_of(key: Seq<char>) -> Option<Seq<char>> {
    match cache_file_of(key) {
        Some(name) => Some(cache_dir() + seq!['/'] + name),
        None => None,
    }
}

/// The name of the cache file of `key`.
pub open spec fn cache_file_of(key: Seq<char>) -> Option<Seq<char>> {
    if is_cache_key(key) {
        Some(key + ".json"@)
    } else {
        None
    }
}

/// The name, within the cache directory, of the file that holds the
/// transcript of the video `key`; `None` for a key that cannot name a
/// file, under which nothing is cached.
pub fn cache_file_name(key: &str) -> (name: Option<String>)
    ensures
        crate::text::opt_text(name) == cache_file_of(key@),
{
    let chars = chars_of(key);
    if chars.len() == 0 {
        return None;
    }
    let mut i: usize = 0;
    while i < chars.len()
        invariant
            i <= chars@.len(),
            chars@ == key@,
            forall|j: int| 0 <= j < i ==> is_key_char(#[trigger] chars@[j]),
        decreases chars@.len() - i,
    {
        let c = chars[i];
        let u = c as u32;
        let ok = (0x30 <= u && u <= 0x39) || (0x41 <= u && u <= 0x5A) || (0x61 <= u && u <= 0x7A)
            || c == '-' || c == '_';
        if !ok {
            return None;
        }
        i = i + 1;
    }
    let mut name = key.to_owned();
    name.append(".json");
    Some(name)
}

/// The directory that holds the cache files, one per video.
pub fn cache_directory() -> (dir: &'static str)
    ensures
        dir@ == cache_dir(),
{
    "cache/transcripts"
}

/// The path of the file that holds the transcript of the video `key`;
/// `None` for a key that cannot name a file.
pub fn cache_file_path(key: &str) -> (path: Option<String>)
    ensures
        crate::text::opt_text(path) == cache_path_of(key@),
{
    match cache_file_name(key) {
        Some(name) => {
            let mut path = cache_directory().to_owned();
            proof {
                reveal_strlit("/");
            }
            path.append("/");
            path.append(name.as_str());
            Some(path)
        },
        None => None,
    }
}

} // verus!
