//! Reading video links and picking the video to process from a result page.

use crate::error::{is_config_error, is_youtube_error, AppError};
use crate::models::youtube_snippet::{Item, SearchResult, SearchResultView};
use crate::services::http_client::{push_pair, HttpRequest, Method, RequestView};
use crate::text::{
    after_first, before_first, chars_of, cut, find, find_in, has_prefix, is_blank,
    lemma_find_from, opt_text, trim_bounds, trimmed,
};
use vstd::prelude::*;

verus! {

/// What marks a watch-page link: the address of the page, up to the query.
pub open spec fn watch_marker() -> Seq<char> {
    "youtube.com/watch?"@
}

/// What marks a short link: the short-link host.
pub open spec fn short_marker() -> Seq<char> {
    "youtu.be/"@
}

/// The address of the watch page, up to the identifier.
pub open spec fn watch_page() -> Seq<char> {
    "https://www.youtube.com/watch?v="@
}

/// The earlier of two positions, where there is any.
pub open spec fn earlier(a: Option<int>, b: Option<int>) -> Option<int> {
    match (a, b) {
        (Some(x), Some(y)) => Some(if x <= y {
            x
        } else {
            y
        }),
        (Some(x), None) => Some(x),
        (None, _) => b,
    }
}

/// The value of the parameter named `v` in `query`, a query with its
/// leading `?`: what follows the first `?v=` or `&v=`, up to the next `&`
/// or the end. A query without such a parameter has none.
pub open spec fn v_parameter(query: Seq<char>) -> Option<Seq<char>> {
    match earlier(find(query, seq!['?', 'v', '=']), find(query, seq!['&', 'v', '='])) {
        Some(at) => Some(before_first(query.skip(at + 3), seq!['&'])),
        None => None,
    }
}

/// The first segment of `path`: what stands before its first `/` or `?`.
pub open spec fn first_segment(path: Seq<char>) -> Seq<char> {
    before_first(before_first(path, seq!['?']), seq!['/'])
}

/// The identifier in a watch-page link: the value of the parameter `v` in
/// the query that begins with the `?` of the first `youtube.com/watch?`.
pub open spec fn watch_id(link: Seq<char>) -> Option<Seq<char>> {
    match find(link, watch_marker()) {
        Some(at) => v_parameter(link.skip(at + watch_marker().len() - 1)),
        None => None,
    }
}

/// The identifier in a short link: the path segment that follows the first
/// `youtu.be/`.
pub open spec fn short_id(link: Seq<char>) -> Option<Seq<char>> {
    match after_first(link, short_marker()) {
        Some(path) => Some(first_segment(path)),
        None => None,
    }
}

/// The video identifier in `url`, leading and trailing white space aside:
/// that of a watch-page link, wherever its parameter `v` stands in the
/// query, or else that of a short link. Any other text holds none.
pub open spec fn video_id_of(url: Seq<char>) -> Option<Seq<char>> {
    match watch_id(trimmed(url)) {
        Some(id) => Some(id),
        None => short_id(trimmed(url)),
    }
}

/// How many characters of `chars` stand before the first `stop`.
fn len_before(chars: &Vec<char>, stop: char) -> (n: usize)
    ensures
        n <= chars@.len(),
        chars@.take(n as int) == before_first(chars@, seq![stop]),
{
    let mut one: Vec<char> = Vec::new();
    one.push(stop);
    proof {
        lemma_find_from(chars@, one@, 0);
    }
    match find_in(chars, &one, 0) {
        Some(at) => at,
        None => chars.len(),
    }
}

/// The bounds, within `query`, of the value of its parameter `v`.
fn v_bounds(query: &Vec<char>) -> (bounds: Option<(usize, usize)>)
    ensures
        match bounds {
            Some((from, to)) => from <= to <= query@.len() && v_parameter(query@) == Some(
                query@.subrange(from as int, to as int),
            ),
            None => v_parameter(query@) is None,
        },
{
    let mut first: Vec<char> = Vec::new();
    first.push('?');
    first.push('v');
    first.push('=');
    let mut later: Vec<char> = Vec::new();
    later.push('&');
    later.push('v');
    later.push('=');
    proof {
        assert(first@ =~= seq!['?', 'v', '=']);
        assert(later@ =~= seq!['&', 'v', '=']);
        lemma_find_from(query@, first@, 0);
        lemma_find_from(query@, later@, 0);
    }
    let total = query.len();
    let at = match (find_in(query, &first, 0), find_in(query, &later, 0)) {
        (Some(x), Some(y)) => if x <= y {
            x
        } else {
            y
        },
        (Some(x), None) => x,
        (None, Some(y)) => y,
        (None, None) => {
            return None;
        },
    };
    let from = at + 3;
    let value = cut(query, from, total);
    let n = len_before(&value, '&');
    assert(value@ =~= query@.skip(from as int));
    assert(query@.subrange(from as int, from + n) =~= value@.take(n as int));
    Some((from, from + n))
}

/// Reads the video identifier out of a watch-page link or a short link.
///
/// In a link that holds `youtube.com/watch?` the identifier is the value of
/// the query parameter named `v`, wherever it stands in the query: what
/// follows the first `?v=` or `&v=`, up to the next `&` or the end. In a
/// link that holds `youtu.be/` it is the path segment after the host, up to
/// the next `/` or `?`. The call fails exactly where the link holds neither
/// such a parameter nor the short-link host.
pub fn extract_video_id(url: &str) -> (r: Result<String, AppError>)
    ensures
        match r {
            Ok(id) => video_id_of(url@) == Some(id@),
            Err(error) => {
                &&& video_id_of(url@) is None
                &&& is_youtube_error(error, "Could not extract video ID from URL"@)
            },
        },
{
    let all = chars_of(url);
    let (start, end) = trim_bounds(&all);
    let chars = cut(&all, start, end);
    let total = chars.len();
    let watch = chars_of("youtube.com/watch?");
    let short = chars_of("youtu.be/");
    proof {
        lemma_find_from(chars@, watch@, 0);
        lemma_find_from(chars@, short@, 0);
    }
    if let Some(at) = find_in(&chars, &watch, 0) {
        proof {
            reveal_strlit("youtube.com/watch?");
        }
        let from = at + watch.len() - 1;
        let query = cut(&chars, from, total);
        assert(query@ =~= chars@.skip(from as int));
        if let Some((a, b)) = v_bounds(&query) {
            let id = url.substring_char(start + from + a, start + from + b);
            assert(id@ =~= query@.subrange(a as int, b as int));
            return Ok(id.to_owned());
        }
    }
    match find_in(&chars, &short, 0) {
        Some(at) => {
            let from = at + short.len();
            let path = cut(&chars, from, total);
            let head = cut(&path, 0, len_before(&path, '?'));
            let n = len_before(&head, '/');
            let id = url.substring_char(start + from, start + from + n);
            Ok(id.to_owned())
        },
        None => Err(AppError::youtube("Could not extract video ID from URL")),
    }
}

/// Whether `item` belongs to the series whose titles begin with `prefix`.
pub open spec fn in_series(item: Item, prefix: Seq<char>) -> bool {
    item.snippet.title matches Some(t) && prefix.is_prefix_of(t@)
}

/// The text of `o`, or the empty text.
pub open spec fn text_or_empty(o: Option<Seq<char>>) -> Seq<char> {
    match o {
        Some(s) => s,
        None => Seq::empty(),
    }
}

/// The candidate made of `item`: its identifier, the watch page of that
/// identifier, its title and its publishing time, each empty where the item
/// lacks it.
pub open spec fn candidate_of(item: Item) -> SearchResultView {
    SearchResultView {
        video_id: text_or_empty(item.id.video_id()),
        link: watch_page() + text_or_empty(item.id.video_id()),
        title: text_or_empty(opt_text(item.snippet.title)),
        publish_time: text_or_empty(opt_text(item.snippet.publish_time)),
    }
}

/// Whether `items[i]` is the first item of the series.
pub open spec fn is_first_in_series(items: Seq<Item>, prefix: Seq<char>, i: int) -> bool {
    &&& 0 <= i < items.len()
    &&& in_series(items[i], prefix)
    &&& forall|j: int| 0 <= j < i ==> !in_series(#[trigger] items[j], prefix)
}

/// The candidate picked from `items`: the one made of the first item of the
/// series, if the series has an item there.
pub open spec fn picked_from(items: Seq<Item>, prefix: Seq<char>) -> Option<SearchResultView> {
    if exists|i: int| is_first_in_series(items, prefix, i) {
        Some(candidate_of(items[choose|i: int| is_first_in_series(items, prefix, i)]))
    } else {
        None
    }
}

/// An owned copy of the text of `o`, or the empty text.
fn owned_or_empty(o: &Option<String>) -> (s: String)
    ensures
        s@ == text_or_empty(opt_text(*o)),
{
    match o {
        Some(t) => t.clone(),
        None => String::new(),
    }
}

/// Builds the candidate that stands for `item`.
pub fn candidate(item: &Item) -> (video: SearchResult)
    ensures
        video@ == candidate_of(*item),
{
    let video_id = match item.id.as_video_id() {
        Some(id) => id,
        None => String::new(),
    };
    let mut link = "https://www.youtube.com/watch?v=".to_owned();
    link.append(video_id.as_str());
    SearchResult {
        video_id,
        link,
        title: owned_or_empty(&item.snippet.title),
        publish_time: owned_or_empty(&item.snippet.publish_time),
    }
}

/// Picks the video to process: the first item, in the order given, whose
/// title begins with `prefix`. Items without a title, or with another
/// title, are passed over wherever they stand.
pub fn pick_latest(items: &Vec<Item>, prefix: &str) -> (picked: Option<SearchResult>)
    ensures
        match picked {
            Some(video) => exists|i: int|
                #![trigger is_first_in_series(items@, prefix@, i)]
                is_first_in_series(items@, prefix@, i) && video@ == candidate_of(items@[i]),
            None => forall|i: int| 0 <= i < items@.len() ==> !in_series(#[trigger] items@[i], prefix@),
        },
        match picked {
            Some(video) => picked_from(items@, prefix@) == Some(video@),
            None => picked_from(items@, prefix@) is None,
        },
{
    let head = chars_of(prefix);
    let mut i: usize = 0;
    while i < items.len()
        invariant
            i <= items@.len(),
            head@ == prefix@,
            forall|j: int| 0 <= j < i ==> !in_series(#[trigger] items@[j], prefix@),
        decreases items@.len() - i,
    {
        let matched = match &items[i].snippet.title {
            Some(title) => {
                let chars = chars_of(title.as_str());
                has_prefix(&chars, &head)
            },
            None => false,
        };
        if matched {
            assert(is_first_in_series(items@, prefix@, i as int));
            return Some(candidate(&items[i]));
        }
        i = i + 1;
    }
    None
}

/// The request that lists the five most recent completed videos of
/// `channel_id`, newest first.
pub open spec fn search_request_of(channel_id: Seq<char>, key: Seq<char>) -> RequestView {
    RequestView {
        method: Method::Get,
        url: "https://www.googleapis.com/youtube/v3/search"@,
        headers: Seq::empty(),
        query: seq![
            ("part"@, "snippet"@),
            ("channelId"@, channel_id),
            ("maxResults"@, "5"@),
            ("order"@, "date"@),
            ("type"@, "video"@),
            ("key"@, key),
            ("eventType"@, "completed"@),
        ],
        timeout_secs: None,
    }
}

/// The request that looks up the details of the video `video_id`.
pub open spec fn detail_request_of(video_id: Seq<char>, key: Seq<char>) -> RequestView {
    RequestView {
        method: Method::Get,
        url: "https://www.googleapis.com/youtube/v3/videos"@,
        headers: Seq::empty(),
        query: seq![("part"@, "snippet"@), ("id"@, video_id), ("key"@, key)],
        timeout_secs: None,
    }
}

/// Describes the search for the recent videos of `channel_id`. A blank key
/// is refused, then a blank channel identifier.
pub fn search_request(channel_id: &str, key: &str) -> (r: Result<HttpRequest, AppError>)
    ensures
        match r {
            Ok(request) => {
                &&& trimmed(key@).len() > 0
                &&& trimmed(channel_id@).len() > 0
                &&& request@ == search_request_of(channel_id@, key@)
            },
            Err(error) => if trimmed(key@).len() == 0 {
                is_config_error(
                    error,
                    "YOUTUBE_API_KEY is empty; set the secret/env before running"@,
                )
            } else {
                &&& trimmed(channel_id@).len() == 0
                &&& is_config_error(
                    error,
                    "channel_id is empty; set KSFORWORD_CHANNEL_ID before running"@,
                )
            },
        },
{
    if is_blank(key) {
        return Err(AppError::config("YOUTUBE_API_KEY is empty; set the secret/env before running"));
    }
    if is_blank(channel_id) {
        return Err(
            AppError::config("channel_id is empty; set KSFORWORD_CHANNEL_ID before running"),
        );
    }
    let mut query: Vec<(String, String)> = Vec::new();
    push_pair(&mut query, "part", "snippet");
    push_pair(&mut query, "channelId", channel_id);
    push_pair(&mut query, "maxResults", "5");
    push_pair(&mut query, "order", "date");
    push_pair(&mut query, "type", "video");
    push_pair(&mut query, "key", key);
    push_pair(&mut query, "eventType", "completed");
    let request = HttpRequest {
        method: Method::Get,
        url: "https://www.googleapis.com/youtube/v3/search".to_owned(),
        headers: Vec::new(),
        query,
        timeout_secs: None,
    };
    assert(request@.query =~= search_request_of(channel_id@, key@).query);
    assert(request@.headers =~= search_request_of(channel_id@, key@).headers);
    Ok(request)
}

/// Describes the detail lookup for the video behind `url`. A link without
/// identifier is refused, then a blank key, then a blank identifier.
pub fn detail_request(url: &str, key: &str) -> (r: Result<HttpRequest, AppError>)
    ensures
        match r {
            Ok(request) => {
                &&& video_id_of(url@) matches Some(id)
                &&& trimmed(key@).len() > 0
                &&& trimmed(id).len() > 0
                &&& request@ == detail_request_of(id, key@)
            },
            Err(error) => match video_id_of(url@) {
                None => is_youtube_error(error, "Could not extract video ID from URL"@),
                Some(id) => if trimmed(key@).len() == 0 {
                    is_config_error(
                        error,
                        "YOUTUBE_API_KEY is empty; set the secret/env before running"@,
                    )
                } else {
                    &&& trimmed(id).len() == 0
                    &&& is_youtube_error(
                        error,
                        "video_id is empty; cannot extract from the provided link"@,
                    )
                },
            },
        },
{
    let video_id = match extract_video_id(url) {
        Ok(id) => id,
        Err(error) => {
            return Err(error);
        },
    };
    if is_blank(key) {
        return Err(AppError::config("YOUTUBE_API_KEY is empty; set the secret/env before running"));
    }
    if is_blank(video_id.as_str()) {
        return Err(AppError::youtube("video_id is empty; cannot extract from the provided link"));
    }
    let mut query: Vec<(String, String)> = Vec::new();
    push_pair(&mut query, "part", "snippet");
    push_pair(&mut query, "id", video_id.as_str());
    push_pair(&mut query, "key", key);
    let request = HttpRequest {
        method: Method::Get,
        url: "https://www.googleapis.com/youtube/v3/videos".to_owned(),
        headers: Vec::new(),
        query,
        timeout_secs: None,
    };
    assert(request@.query =~= detail_request_of(video_id@, key@).query);
    assert(request@.headers =~= detail_request_of(video_id@, key@).headers);
    Ok(request)
}

} // verus!
