use ks_forward::models::youtube_transcript::{Content, Root};
use ks_forward::services::ks_forward_service::flatten;
use ks_forward::services::my_ai_service::{is_json_like, salvage_candidate};
use ks_forward::services::youtube_service::extract_video_id;
use ks_forward::text::{chars_of, clip, is_blank, is_space_char, same_text, trim_bounds};

/// Every text of up to `depth` tokens.
fn texts_of(tokens: &[&str], depth: usize) -> Vec<String> {
    let mut all = vec![String::new()];
    let mut last = vec![String::new()];
    for _ in 0..depth {
        let mut next = Vec::new();
        for head in &last {
            for token in tokens {
                next.push(format!("{}{}", head, token));
            }
        }
        all.extend(next.iter().cloned());
        last = next;
    }
    all
}

/// The video identifier as std's searches find it: the value of the query
/// parameter `v` of a watch link, else the first path segment of a short
/// link.
fn searched_video_id(url: &str) -> Option<String> {
    let link = url.trim();
    if let Some(at) = link.find("youtube.com/watch?") {
        let query = &link[at + "youtube.com/watch".len()..];
        let found = match (query.find("?v="), query.find("&v=")) {
            (Some(x), Some(y)) => Some(x.min(y)),
            (x, y) => x.or(y),
        };
        if let Some(at) = found {
            return Some(query[at + 3..].split('&').next().unwrap_or("").to_string());
        }
    }
    let at = link.find("youtu.be/")?;
    let path = &link[at + "youtu.be/".len()..];
    let segment = path.split(|c| c == '/' || c == '?').next().unwrap_or("");
    Some(segment.to_string())
}

#[test]
fn white_space_is_what_std_calls_white_space() {
    let mut code: u32 = 0;
    while code <= 0x10FFFF {
        if let Some(c) = char::from_u32(code) {
            assert_eq!(is_space_char(c), c.is_whitespace(), "U+{:04X}", code);
        }
        code += 1;
    }
}

#[test]
fn trimming_agrees_with_std_trim() {
    let tokens = [" ", "\t", "\n", "\u{a0}", "\u{3000}", "a", "{", "\u{200b}", "ข"];
    for text in texts_of(&tokens, 4) {
        let chars = chars_of(&text);
        let (start, end) = trim_bounds(&chars);
        let kept: String = chars[start..end].iter().collect();
        assert_eq!(kept, text.trim(), "{:?}", text);
        assert_eq!(is_blank(&text), text.trim().is_empty(), "{:?}", text);
    }
}

#[test]
fn video_id_agrees_with_searching_by_std() {
    let tokens = [
        "youtube.com/watch?",
        "youtu.be/",
        "v=",
        "&v=",
        "?v=",
        "&",
        "?",
        "/",
        "abc",
        "v",
        " ",
        "ก",
    ];
    for text in texts_of(&tokens, 4) {
        assert_eq!(extract_video_id(&text).ok(), searched_video_id(&text), "{:?}", text);
    }
}

#[test]
fn json_likeness_agrees_with_the_trimmed_start() {
    let tokens = [" ", "\n", "{", "[", "}", "x", "\""];
    for text in texts_of(&tokens, 4) {
        let trimmed = text.trim();
        let expected = trimmed.starts_with('{') || trimmed.starts_with('[');
        assert_eq!(is_json_like(&text), expected, "{:?}", text);
    }
}

#[test]
fn salvage_agrees_with_find_and_rfind() {
    let tokens = ["{", "}", "x", "ก", " ", "["];
    for text in texts_of(&tokens, 5) {
        let expected = match (text.find('{'), text.rfind('}')) {
            (Some(open), Some(close)) if open < close => Some(text[open..=close].to_string()),
            _ => None,
        };
        assert_eq!(salvage_candidate(&text), expected, "{:?}", text);
    }
}

#[test]
fn flatten_agrees_with_joining_on_a_space() {
    let tokens = ["", "a", "b c", " ", "สวัสดี"];
    for first in tokens {
        for second in tokens {
            for third in tokens {
                for count in 0..4 {
                    let texts: Vec<&str> = [first, second, third][..count.min(3)].to_vec();
                    let document = Root {
                        lang: String::new(),
                        available_langs: Vec::new(),
                        content: texts
                            .iter()
                            .map(|t| Content {
                                lang: String::new(),
                                text: t.to_string(),
                                offset: 0,
                                duration: 0,
                            })
                            .collect(),
                    };
                    assert_eq!(flatten(&document), texts.join(" "));
                }
            }
        }
    }
}

#[test]
fn clip_keeps_the_first_characters() {
    assert_eq!(clip("hello", 0), "");
    assert_eq!(clip("hello", 3), "hel");
    assert_eq!(clip("hello", 5), "hello");
    assert_eq!(clip("hello", 50), "hello");
    assert_eq!(clip("สวัสดี", 2), "สว");
    assert_eq!(clip("", 2), "");
}

#[test]
fn same_text_compares_character_by_character() {
    assert!(same_text("", ""));
    assert!(same_text("abc", "abc"));
    assert!(!same_text("abc", "abd"));
    assert!(!same_text("abc", "ab"));
    assert!(!same_text("ab", "abc"));
    assert!(same_text("ก", "ก"));
}
