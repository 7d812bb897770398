//! Shapes a text into embeds that fit the destination's per-message limit,
//! and groups the embeds into requests that fit its per-request limit.

use crate::models::discord::{
    embed_views, webhook_views, DiscordEmbed, DiscordFooter, DiscordWebhook, EmbedView,
    WebhookView,
};
use crate::runs::{
    lemma_run_bounds, lemma_run_count, lemma_runs_rebuild, run_at, run_count, run_end, run_spans,
    runs,
};
use crate::services::http_client::{push_pair, HttpRequest, Method, RequestView};
use crate::text::{decimal, push_decimal};
use vstd::prelude::*;

verus! {

/// The most characters that one embed's description carries; safely below
/// the destination's hard limit.
pub const MAX_DESCRIPTION_CHARS: usize = 4000;

/// The most embeds that the destination takes in one request.
pub const MAX_EMBEDS_PER_REQUEST: usize = 10;

/// The colour tag of every embed.
pub const EMBED_COLOR: u32 = 0x5865F2;

/// The title of the single embed that stands for an empty text.
pub open spec fn placeholder_title() -> Seq<char> {
    "Daily Summary"@
}

/// The footer of every embed.
pub open spec fn footer_text() -> Seq<char> {
    "KS Forward"@
}

/// The bodies into which `text` is cut: runs of `budget` characters, and one
/// empty body where the text is empty.
pub open spec fn bodies(text: Seq<char>, budget: nat) -> Seq<Seq<char>> {
    if text.len() == 0 {
        seq![Seq::<char>::empty()]
    } else {
        runs(text, budget)
    }
}

/// The displayed title of unit number `position` (counted from 1) out of
/// `total`: the bare title for a single unit, else the title followed by
/// ` (position/total)`.
pub open spec fn unit_title(title: Seq<char>, position: nat, total: nat) -> Seq<char> {
    if total > 1 {
        title + seq![' ', '('] + decimal(position) + seq!['/'] + decimal(total) + seq![')']
    } else {
        title
    }
}

/// The embed that carries body number `i` of `text`.
pub open spec fn unit_at(
    title: Seq<char>,
    text: Seq<char>,
    budget: nat,
    timestamp: Seq<char>,
    i: int,
) -> EmbedView {
    EmbedView {
        title: if text.len() == 0 {
            placeholder_title()
        } else {
            unit_title(title, (i + 1) as nat, bodies(text, budget).len())
        },
        description: bodies(text, budget)[i],
        color: EMBED_COLOR,
        timestamp,
        footer: Some(footer_text()),
    }
}

/// The embeds that present `text` under `title`: one per body, in order.
pub open spec fn units(
    title: Seq<char>,
    text: Seq<char>,
    budget: nat,
    timestamp: Seq<char>,
) -> Seq<EmbedView> {
    Seq::new(bodies(text, budget).len(), |i: int| unit_at(title, text, budget, timestamp, i))
}

/// The request that carries `embeds` and no plain content.
pub open spec fn request_of(embeds: Seq<EmbedView>) -> WebhookView {
    WebhookView { content: None, embeds: Some(embeds) }
}

/// The requests that deliver `embeds`: runs of `limit` embeds, in order.
pub open spec fn batches(embeds: Seq<EmbedView>, limit: nat) -> Seq<WebhookView> {
    runs(embeds, limit).map_values(|run: Seq<EmbedView>| request_of(run))
}

/// The descriptions of a list of embeds, in order.
pub open spec fn descriptions(embeds: Seq<EmbedView>) -> Seq<Seq<char>> {
    embeds.map_values(|e: EmbedView| e.description)
}

/// The embeds of a list of requests, in order of sending.
pub open spec fn delivered(requests: Seq<WebhookView>) -> Seq<EmbedView> {
    requests.map_values(
        |w: WebhookView|
            match w.embeds {
                Some(e) => e,
                None => Seq::empty(),
            },
    ).flatten()
}

/// Cuts `text` into bodies of at most `budget` characters.
pub fn split_text(text: &str, budget: usize) -> (out: Vec<String>)
    requires
        budget > 0,
    ensures
        crate::text::texts(out@) == bodies(text@, budget as nat),
{
    let len = text.unicode_len();
    let mut out: Vec<String> = Vec::new();
    if len == 0 {
        out.push(String::new());
        return out;
    }
    let spans = run_spans(len, budget);
    let mut i: usize = 0;
    while i < spans.len()
        invariant
            budget > 0,
            len == text@.len(),
            i <= spans@.len() == run_count(len as nat, budget as nat),
            forall|j: int|
                0 <= j < spans@.len() ==> {
                    &&& (#[trigger] spans@[j]).0 == j * budget
                    &&& spans@[j].1 == run_end(len as nat, budget as nat, j)
                    &&& spans@[j].0 < spans@[j].1 <= len
                },
            out@.len() == i,
            forall|j: int| 0 <= j < i ==> (#[trigger] out@[j])@ == run_at(text@, budget as nat, j),
        decreases spans@.len() - i,
    {
        let piece = text.substring_char(spans[i].0, spans[i].1);
        out.push(piece.to_owned());
        i = i + 1;
    }
    out
}

/// The displayed title of unit number `position` out of `total`.
fn title_for(title: &str, position: usize, total: usize) -> (out: String)
    ensures
        out@ == unit_title(title@, position as nat, total as nat),
{
    let mut out = title.to_owned();
    if total > 1 {
        proof {
            reveal_strlit(" (");
            reveal_strlit("/");
            reveal_strlit(")");
        }
        out.append(" (");
        push_decimal(&mut out, position as u64);
        out.append("/");
        push_decimal(&mut out, total as u64);
        out.append(")");
    }
    out
}

/// Presents `text` under `title` as embeds whose descriptions hold at most
/// `budget` characters each. The embeds come in the order of the text, and
/// an empty text still gives one embed, with the placeholder title.
pub fn chunk(title: &str, text: &str, budget: usize, timestamp: &str) -> (out: Vec<DiscordEmbed>)
    requires
        budget > 0,
    ensures
        embed_views(out@) == units(title@, text@, budget as nat, timestamp@),
        out@.len() >= 1,
        descriptions(embed_views(out@)).flatten() == text@,
        forall|i: int| 0 <= i < out@.len() ==> (#[trigger] out@[i]).description@.len() <= budget,
{
    let pieces = split_text(text, budget);
    let total = pieces.len();
    let empty = text.unicode_len() == 0;
    let mut out: Vec<DiscordEmbed> = Vec::new();
    let mut i: usize = 0;
    while i < total
        invariant
            budget > 0,
            total == pieces@.len(),
            total == bodies(text@, budget as nat).len(),
            empty == (text@.len() == 0),
            crate::text::texts(pieces@) == bodies(text@, budget as nat),
            i <= total,
            out@.len() == i,
            forall|j: int|
                0 <= j < i ==> (#[trigger] out@[j])@ == unit_at(
                    title@,
                    text@,
                    budget as nat,
                    timestamp@,
                    j,
                ),
        decreases total - i,
    {
        let shown = if empty {
            proof {
                reveal_strlit("Daily Summary");
            }
            "Daily Summary".to_owned()
        } else {
            title_for(title, i + 1, total)
        };
        proof {
            reveal_strlit("KS Forward");
        }
        out.push(
            DiscordEmbed {
                title: shown,
                description: pieces[i].clone(),
                color: EMBED_COLOR,
                timestamp: timestamp.to_owned(),
                footer: Some(DiscordFooter { text: "KS Forward".to_owned() }),
            },
        );
        i = i + 1;
    }
    proof {
        assert(embed_views(out@) =~= units(title@, text@, budget as nat, timestamp@));
        lemma_units_rebuild(title@, text@, budget as nat, timestamp@);
        assert forall|i: int| 0 <= i < out@.len() implies (#[trigger] out@[i]).description@.len()
            <= budget by {
            assert(out@[i]@ == embed_views(out@)[i]);
        }
    }
    out
}

/// Groups `embeds` into requests of at most `limit` embeds each, in order.
pub fn batch(embeds: &Vec<DiscordEmbed>, limit: usize) -> (out: Vec<DiscordWebhook>)
    requires
        limit > 0,
    ensures
        webhook_views(out@) == batches(embed_views(embeds@), limit as nat),
        out@.len() == run_count(embeds@.len(), limit as nat),
        delivered(webhook_views(out@)) == embed_views(embeds@),
{
    let len = embeds.len();
    let ghost all = embed_views(embeds@);
    let spans = run_spans(len, limit);
    let mut out: Vec<DiscordWebhook> = Vec::new();
    let mut i: usize = 0;
    while i < spans.len()
        invariant
            limit > 0,
            len == embeds@.len(),
            all == embed_views(embeds@),
            i <= spans@.len() == run_count(len as nat, limit as nat),
            forall|j: int|
                0 <= j < spans@.len() ==> {
                    &&& (#[trigger] spans@[j]).0 == j * limit
                    &&& spans@[j].1 == run_end(len as nat, limit as nat, j)
                    &&& spans@[j].0 < spans@[j].1 <= len
                },
            out@.len() == i,
            forall|j: int|
                0 <= j < i ==> (#[trigger] out@[j])@ == request_of(run_at(all, limit as nat, j)),
        decreases spans@.len() - i,
    {
        let (start, end) = spans[i];
        let mut group: Vec<DiscordEmbed> = Vec::new();
        let mut k: usize = start;
        while k < end
            invariant
                start <= k <= end <= len,
                len == embeds@.len(),
                group@.len() == k - start,
                forall|j: int|
                    0 <= j < group@.len() ==> (#[trigger] group@[j])@ == embeds@[start + j]@,
            decreases end - k,
        {
            group.push(embeds[k].clone());
            k = k + 1;
        }
        assert(embed_views(group@) =~= run_at(all, limit as nat, i as int));
        out.push(DiscordWebhook { content: None, embeds: Some(group) });
        i = i + 1;
    }
    proof {
        assert(webhook_views(out@) =~= batches(all, limit as nat));
        lemma_batches_rebuild(all, limit as nat);
    }
    out
}

/// The requests that deliver `text` under `title`, every embed stamped
/// `timestamp`: the text chunked at `MAX_DESCRIPTION_CHARS`, the embeds
/// batched at `MAX_EMBEDS_PER_REQUEST`.
pub open spec fn message_requests(
    title: Seq<char>,
    text: Seq<char>,
    timestamp: Seq<char>,
) -> Seq<WebhookView> {
    batches(
        units(title, text, MAX_DESCRIPTION_CHARS as nat, timestamp),
        MAX_EMBEDS_PER_REQUEST as nat,
    )
}

/// Builds the requests that deliver `text` under `title`, in sending order.
pub fn compose_message(title: &str, text: &str, timestamp: &str) -> (out: Vec<DiscordWebhook>)
    ensures
        webhook_views(out@) == message_requests(title@, text@, timestamp@),
        out@.len() >= 1,
{
    let embeds = chunk(title, text, MAX_DESCRIPTION_CHARS, timestamp);
    let out = batch(&embeds, MAX_EMBEDS_PER_REQUEST);
    proof {
        lemma_run_count(embeds@.len(), MAX_EMBEDS_PER_REQUEST as nat);
    }
    out
}

/// The request that carries one group of embeds to `webhook_url`.
pub open spec fn webhook_request_of(webhook_url: Seq<char>) -> RequestView {
    RequestView {
        method: Method::Post,
        url: webhook_url,
        headers: seq![("Content-Type"@, "application/json"@)],
        query: Seq::empty(),
        timeout_secs: None,
    }
}

/// Describes the request that carries one group of embeds to
/// `webhook_url`.
pub fn webhook_request(webhook_url: &str) -> (request: HttpRequest)
    ensures
        request@ == webhook_request_of(webhook_url@),
{
    let mut headers: Vec<(String, String)> = Vec::new();
    push_pair(&mut headers, "Content-Type", "application/json");
    let request = HttpRequest {
        method: Method::Post,
        url: webhook_url.to_owned(),
        headers,
        query: Vec::new(),
        timeout_secs: None,
    };
    assert(request@.query =~= webhook_request_of(webhook_url@).query);
    request
}

/// Chunking loses nothing: at least one unit comes out, the descriptions of
/// the units, joined in order, are the text, and no description is longer
/// than the budget.
pub proof fn lemma_units_rebuild(
    title: Seq<char>,
    text: Seq<char>,
    budget: nat,
    timestamp: Seq<char>,
)
    requires
        budget > 0,
    ensures
        units(title, text, budget, timestamp).len() >= 1,
        descriptions(units(title, text, budget, timestamp)).flatten() == text,
        forall|i: int|
            0 <= i < units(title, text, budget, timestamp).len() ==> (#[trigger] units(
                title,
                text,
                budget,
                timestamp,
            )[i]).description.len() <= budget,
        text.len() == 0 ==> units(title, text, budget, timestamp).len() == 1 && units(
            title,
            text,
            budget,
            timestamp,
        )[0].description == Seq::<char>::empty(),
{
    let u = units(title, text, budget, timestamp);
    let b = bodies(text, budget);
    assert(descriptions(u) =~= b);
    lemma_run_count(text.len(), budget);
    if text.len() == 0 {
        b.lemma_flatten_one_element();
    } else {
        lemma_runs_rebuild(text, budget);
        assert forall|i: int| 0 <= i < u.len() implies (#[trigger] u[i]).description.len()
            <= budget by {
            lemma_run_bounds(text.len(), budget, i);
        }
    }
}

/// Batching loses nothing: `len / limit`, rounded up, requests come out
/// (none for no embeds), none holds more than `limit` embeds, and the embeds
/// of the requests, joined in order of sending, are the embeds given.
pub proof fn lemma_batches_rebuild(embeds: Seq<EmbedView>, limit: nat)
    requires
        limit > 0,
    ensures
        batches(embeds, limit).len() == run_count(embeds.len(), limit),
        batches(embeds, limit).len() == 0 <==> embeds.len() == 0,
        forall|i: int|
            0 <= i < batches(embeds, limit).len() ==> (#[trigger] batches(
                embeds,
                limit,
            )[i]).embeds is Some && batches(embeds, limit)[i].embeds->0.len() <= limit
                && batches(embeds, limit)[i].embeds->0.len() >= 1,
        delivered(batches(embeds, limit)) == embeds,
{
    let b = batches(embeds, limit);
    lemma_run_count(embeds.len(), limit);
    assert forall|i: int| 0 <= i < b.len() implies (#[trigger] b[i]).embeds is Some
        && b[i].embeds->0.len() <= limit && b[i].embeds->0.len() >= 1 by {
        lemma_run_bounds(embeds.len(), limit, i);
    }
    assert(b.map_values(
        |w: WebhookView|
            match w.embeds {
                Some(e) => e,
                None => Seq::empty(),
            },
    ) =~= runs(embeds, limit));
    lemma_runs_rebuild(embeds, limit);
}

/// A message fits the destination: at least one request goes out, every
/// request carries between one and `MAX_EMBEDS_PER_REQUEST` embeds, no
/// description is longer than `MAX_DESCRIPTION_CHARS` characters, and the
/// descriptions, joined in order of sending, are the text.
pub proof fn lemma_message_fits_destination(
    title: Seq<char>,
    text: Seq<char>,
    timestamp: Seq<char>,
)
    ensures
        message_requests(title, text, timestamp).len() >= 1,
        forall|i: int|
            0 <= i < message_requests(title, text, timestamp).len() ==> {
                let request = #[trigger] message_requests(title, text, timestamp)[i];
                &&& request.content is None
                &&& request.embeds is Some
                &&& 1 <= request.embeds->0.len() <= MAX_EMBEDS_PER_REQUEST
                &&& forall|j: int|
                    0 <= j < request.embeds->0.len() ==> (#[trigger] request.embeds->0[j]).description.len()
                        <= MAX_DESCRIPTION_CHARS
            },
        descriptions(delivered(message_requests(title, text, timestamp))).flatten() == text,
{
    let all = units(title, text, MAX_DESCRIPTION_CHARS as nat, timestamp);
    let requests = message_requests(title, text, timestamp);
    lemma_units_rebuild(title, text, MAX_DESCRIPTION_CHARS as nat, timestamp);
    lemma_batches_rebuild(all, MAX_EMBEDS_PER_REQUEST as nat);
    lemma_run_count(all.len(), MAX_EMBEDS_PER_REQUEST as nat);
    assert forall|i: int| 0 <= i < requests.len() implies {
        let request = #[trigger] requests[i];
        &&& request.content is None
        &&& request.embeds is Some
        &&& 1 <= request.embeds->0.len() <= MAX_EMBEDS_PER_REQUEST
        &&& forall|j: int|
            0 <= j < request.embeds->0.len() ==> (#[trigger] request.embeds->0[j]).description.len()
                <= MAX_DESCRIPTION_CHARS
    } by {
        lemma_run_bounds(all.len(), MAX_EMBEDS_PER_REQUEST as nat, i);
        let run = requests[i].embeds->0;
        assert forall|j: int| 0 <= j < run.len() implies (#[trigger] run[j]).description.len()
            <= MAX_DESCRIPTION_CHARS by {
        }
    }
}

} // verus!
