//! What is posted to the chat destination.

use crate::text::opt_text;
use vstd::prelude::*;

verus! {

/// The footer line of an embed.
#[derive(Debug, PartialEq, Eq)]
pub struct DiscordFooter {
    pub text: String,
}

/// One formatted message block.
#[derive(Debug, PartialEq, Eq)]
pub struct DiscordEmbed {
    pub title: String,
    pub description: String,
    pub color: u32,
    pub timestamp: String,
    pub footer: Option<DiscordFooter>,
}

/// One request to the destination: a group of embeds sent together.
#[derive(Debug, PartialEq, Eq)]
pub struct DiscordWebhook {
    pub content: Option<String>,
    pub embeds: Option<Vec<DiscordEmbed>>,
}

/// The model of a [`DiscordEmbed`].
pub struct EmbedView {
    pub title: Seq<char>,
    pub description: Seq<char>,
    pub color: u32,
    pub timestamp: Seq<char>,
    pub footer: Option<Seq<char>>,
}

/// The model of a [`DiscordWebhook`].
pub struct WebhookView {
    pub content: Option<Seq<char>>,
    pub embeds: Option<Seq<EmbedView>>,
}

impl View for DiscordFooter {
    type V = Seq<char>;

    open spec fn view(&self) -> Seq<char> {
        self.text@
    }
}

impl View for DiscordEmbed {
    type V = EmbedView;

    open spec fn view(&self) -> EmbedView {
        EmbedView {
            title: self.title@,
            description: self.description@,
            color: self.color,
            timestamp: self.timestamp@,
            footer: match self.footer {
                Some(f) => Some(f@),
                None => None,
            },
        }
    }
}

/// The models of a list of embeds.
pub open spec fn embed_views(v: Seq<DiscordEmbed>) -> Seq<EmbedView> {
    v.map_values(|e: DiscordEmbed| e@)
}

impl View for DiscordWebhook {
    type V = WebhookView;

    open spec fn view(&self) -> WebhookView {
        WebhookView {
            content: opt_text(self.content),
            embeds: match self.embeds {
                Some(v) => Some(embed_views(v@)),
                None => None,
            },
        }
    }
}

/// The models of a list of webhook payloads.
pub open spec fn webhook_views(v: Seq<DiscordWebhook>) -> Seq<WebhookView> {
    v.map_values(|w: DiscordWebhook| w@)
}

impl Clone for DiscordFooter {
    fn clone(&self) -> (r: Self)
        ensures
            r@ == self@,
    {
        DiscordFooter { text: self.text.clone() }
    }
}

impl Clone for DiscordEmbed {
    fn clone(&self) -> (r: Self)
        ensures
            r@ == self@,
    {
        DiscordEmbed {
            title: self.title.clone(),
            description: self.description.clone(),
            color: self.color,
            timestamp: self.timestamp.clone(),
            footer: match &self.footer {
                Some(f) => Some(f.clone()),
                None => None,
            },
        }
    }
}

impl Clone for DiscordWebhook {
    fn clone(&self) -> (r: Self)
        ensures
            r@ == self@,
    {
        let embeds = match &self.embeds {
            Some(list) => {
                let mut copy: Vec<DiscordEmbed> = Vec::new();
                let mut i: usize = 0;
                while i < list.len()
                    invariant
                        i <= list@.len(),
                        copy@.len() == i,
                        forall|j: int| 0 <= j < i ==> (#[trigger] copy@[j])@ == list@[j]@,
                    decreases list@.len() - i,
                {
                    copy.push(list[i].clone());
                    i = i + 1;
                }
                assert(embed_views(copy@) =~= embed_views(list@));
                Some(copy)
            },
            None => None,
        };
        DiscordWebhook { content: crate::text::copy_opt(&self.content), embeds }
    }
}

} // verus!
