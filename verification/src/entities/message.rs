//! The parts of a Discord message that the sniper reads.
use vstd::prelude::*;

verus! {

/// The emoji of a button.
#[derive(Debug)]
pub enum EmojiData {
    /// A guild's own emoji, by its id.
    Custom(u64),
    /// A standard emoji, by its text.
    Unicode(String),
}

/// What pressing a button does.
#[derive(Debug)]
pub enum ButtonKindData {
    /// Opens `url`.
    Link { url: String },
    /// Offers the product `sku_id`.
    Premium { sku_id: u64 },
    /// Sends an interaction carrying `custom_id`; `style` is the button's colour.
    NonLink { custom_id: String, style: u8 },
}

/// One component of an action row.
#[derive(Debug)]
pub enum ComponentData {
    Button { data: ButtonKindData, emoji: Option<EmojiData> },
    SelectMenu,
    InputText,
}

/// An embed of a message; only its description is read.
#[derive(Debug)]
pub struct EmbedData {
    pub description: Option<String>,
}

/// A message as the sniper sees it: who sent it where, its text, its embeds and its
/// rows of components.
#[derive(Debug, Clone)]
pub struct MessageData {
    pub id: u64,
    pub author_id: u64,
    pub channel_id: u64,
    pub content: String,
    pub embeds: Vec<EmbedData>,
    pub rows: Vec<Vec<ComponentData>>,
}

impl Clone for EmojiData {
    fn clone(&self) -> (r: Self)
        ensures
            r == *self,
    {
        match self {
            EmojiData::Custom(id) => EmojiData::Custom(*id),
            EmojiData::Unicode(text) => EmojiData::Unicode(text.clone()),
        }
    }
}

impl Clone for ButtonKindData {
    fn clone(&self) -> (r: Self)
        ensures
            r == *self,
    {
        match self {
            ButtonKindData::Link { url } => ButtonKindData::Link { url: url.clone() },
            ButtonKindData::Premium { sku_id } => ButtonKindData::Premium { sku_id: *sku_id },
            ButtonKindData::NonLink { custom_id, style } => ButtonKindData::NonLink {
                custom_id: custom_id.clone(),
                style: *style,
            },
        }
    }
}

impl Clone for ComponentData {
    fn clone(&self) -> (r: Self)
        ensures
            r == *self,
    {
        match self {
            ComponentData::Button { data, emoji } => ComponentData::Button {
                data: data.clone(),
                emoji: match emoji {
                    Some(e) => Some(e.clone()),
                    None => None,
                },
            },
            ComponentData::SelectMenu => ComponentData::SelectMenu,
            ComponentData::InputText => ComponentData::InputText,
        }
    }
}

impl Clone for EmbedData {
    fn clone(&self) -> (r: Self)
        ensures
            r == *self,
    {
        EmbedData {
            description: match &self.description {
                Some(d) => Some(d.clone()),
                None => None,
            },
        }
    }
}

} // verus!
