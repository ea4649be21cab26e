//! The cards (embeds) the bot answers with, as plain data.
use vstd::prelude::*;
use crate::colors::Colors;

verus! {

/// A named value shown on a card; inline fields stand side by side.
pub struct CardField {
    pub name: String,
    pub value: String,
    pub inline: bool,
}

/// A message card: an optional title, body and footer, a colour, an optional
/// large image and small thumbnail (by address), and fields.
pub struct Card {
    pub title: Option<String>,
    pub description: Option<String>,
    pub color: Colors,
    pub footer: Option<String>,
    pub image: Option<String>,
    pub thumbnail: Option<String>,
    pub fields: Vec<CardField>,
}

/// A card with no pictures and no fields.
pub open spec fn is_plain(c: Card) -> bool {
    &&& c.image is None
    &&& c.thumbnail is None
    &&& c.fields.len() == 0
}

/// A card with a title and colour only.
pub fn titled_card(title: &str, color: Colors) -> (c: Card)
    ensures
        c.title is Some,
        c.title->0@ == title@,
        c.color == color,
        c.description is None,
        c.footer is None,
        is_plain(c),
{
    Card {
        title: Some(String::from_str(title)),
        description: None,
        color,
        footer: None,
        image: None,
        thumbnail: None,
        fields: Vec::new(),
    }
}

/// The red of Discord's own error notices, `0xE74C3C`.
pub open spec fn notice_red() -> Colors {
    Colors::Custom(0xE7, 0x4C, 0x3C)
}

/// The card that reports a failed command: a fixed title, red, and the error's
/// text, or "Unexpected" where there is none.
pub fn error_card(message: Option<String>) -> (c: Card)
    ensures
        c.title is Some,
        c.title->0@ == "❌ Oops... an error ocurred."@,
        c.color == notice_red(),
        c.footer is None,
        is_plain(c),
        c.description is Some,
        match message {
            Some(m) => c.description->0@ == m@,
            None => c.description->0@ == "Unexpected"@,
        },
{
    let description = match message {
        Some(m) => m,
        None => String::from_str("Unexpected"),
    };
    let mut c = titled_card("❌ Oops... an error ocurred.", Colors::Custom(0xE7, 0x4C, 0x3C));
    c.description = Some(description);
    c
}

} // verus!
