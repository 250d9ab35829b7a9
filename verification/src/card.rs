//! Card records.
//!
//! The declarative data shapes the API serves for cards: a card face
//! for multi-faced cards, and the related-card record that ties a card
//! to its tokens, meld parts and combo pieces.

use std::collections::HashMap;
use vstd::prelude::*;

use crate::uri::Uri;

verus! {

/// A universally unique identifier, carried as its 128-bit value.
#[derive(Debug, Clone, Copy, PartialEq, Eq, Hash, Structural)]
pub struct Uuid {
    pub value: u128,
}

/// A color of the game's color wheel.
#[derive(Debug, Clone, Copy, PartialEq, Eq, Hash, Structural)]
pub enum Color {
    White,
    Blue,
    Black,
    Red,
    Green,
}

/// A card, reduced to the identity fields the related-card records
/// reference.
#[derive(Debug, Clone, PartialEq, Eq)]
pub struct Card {
    pub id: Uuid,
    pub name: String,
    pub mana_cost: Option<String>,
}

/// Sub card object used when a card has more than one face.
#[derive(Debug, Clone, PartialEq, Eq)]
pub struct CardFace {
    pub artist: Option<String>,
    pub color_indicator: Option<Vec<Color>>,
    pub colors: Vec<Color>,
    pub flavor_text: Option<String>,
    pub illustration_id: Option<Uuid>,
    pub image_uris: Option<HashMap<String, String>>,
    pub loyalty: Option<String>,
    pub mana_cost: String,
    pub name: String,
    pub oracle_text: Option<String>,
    pub power: Option<String>,
    pub printed_name: Option<String>,
    pub printed_text: Option<String>,
    pub printed_type_line: Option<String>,
    pub toughness: Option<String>,
    pub type_line: Option<String>,
    pub watermark: Option<String>,
}

/// The kind of related card.
#[derive(Debug, Clone, Copy, PartialEq, Eq, Hash, Structural)]
#[non_exhaustive]
pub enum Component {
    Token,
    MeldPart,
    MeldResult,
    ComboPiece,
}

/// Related card object: a card closely related to another card —
/// because it calls it by name, generates it as a token, melds with it,
/// and so on.
#[derive(Debug)]
pub struct RelatedCard {
    pub id: Uuid,
    pub component: Component,
    pub name: String,
    pub type_line: String,
    pub uri: Uri<Card>,
}

} // verus!
