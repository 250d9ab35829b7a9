//! The available play formats.

use vstd::prelude::*;

verus! {

/// A constructed-play format.
#[derive(Debug, Clone, Copy, PartialEq, Eq, Hash, Structural)]
#[non_exhaustive]
pub enum Format {
    Standard,
    Modern,
    Legacy,
    Vintage,
    Commander,
    Future,
    Pauper,
    Frontier,
    Penny,
    Duel,
    Oldschool,
}

impl Format {
    /// The format's name as the API writes it.
    pub fn as_text(&self) -> (r: &'static str)
        ensures
            r@ == match self {
                Format::Standard => "standard"@,
                Format::Modern => "modern"@,
                Format::Legacy => "legacy"@,
                Format::Vintage => "vintage"@,
                Format::Commander => "commander"@,
                Format::Future => "future"@,
                Format::Pauper => "pauper"@,
                Format::Frontier => "frontier"@,
                Format::Penny => "penny"@,
                Format::Duel => "duel"@,
                Format::Oldschool => "oldschool"@,
            },
    {
        match self {
            Format::Standard => "standard",
            Format::Modern => "modern",
            Format::Legacy => "legacy",
            Format::Vintage => "vintage",
            Format::Commander => "commander",
            Format::Future => "future",
            Format::Pauper => "pauper",
            Format::Frontier => "frontier",
            Format::Penny => "penny",
            Format::Duel => "duel",
            Format::Oldschool => "oldschool",
        }
    }
}

} // verus!
