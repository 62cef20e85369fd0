//! The colour themes a user can choose between.
use vstd::prelude::*;

verus! {

/// A colour theme of the display, in the order the themes are offered.
#[derive(Debug, Clone, Copy, PartialEq, Eq, Structural)]
pub enum ThemeChoice {
    Classic,
    Grape,
    Copper,
    Citric,
    Blossom,
    Rainbow,
    Fire,
}

impl Default for ThemeChoice {
    fn default() -> (r: Self)
        ensures
            r == ThemeChoice::Classic,
    {
        ThemeChoice::Classic
    }
}

/// The theme offered after `current`, wrapping from the last back to the first.
pub open spec fn spec_next_theme(current: ThemeChoice) -> ThemeChoice {
    match current {
        ThemeChoice::Classic => ThemeChoice::Grape,
        ThemeChoice::Grape => ThemeChoice::Copper,
        ThemeChoice::Copper => ThemeChoice::Citric,
        ThemeChoice::Citric => ThemeChoice::Blossom,
        ThemeChoice::Blossom => ThemeChoice::Rainbow,
        ThemeChoice::Rainbow => ThemeChoice::Fire,
        ThemeChoice::Fire => ThemeChoice::Classic,
    }
}

/// The theme offered after `current`, wrapping from the last back to the first.
pub fn next_theme(current: &ThemeChoice) -> (r: ThemeChoice)
    ensures
        r == spec_next_theme(*current),
{
    match current {
        ThemeChoice::Classic => ThemeChoice::Grape,
        ThemeChoice::Grape => ThemeChoice::Copper,
        ThemeChoice::Copper => ThemeChoice::Citric,
        ThemeChoice::Citric => ThemeChoice::Blossom,
        ThemeChoice::Blossom => ThemeChoice::Rainbow,
        ThemeChoice::Rainbow => ThemeChoice::Fire,
        ThemeChoice::Fire => ThemeChoice::Classic,
    }
}

} // verus!
