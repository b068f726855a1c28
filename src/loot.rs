use vstd::prelude::*;

verus! {

/// Quality of the item currently offered for looting.
#[derive(Debug, Clone, Copy, PartialEq, Eq, Structural)]
pub enum LootQuality {
    Normal,
    Socketed,
    Magic,
    Rare,
    SetItem,
    Epic,
    Legendary,
    Rune,
    Unknown,
}

/// Tier of the item currently offered for looting.
#[derive(Debug, Clone, Copy, PartialEq, Eq, Structural)]
pub enum LootTier {
    Normal,
    Exceptional,
    Elite,
    Unknown,
}

} // verus!
