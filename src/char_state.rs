use vstd::prelude::*;

verus! {

/// What a character is doing, as observed once per control-loop cycle.
#[derive(Debug, Clone, Copy, PartialEq, Eq, Structural)]
pub enum CharState {
    Unknown,
    InTown,
    InDungeon,
    Fighting,
    Looting,
    AtShrine,
    Dead,
}

} // verus!
