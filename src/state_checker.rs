use vstd::prelude::*;

use crate::char_state::CharState;
use crate::loot::{LootQuality, LootTier};

verus! {

/// One observation of a game window, as the record of a `StateChecker`
/// keeps it.
pub enum Observation {
    State(CharState),
    LootQuality(LootQuality),
    LootTier(LootTier),
    InventoryFull(bool),
    InventoryOpened(bool),
    LowHp(bool),
}

/// What a character's game window shows. Nothing is promised about the
/// answers, but every answer is appended to the record `observations`.
pub trait StateChecker {
    /// The record of calls; an implementation that keeps none leaves it
    /// empty.
    open spec fn observations(&self) -> Seq<Observation> {
        Seq::empty()
    }

    fn get_state(&mut self, number_of_players: usize) -> (r: CharState)
        ensures
            final(self).observations() == old(self).observations().push(Observation::State(r)),
    ;

    fn get_loot_quality(&mut self) -> (r: LootQuality)
        ensures
            final(self).observations() == old(self).observations().push(
                Observation::LootQuality(r),
            ),
    ;

    fn get_loot_tier(&mut self) -> (r: LootTier)
        ensures
            final(self).observations() == old(self).observations().push(Observation::LootTier(r)),
    ;

    fn is_inventory_full(&mut self) -> (r: bool)
        ensures
            final(self).observations() == old(self).observations().push(
                Observation::InventoryFull(r),
            ),
    ;

    fn is_inventory_opened(&mut self) -> (r: bool)
        ensures
            final(self).observations() == old(self).observations().push(
                Observation::InventoryOpened(r),
            ),
    ;

    fn is_on_low_hp(&mut self, number_of_players: usize) -> (r: bool)
        ensures
            final(self).observations() == old(self).observations().push(Observation::LowHp(r)),
    ;
}

} // verus!
