use vstd::prelude::*;

use crate::config::AutoAttack;
use crate::maze_solver::Direction;
use crate::skill::Skill;

verus! {

/// One action taken in a game window, as the record of an `Interactor`
/// keeps it.
pub enum Action {
    CastSkill(Seq<char>),
    Loot,
    Interact,
    Discard,
    TargetPlayer(usize),
    AutoAttack(AutoAttack),
    UseHpPot,
    InventoryToggle,
    LeaveToTown,
    TryDirection(Direction),
    Walk(Option<Direction>),
}

/// The actions that a character can take in its game window. Each reports
/// whether it nominally succeeded; nothing is promised about the outcome,
/// but every call is appended, with its answer, to the record `actions`.
pub trait Interactor {
    /// The record of calls; an implementation that keeps none leaves it
    /// empty.
    open spec fn actions(&self) -> Seq<(Action, bool)> {
        Seq::empty()
    }

    fn cast_skill(&mut self, skill: &Skill) -> (r: bool)
        ensures
            final(self).actions() == old(self).actions().push((Action::CastSkill(skill.name@), r)),
    ;

    fn loot(&mut self) -> (r: bool)
        ensures
            final(self).actions() == old(self).actions().push((Action::Loot, r)),
    ;

    fn interact(&mut self) -> (r: bool)
        ensures
            final(self).actions() == old(self).actions().push((Action::Interact, r)),
    ;

    fn discard(&mut self) -> (r: bool)
        ensures
            final(self).actions() == old(self).actions().push((Action::Discard, r)),
    ;

    fn target_player(&mut self, player_index: usize) -> (r: bool)
        ensures
            final(self).actions() == old(self).actions().push(
                (Action::TargetPlayer(player_index), r),
            ),
    ;

    fn auto_attack(&mut self, auto_attack: AutoAttack) -> (r: bool)
        ensures
            final(self).actions() == old(self).actions().push(
                (Action::AutoAttack(auto_attack), r),
            ),
    ;

    fn use_hp_pot(&mut self) -> (r: bool)
        ensures
            final(self).actions() == old(self).actions().push((Action::UseHpPot, r)),
    ;

    fn inventory_toggle(&mut self) -> (r: bool)
        ensures
            final(self).actions() == old(self).actions().push((Action::InventoryToggle, r)),
    ;

    fn leave_to_town(&mut self) -> (r: bool)
        ensures
            final(self).actions() == old(self).actions().push((Action::LeaveToTown, r)),
    ;

    /// Attempts a move in `direction` and reports whether the game allowed it.
    fn try_direction(&mut self, direction: Direction) -> (r: bool)
        ensures
            final(self).actions() == old(self).actions().push(
                (Action::TryDirection(direction), r),
            ),
    ;

    fn walk(&mut self, direction: Option<Direction>, walk_duration_ms: u64) -> (r: bool)
        ensures
            final(self).actions() == old(self).actions().push((Action::Walk(direction), r)),
    ;
}

} // verus!
