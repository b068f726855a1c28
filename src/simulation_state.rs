use vstd::prelude::*;

use crate::char_state::CharState;
use crate::config::{LootFilterItem, WindowConfig};
use crate::interactor::{Action, Interactor};
use crate::loot::{LootQuality, LootTier};
use crate::maze_solver::{Direction, Node, Pos, Solver};
use crate::node_map::NodeMap;
use crate::rotation::Rotation;
use crate::shared_state::{with_opt_buff, SharedState};
use crate::skill::{
    effective_cast_time, effective_gcd, haste_product, opt_reductions, reduction_coef,
    reductions_valid, Skill,
};
use crate::skill_tracker::{
    applied_buff, elapsed, expired_buff, on_cooldown_in, potion_on_cooldown, skill_cooldown,
    tracked_view, wants_cast, SkillTracker, TrackerView,
};
use crate::state_checker::{Observation, StateChecker};

verus! {

/// Pause after leaving for town before the full-inventory flag is cleared.
pub const LEAVE_SETTLE_MS: u64 = 1000;

/// Pause after a fight starts before the first action.
pub const COMBAT_SETTLE_MS: u64 = 500;

/// A state observation older than this is refreshed before the next skill.
pub const STATE_REFRESH_MS: u64 = 1000;

/// Bound on loot attempts in one cycle.
pub const MAX_LOOT_ATTEMPTS: u64 = 10;

/// Pause after resuming the walk in a dungeon before exploring.
pub const RESUME_WALK_SETTLE_MS: u64 = 600;

/// How long each exploration move walks.
pub const EXPLORE_WALK_MS: u64 = 500;

/// Where a control-loop cycle stands between two waits.
#[derive(Debug, Clone, Copy, PartialEq, Eq, Structural)]
pub enum Stage {
    /// Observe the state and do the per-cycle bookkeeping.
    Start,
    /// Clear the party's full-inventory flag after leaving for town.
    ClearFullInventory,
    /// Shrine, looting, and the way into combat.
    Act,
    /// Start auto-attacking, then run the rotation.
    Engage,
    /// Consider the rotation's skill at this index.
    Rotation(usize),
    /// Record the cast of the skill at this index once its cast time passed;
    /// the flag tells whether it went off.
    Track(usize, bool),
    /// Cast the skill at the first index on the party member at the second.
    PartyCast(usize, usize),
    /// The party cast at the two indices has finished; the flag tells
    /// whether it went off.
    PartyCastDone(usize, usize, bool),
    /// When exploring: resume walking in a dungeon.
    Movement,
    /// When exploring: one exploration step.
    Explore,
    /// Close the cycle.
    End,
    /// The loop has been stopped.
    Stopped,
}

/// What the loop does next: wait this long, then run this stage.
#[derive(Debug, Clone, Copy, PartialEq, Eq, Structural)]
pub struct Step {
    pub wait_ms: u64,
    pub next: Stage,
}

/// Leaving town or coming back to life invalidates what was tracked.
pub open spec fn needs_reset(prev: CharState, state: CharState) -> bool {
    (prev == CharState::InTown || prev == CharState::Dead) && !(state == CharState::InTown || state
        == CharState::Dead)
}

pub open spec fn entered_combat(prev: CharState, state: CharState) -> bool {
    prev != CharState::Fighting && state == CharState::Fighting
}

pub open spec fn left_combat(prev: CharState, state: CharState) -> bool {
    prev == CharState::Fighting && state != CharState::Fighting
}

/// Whether `name` is in the optional list `names`.
pub open spec fn listed(names: Option<Vec<String>>, name: Seq<char>) -> bool {
    names is Some && exists|i: int|
        0 <= i < names->Some_0@.len() && #[trigger] names->Some_0@[i]@ == name
}

/// The loot decision for a classified item: `None` when the quality or the
/// tier is unknown, else whether the filter keeps it.
pub open spec fn loot_choice(
    filter: Seq<LootFilterItem>,
    quality: LootQuality,
    tier: LootTier,
) -> Option<bool> {
    if quality == LootQuality::Unknown || tier == LootTier::Unknown {
        None
    } else {
        Some(filter.contains(LootFilterItem(quality, tier)))
    }
}

pub open spec fn cfg_reductions(o: Option<Vec<(String, u64)>>) -> Option<Seq<(String, u64)>> {
    match o {
        Some(v) => Some(v@),
        None => None,
    }
}

pub open spec fn opt_valid(o: Option<Vec<(String, u64)>>) -> bool {
    match o {
        Some(v) => reductions_valid(v@),
        None => true,
    }
}

/// The wait after casting `skill`: its effective cast time, or for an
/// instant skill the hasted global cooldown unless the skill is exempt, plus
/// the leeway; capped at the largest `u64`.
pub open spec fn cast_wait(sim: SimulationState, skill: Skill, shared: SharedState) -> u64 {
    let cfg = sim.window_config.class_config;
    let cast = effective_cast_time(
        skill.cast_time_ms as nat,
        reduction_coef(skill.name@, cfg_reductions(cfg.cast_time_reductions)),
        haste_product(shared, cfg.class),
    );
    let base = if cast > 0 {
        cast
    } else if listed(cfg.no_gcd_skills, skill.name@) {
        0
    } else {
        effective_gcd(haste_product(shared, cfg.class))
    };
    if base + sim.cast_leeway_ms > u64::MAX {
        u64::MAX
    } else {
        (base + sim.cast_leeway_ms) as u64
    }
}

/// Whether `name` is in the optional list `names`.
pub fn contains_name(names: &Option<Vec<String>>, name: &String) -> (r: bool)
    ensures
        r == listed(*names, name@),
{
    match names {
        None => false,
        Some(v) => {
            let mut i: usize = 0;
            while i < v.len()
                invariant
                    0 <= i <= v@.len(),
                    *names == Some(*v),
                    forall|j: int| 0 <= j < i ==> #[trigger] v@[j]@ != name@,
                decreases v.len() - i,
            {
                if v[i] == *name {
                    assert(names->Some_0@[i as int]@ == name@);
                    return true;
                }
                i += 1;
            }
            false
        },
    }
}

/// Whether the filter keeps an item of this quality and tier.
pub fn loot_filter_contains(filter: &Vec<LootFilterItem>, quality: LootQuality, tier: LootTier) -> (r:
    bool)
    ensures
        r == filter@.contains(LootFilterItem(quality, tier)),
{
    let mut i: usize = 0;
    while i < filter.len()
        invariant
            0 <= i <= filter@.len(),
            forall|j: int| 0 <= j < i ==> #[trigger] filter@[j] != LootFilterItem(quality, tier),
        decreases filter.len() - i,
    {
        let item = filter[i];
        if item.0 == quality && item.1 == tier {
            assert(filter@[i as int] == LootFilterItem(quality, tier));
            return true;
        }
        i += 1;
    }
    false
}

/// Decides what to do with a classified item; see `loot_choice`.
pub fn decide_loot(filter: &Vec<LootFilterItem>, quality: LootQuality, tier: LootTier) -> (r: Option<
    bool,
>)
    ensures
        r == loot_choice(filter@, quality, tier),
{
    if quality == LootQuality::Unknown || tier == LootTier::Unknown {
        None
    } else {
        Some(loot_filter_contains(filter, quality, tier))
    }
}

/// A scripted game window for runs without a game: a fixed state, a maze
/// to walk in, and a position in it.
pub struct DebugObj {
    pub test_state: CharState,
    pub test_map: NodeMap,
    pub position_x: i32,
    pub position_y: i32,
    pub taken: Ghost<Seq<(Action, bool)>>,
    pub seen: Ghost<Seq<Observation>>,
}

impl DebugObj {
    pub fn new(test_state: CharState, test_map: NodeMap, position_x: i32, position_y: i32) -> (r:
        DebugObj)
        ensures
            r.test_state == test_state,
            r.test_map@ == test_map@,
            r.test_map.wf() == test_map.wf(),
            r.position_x == position_x,
            r.position_y == position_y,
            r.actions() == Seq::<(Action, bool)>::empty(),
            r.observations() == Seq::<Observation>::empty(),
    {
        DebugObj {
            test_state,
            test_map,
            position_x,
            position_y,
            taken: Ghost(Seq::empty()),
            seen: Ghost(Seq::empty()),
        }
    }

    fn note(&mut self, action: Ghost<Action>, r: bool)
        ensures
            final(self).actions() == old(self).actions().push((action@, r)),
            final(self).test_state == old(self).test_state,
            final(self).test_map == old(self).test_map,
            final(self).position_x == old(self).position_x,
            final(self).position_y == old(self).position_y,
    {
        self.taken = Ghost(self.taken@.push((action@, r)));
    }

    fn see(&mut self, observation: Observation)
        ensures
            final(self).observations() == old(self).observations().push(observation),
            final(self).test_state == old(self).test_state,
    {
        self.seen = Ghost(self.seen@.push(observation));
    }
}

impl StateChecker for DebugObj {
    closed spec fn observations(&self) -> Seq<Observation> {
        self.seen@
    }

    fn get_state(&mut self, number_of_players: usize) -> (r: CharState) {
        let r = self.test_state;
        self.see(Observation::State(r));
        r
    }

    fn get_loot_quality(&mut self) -> (r: LootQuality) {
        self.see(Observation::LootQuality(LootQuality::Epic));
        LootQuality::Epic
    }

    fn get_loot_tier(&mut self) -> (r: LootTier) {
        self.see(Observation::LootTier(LootTier::Normal));
        LootTier::Normal
    }

    fn is_inventory_full(&mut self) -> (r: bool) {
        self.see(Observation::InventoryFull(false));
        false
    }

    fn is_inventory_opened(&mut self) -> (r: bool) {
        self.see(Observation::InventoryOpened(true));
        true
    }

    fn is_on_low_hp(&mut self, number_of_players: usize) -> (r: bool) {
        self.see(Observation::LowHp(false));
        false
    }
}

impl Interactor for DebugObj {
    closed spec fn actions(&self) -> Seq<(Action, bool)> {
        self.taken@
    }

    fn cast_skill(&mut self, skill: &Skill) -> (r: bool) {
        self.note(Ghost(Action::CastSkill(skill.name@)), true);
        true
    }

    fn loot(&mut self) -> (r: bool) {
        self.note(Ghost(Action::Loot), true);
        true
    }

    fn interact(&mut self) -> (r: bool) {
        self.note(Ghost(Action::Interact), true);
        true
    }

    fn discard(&mut self) -> (r: bool) {
        self.note(Ghost(Action::Discard), true);
        true
    }

    fn target_player(&mut self, player_index: usize) -> (r: bool) {
        self.note(Ghost(Action::TargetPlayer(player_index)), true);
        true
    }

    fn auto_attack(&mut self, auto_attack: crate::config::AutoAttack) -> (r: bool) {
        self.note(Ghost(Action::AutoAttack(auto_attack)), true);
        true
    }

    fn use_hp_pot(&mut self) -> (r: bool) {
        self.note(Ghost(Action::UseHpPot), true);
        true
    }

    fn inventory_toggle(&mut self) -> (r: bool) {
        self.note(Ghost(Action::InventoryToggle), true);
        true
    }

    fn leave_to_town(&mut self) -> (r: bool) {
        self.note(Ghost(Action::LeaveToTown), true);
        true
    }

    /// Whether the scripted maze has a passage from the current position in
    /// `direction`.
    fn try_direction(&mut self, direction: Direction) -> (r: bool) {
        let r = if !self.test_map.is_wf() {
            false
        } else {
            match self.test_map.get((self.position_x, self.position_y)) {
                Some(node) => node.get_neighbor(direction).is_some(),
                None => false,
            }
        };
        self.note(Ghost(Action::TryDirection(direction)), r);
        r
    }

    /// Moves one step in `direction` and marks the new position visited in
    /// the scripted maze; without a direction nothing moves.
    fn walk(&mut self, direction: Option<Direction>, walk_duration_ms: u64) -> (r: bool) {
        let r = match direction {
            None => true,
            Some(d) => {
                let (dx, dy) = d.delta();
                let x = self.position_x as i64 + dx as i64;
                let y = self.position_y as i64 + dy as i64;
                if x < i32::MIN as i64 || x > i32::MAX as i64 || y < i32::MIN as i64 || y
                    > i32::MAX as i64 {
                    false
                } else {
                    self.position_x = x as i32;
                    self.position_y = y as i32;
                    if self.test_map.is_wf() {
                        let p: Pos = (self.position_x, self.position_y);
                        match self.test_map.get(p) {
                            Some(node) => {
                                let visited: Node = node.make_visited();
                                self.test_map.insert(p, visited);
                            },
                            None => {},
                        }
                    }
                    true
                }
            },
        };
        self.note(Ghost(Action::Walk(direction)), r);
        r
    }
}

/// One character's control loop, run as a sequence of stages separated by
/// waits: each call of `step` does the work of one stage without waiting and
/// says how long to wait before the next one.
#[derive(Debug)]
pub struct SimulationState {
    pub is_running: bool,
    pub is_enabled: bool,
    pub sync_interval_ms: u64,
    pub cast_leeway_ms: u64,
    pub num_active_characters: usize,
    pub window_config: WindowConfig,
    pub rotation: Rotation,
    pub leave_when_full: bool,
    pub auto_explore: bool,
    pub skill_tracker: SkillTracker,
    pub maze_solver: Solver,
    /// The state seen by the previous cycle.
    pub prev_state: CharState,
    /// The state seen by the current cycle.
    pub state: CharState,
    /// When the current cycle's state was observed.
    pub state_check_at: u64,
    /// Whether the current cycle already spent time, so that it needs no
    /// closing wait.
    pub skip_wait: bool,
    pub auto_attacking: bool,
}

impl SimulationState {
    pub open spec fn wf(&self) -> bool {
        &&& self.skill_tracker.wf()
        &&& self.maze_solver.wf()
        &&& opt_valid(self.window_config.class_config.cd_reductions)
        &&& opt_valid(self.window_config.class_config.cast_time_reductions)
    }

    /// Whether the maze is explored by this character.
    pub open spec fn explores(&self) -> bool {
        self.window_config.master && self.auto_explore
    }

    /// A stopped, disabled loop with nothing tracked.
    pub fn new(
        sync_interval_ms: u64,
        cast_leeway_ms: u64,
        num_active_characters: usize,
        window_config: WindowConfig,
        rotation: Rotation,
        leave_when_full: bool,
        auto_explore: bool,
        maze_solver: Solver,
    ) -> (r: SimulationState)
        requires
            opt_valid(window_config.class_config.cd_reductions),
            opt_valid(window_config.class_config.cast_time_reductions),
            maze_solver.wf(),
        ensures
            r.wf(),
            !r.is_running,
            !r.is_enabled,
            r.sync_interval_ms == sync_interval_ms,
            r.cast_leeway_ms == cast_leeway_ms,
            r.num_active_characters == num_active_characters,
            r.window_config == window_config,
            r.rotation == rotation,
            r.leave_when_full == leave_when_full,
            r.auto_explore == auto_explore,
            r.skill_tracker@.last_cast.is_empty(),
            r.skill_tracker@.buffs.is_empty(),
            r.skill_tracker@.debuffs.is_empty(),
            r.skill_tracker@.potion is None,
            r.prev_state == CharState::Unknown,
            !r.auto_attacking,
    {
        SimulationState {
            is_running: false,
            is_enabled: false,
            sync_interval_ms,
            cast_leeway_ms,
            num_active_characters,
            window_config,
            rotation,
            leave_when_full,
            auto_explore,
            skill_tracker: SkillTracker::new(),
            maze_solver,
            prev_state: CharState::Unknown,
            state: CharState::Unknown,
            state_check_at: 0,
            skip_wait: false,
            auto_attacking: false,
        }
    }

    /// Marks the loop running; `step` does nothing but stop otherwise.
    pub fn start(&mut self)
        ensures
            *final(self) == (SimulationState { is_running: true, ..*old(self) }),
    {
        self.is_running = true;
    }

    /// Flips whether the loop acts.
    pub fn enable_toggle(&mut self)
        ensures
            *final(self) == (SimulationState { is_enabled: !old(self).is_enabled, ..*old(self) }),
    {
        self.is_enabled = !self.is_enabled;
    }

    /// Makes the loop end at its next start of cycle.
    pub fn stop(&mut self)
        ensures
            *final(self) == (SimulationState { is_running: false, ..*old(self) }),
    {
        self.is_running = false;
    }

    /// Assumes that no party buff is active and no inventory is full, and
    /// forgets everything this character tracked.
    pub fn reset(&mut self, shared: &mut SharedState)
        requires
            old(self).wf(),
        ensures
            final(self).wf(),
            *final(self) == (SimulationState {
                skill_tracker: final(self).skill_tracker,
                ..*old(self)
            }),
            final(self).skill_tracker@ == empty_tracker(),
            *final(shared) == (SharedState {
                skill_haste_applied: false,
                frenzy_applied: false,
                full_inventory: false,
                ..*old(shared)
            }),
    {
        shared.set_skill_haste_applied(false);
        shared.set_frenzy_applied(false);
        shared.set_full_inventory(false);
        self.skill_tracker.reset();
    }

    /// Runs one stage; see `Stage` for what each does, and the stage
    /// functions for what each one states.
    pub fn step<I: Interactor, C: StateChecker>(
        &mut self,
        stage: Stage,
        interactor: &mut I,
        checker: &mut C,
        shared: &mut SharedState,
        now: u64,
    ) -> (r: Step)
        requires
            old(self).wf(),
            old(shared).wf(),
        ensures
            final(self).wf(),
            final(shared).wf(),
            stage == Stage::Start ==> start_post(
                *old(self),
                *final(self),
                *old(shared),
                *final(shared),
                old(interactor).actions(),
                final(interactor).actions(),
                old(checker).observations(),
                final(checker).observations(),
                now,
                r,
            ),
            stage == Stage::ClearFullInventory ==> r == (Step { wait_ms: 0, next: Stage::Act })
                && *final(self) == *old(self) && *final(shared) == (SharedState {
                full_inventory: false,
                ..*old(shared)
            }) && final(interactor).actions() == old(interactor).actions(),
            stage == Stage::Act ==> act_post(
                *old(self),
                *final(self),
                old(interactor).actions(),
                final(interactor).actions(),
                r,
            ) && *final(shared) == *old(shared),
            stage == Stage::Engage ==> engage_post(
                *old(self),
                *final(self),
                old(interactor).actions(),
                final(interactor).actions(),
                r,
            ) && *final(shared) == *old(shared),
            stage matches Stage::Rotation(i) ==> rotation_post(
                *old(self),
                *final(self),
                *old(shared),
                *final(shared),
                old(interactor).actions(),
                final(interactor).actions(),
                old(checker).observations(),
                final(checker).observations(),
                i,
                now,
                r,
            ),
            stage matches Stage::Track(i, ok) ==> track_stage_post(
                *old(self),
                *final(self),
                *old(shared),
                *final(shared),
                i,
                ok,
                now,
                r,
            ) && final(interactor).actions() == old(interactor).actions(),
            stage matches Stage::PartyCast(i, k) ==> party_cast_post(
                *old(self),
                *final(self),
                *old(shared),
                old(interactor).actions(),
                final(interactor).actions(),
                i,
                k,
                r,
            ) && *final(shared) == *old(shared),
            stage matches Stage::PartyCastDone(i, k, ok) ==> party_done_post(
                *old(self),
                *final(self),
                *old(shared),
                *final(shared),
                old(interactor).actions(),
                final(interactor).actions(),
                i,
                k,
                ok,
                now,
                r,
            ),
            stage == Stage::Movement ==> movement_post(
                *old(self),
                *final(self),
                old(interactor).actions(),
                final(interactor).actions(),
                old(checker).observations(),
                final(checker).observations(),
                r,
            ) && *final(shared) == *old(shared),
            stage == Stage::Explore ==> explore_post(
                *old(self),
                *final(self),
                old(interactor).actions(),
                final(interactor).actions(),
                r,
            ) && *final(shared) == *old(shared),
            stage == Stage::End ==> end_post(*old(self), *final(self), r) && *final(shared)
                == *old(shared) && final(interactor).actions() == old(interactor).actions(),
            stage == Stage::Stopped ==> r == (Step { wait_ms: 0, next: Stage::Stopped })
                && *final(self) == *old(self) && *final(shared) == *old(shared)
                && final(interactor).actions() == old(interactor).actions(),
    {
        match stage {
            Stage::Start => self.start_cycle(interactor, checker, shared, now),
            Stage::ClearFullInventory => {
                shared.set_full_inventory(false);
                Step { wait_ms: 0, next: Stage::Act }
            },
            Stage::Act => self.act(interactor, checker),
            Stage::Engage => self.engage(interactor),
            Stage::Rotation(i) => self.rotation_step(i, interactor, checker, shared, now),
            Stage::Track(i, ok) => self.track(i, ok, shared, now),
            Stage::PartyCast(i, k) => self.party_cast(i, k, interactor, shared),
            Stage::PartyCastDone(i, k, ok) => self.party_cast_done(i, k, ok, interactor, shared, now),
            Stage::Movement => self.movement(interactor, checker),
            Stage::Explore => self.explore(interactor, checker),
            Stage::End => self.end_cycle(),
            Stage::Stopped => Step { wait_ms: 0, next: Stage::Stopped },
        }
    }

    /// Observes the state. After town or death the tracker and the maze are
    /// reset; on leaving a fight, whatever comes next, the debuffs are
    /// forgotten. A closed inventory is opened unless the state is unknown;
    /// a full one in a dungeon is reported to the party, and the master
    /// leaves for town if so configured. See `start_post`.
    pub fn start_cycle<I: Interactor, C: StateChecker>(
        &mut self,
        interactor: &mut I,
        checker: &mut C,
        shared: &mut SharedState,
        now: u64,
    ) -> (r: Step)
        requires
            old(self).wf(),
            old(shared).wf(),
        ensures
            final(self).wf(),
            final(shared).wf(),
            start_post(
                *old(self),
                *final(self),
                *old(shared),
                *final(shared),
                old(interactor).actions(),
                final(interactor).actions(),
                old(checker).observations(),
                final(checker).observations(),
                now,
                r,
            ),
    {
        if !self.is_running {
            return Step { wait_ms: 0, next: Stage::Stopped };
        }
        if !self.is_enabled {
            return Step { wait_ms: self.sync_interval_ms, next: Stage::Start };
        }
        let ghost a0 = interactor.actions();
        let ghost c0 = checker.observations();
        self.skip_wait = false;
        let prev = self.prev_state;
        let state = checker.get_state(self.num_active_characters);
        self.state = state;
        self.state_check_at = now;
        let reset = (prev == CharState::InTown || prev == CharState::Dead) && !(state
            == CharState::InTown || state == CharState::Dead);
        if reset {
            self.skill_tracker.reset();
            self.maze_solver.reset();
            self.auto_attacking = false;
        }
        let opened = checker.is_inventory_opened();
        if !opened && state != CharState::Unknown {
            interactor.inventory_toggle();
        }
        if prev == CharState::Fighting && state != CharState::Fighting {
            self.skill_tracker.reset_debuffs();
        }
        assert(c0.len() + 2 <= checker.observations().len());
        assert(checker.observations().subrange(0, c0.len() as int) =~= c0);
        assert(interactor.actions().subrange(0, a0.len() as int) =~= a0);
        match state {
            CharState::Unknown | CharState::InTown => Step { wait_ms: 0, next: Stage::End },
            _ => {
                let ghost c2 = checker.observations();
                let ghost a2 = interactor.actions();
                if state == CharState::InDungeon {
                    let opened_now = checker.is_inventory_opened();
                    if opened_now {
                        let full = checker.is_inventory_full();
                        if full {
                            shared.set_full_inventory(true);
                        }
                    }
                }
                assert(checker.observations().subrange(0, c0.len() as int) =~= c0) by {
                    assert(checker.observations().subrange(0, c2.len() as int) =~= c2);
                }
                assert(checker.observations()[c0.len() as int] == c2[c0.len() as int]);
                assert(checker.observations()[c0.len() as int + 1] == c2[c0.len() as int + 1]);
                if state == CharState::InDungeon && shared.get_full_inventory()
                    && self.window_config.master && self.leave_when_full {
                    let left = interactor.leave_to_town();
                    assert(interactor.actions().subrange(0, a0.len() as int) =~= a0) by {
                        assert(interactor.actions().subrange(0, a2.len() as int) =~= a2);
                    }
                    assert(a2.len() > a0.len() ==> interactor.actions()[a0.len() as int]
                        == a2[a0.len() as int]);
                    if left {
                        Step { wait_ms: LEAVE_SETTLE_MS, next: Stage::ClearFullInventory }
                    } else {
                        Step { wait_ms: 0, next: Stage::Act }
                    }
                } else {
                    Step { wait_ms: 0, next: Stage::Act }
                }
            },
        }
    }

    /// One loot decision on the offered item: gives up (false) when its
    /// quality or tier is unknown, else loots or discards it by the filter
    /// and reports whether that worked.
    pub fn loot_cycle<I: Interactor, C: StateChecker>(&self, interactor: &mut I, checker: &mut C) -> (r:
        bool)
        ensures
            loot_cycle_post(
                self.window_config.class_config.loot_filter@,
                old(interactor).actions(),
                final(interactor).actions(),
                old(checker).observations(),
                final(checker).observations(),
                r,
            ),
            final(interactor).actions() == old(interactor).actions() || (appends(
                old(interactor).actions(),
                final(interactor).actions(),
                1,
            ) && (final(interactor).actions().last().0 == Action::Loot
                || final(interactor).actions().last().0 == Action::Discard)),
    {
        let ghost a0 = interactor.actions();
        let ghost c0 = checker.observations();
        let quality = checker.get_loot_quality();
        assert(checker.observations().subrange(0, c0.len() as int) =~= c0);
        if quality == LootQuality::Unknown {
            return false;
        }
        let tier = checker.get_loot_tier();
        assert(checker.observations().subrange(0, c0.len() as int) =~= c0);
        assert(checker.observations()[c0.len() as int] == Observation::LootQuality(quality));
        let r = match decide_loot(&self.window_config.class_config.loot_filter, quality, tier) {
            None => false,
            Some(true) => interactor.loot(),
            Some(false) => interactor.discard(),
        };
        assert(interactor.actions() != a0 ==> interactor.actions().subrange(0, a0.len() as int)
            =~= a0);
        r
    }

    /// Interacts with a shrine, loots while `keep_looting` says so, and
    /// heads into combat when fighting or in a dungeon. See `act_post`.
    pub fn act<I: Interactor, C: StateChecker>(&mut self, interactor: &mut I, checker: &mut C) -> (r:
        Step)
        requires
            old(self).wf(),
        ensures
            final(self).wf(),
            act_post(*old(self), *final(self), old(interactor).actions(), final(interactor).actions(), r),
    {
        let ghost a0 = interactor.actions();
        let state = self.state;
        if state == CharState::AtShrine {
            interactor.interact();
            assert(interactor.actions().subrange(0, a0.len() as int) =~= a0);
        }
        if state == CharState::Looting && !checker.is_inventory_full() {
            let mut attempts: u64 = 0;
            let mut looting = true;
            while looting
                invariant
                    attempts <= MAX_LOOT_ATTEMPTS + 1,
                    looting ==> attempts <= MAX_LOOT_ATTEMPTS,
                    *self == *old(self),
                    a0.len() <= interactor.actions().len(),
                    interactor.actions().len() <= a0.len() + attempts,
                    interactor.actions().subrange(0, a0.len() as int) == a0,
                    forall|j: int|
                        a0.len() <= j < interactor.actions().len() ==> (
                        #[trigger] interactor.actions()[j]).0 == Action::Loot
                            || interactor.actions()[j].0 == Action::Discard,
                decreases MAX_LOOT_ATTEMPTS + 1 - attempts + (if looting {
                    1int
                } else {
                    0int
                }),
            {
                let ghost before = interactor.actions();
                let looted = self.loot_cycle(interactor, checker);
                assert(interactor.actions().subrange(0, a0.len() as int) =~= a0) by {
                    assert(interactor.actions().subrange(0, before.len() as int) =~= before);
                }
                assert forall|j: int|
                    a0.len() <= j < interactor.actions().len() implies (
                    #[trigger] interactor.actions()[j]).0 == Action::Loot
                        || interactor.actions()[j].0 == Action::Discard by {
                    if j < before.len() {
                        assert(interactor.actions()[j] == before[j]) by {
                            assert(interactor.actions().subrange(0, before.len() as int)
                                =~= before);
                            assert(interactor.actions().subrange(0, before.len() as int)[j]
                                == interactor.actions()[j]);
                        }
                    }
                }
                attempts += 1;
                let new_state = checker.get_state(self.num_active_characters);
                let full = if looted && new_state == CharState::Looting {
                    checker.is_inventory_full()
                } else {
                    false
                };
                looting = keep_looting(looted, new_state, full, attempts);
            }
            self.skip_wait = true;
        }
        assert(interactor.actions().subrange(0, a0.len() as int) =~= a0);
        if state == CharState::Fighting || state == CharState::InDungeon {
            let wait = if self.prev_state != CharState::Fighting && state == CharState::Fighting {
                COMBAT_SETTLE_MS
            } else {
                0
            };
            Step { wait_ms: wait, next: Stage::Engage }
        } else {
            Step { wait_ms: 0, next: Stage::Movement }
        }
    }

    /// Starts auto-attacking once per engagement while fighting. See
    /// `engage_post`.
    pub fn engage<I: Interactor>(&mut self, interactor: &mut I) -> (r: Step)
        requires
            old(self).wf(),
        ensures
            final(self).wf(),
            engage_post(*old(self), *final(self), old(interactor).actions(), final(interactor).actions(), r),
    {
        if !self.auto_attacking && self.state == CharState::Fighting {
            self.auto_attacking = interactor.auto_attack(self.window_config.class_config.auto_attack);
        }
        Step { wait_ms: 0, next: Stage::Rotation(0) }
    }

    /// How long to wait after casting `skill`: its cast time, or for an
    /// instant skill the global cooldown unless it is exempt, plus the
    /// configured leeway.
    pub fn cast_wait_ms(&self, skill: &Skill, shared: &SharedState) -> (r: u64)
        requires
            self.wf(),
            shared.wf(),
        ensures
            r == cast_wait(*self, *skill, *shared),
    {
        let cfg = &self.window_config.class_config;
        let cast_time = skill.cast_time(shared, cfg.class, cfg.cast_time_reductions.as_ref());
        let ms = if cast_time > 0 {
            cast_time
        } else if contains_name(&cfg.no_gcd_skills, &skill.name) {
            0
        } else {
            skill.get_gcd(shared, cfg.class)
        };
        ms.saturating_add(self.cast_leeway_ms)
    }

    /// Considers the rotation's skill at index `i`: refreshes a stale state,
    /// drinks a potion when fighting on low health, clears the flag of a
    /// party buff found expired, and casts the skill when the tracker says
    /// so, on the whole party for a broadcast skill. See `rotation_post`.
    #[verifier::rlimit(100)]
    pub fn rotation_step<I: Interactor, C: StateChecker>(
        &mut self,
        i: usize,
        interactor: &mut I,
        checker: &mut C,
        shared: &mut SharedState,
        now: u64,
    ) -> (r: Step)
        requires
            old(self).wf(),
            old(shared).wf(),
        ensures
            final(self).wf(),
            final(shared).wf(),
            rotation_post(
                *old(self),
                *final(self),
                *old(shared),
                *final(shared),
                old(interactor).actions(),
                final(interactor).actions(),
                old(checker).observations(),
                final(checker).observations(),
                i,
                now,
                r,
            ),
    {
        if i >= self.rotation.skills.len() {
            return Step { wait_ms: 0, next: Stage::Movement };
        }
        let ghost a0 = interactor.actions();
        let ghost c0 = checker.observations();
        let ghost v0 = self.skill_tracker@;
        let updated = self.current_state(checker, now);
        self.drink_if_low(interactor, checker, updated, now);
        assert(checker.observations().subrange(0, c0.len() as int) =~= c0);
        assert(interactor.actions().subrange(0, a0.len() as int) =~= a0);
        let ghost a1 = interactor.actions();
        let skill = &self.rotation.skills[i];
        let cfg = &self.window_config.class_config;
        let cd_reductions = cfg.cd_reductions.as_ref();
        let (cast, expired) = self.skill_tracker.should_cast(skill, cd_reductions, updated, now);
        assert(opt_reductions(cd_reductions) == cfg_reductions(cfg.cd_reductions));
        assert(cast == wants_cast(v0, *skill, cfg_reductions(cfg.cd_reductions), updated, now));
        assert(expired == expired_buff(v0, *skill, now));
        match expired {
            Some(buff) => shared.set_buff_applied(buff, false),
            None => {},
        }
        if !cast {
            assert(interactor.actions().subrange(0, a0.len() as int) =~= a0);
            return Step { wait_ms: 0, next: Stage::Rotation(i + 1) };
        }
        self.skip_wait = true;
        if contains_name(&cfg.cast_all_skills, &skill.name) && self.num_active_characters > 1 {
            assert(interactor.actions().subrange(0, a0.len() as int) =~= a0);
            Step { wait_ms: 0, next: Stage::PartyCast(i, 0) }
        } else {
            let ok = interactor.cast_skill(skill);
            assert(interactor.actions().subrange(0, a0.len() as int) =~= a0) by {
                assert(interactor.actions().subrange(0, a1.len() as int) =~= a1);
                assert(a1.subrange(0, a0.len() as int) =~= a0);
            }
            assert(a1.len() > a0.len() ==> interactor.actions()[a0.len() as int] == a1[a0.len() as int]);
            if ok {
                let wait = self.cast_wait_ms(skill, shared);
                Step { wait_ms: wait, next: Stage::Track(i, true) }
            } else {
                Step { wait_ms: 0, next: Stage::Track(i, false) }
            }
        }
    }

    /// The state to use for the next skill: the cycle's, or when that was
    /// observed more than `STATE_REFRESH_MS` ago a fresh one.
    fn current_state<C: StateChecker>(&self, checker: &mut C, now: u64) -> (u: CharState)
        ensures
            elapsed(now, self.state_check_at) > STATE_REFRESH_MS ==> final(checker).observations()
                == old(checker).observations().push(Observation::State(u)),
            elapsed(now, self.state_check_at) <= STATE_REFRESH_MS ==> final(checker).observations()
                == old(checker).observations() && u == self.state,
    {
        let since = if now >= self.state_check_at {
            now - self.state_check_at
        } else {
            0
        };
        if since > STATE_REFRESH_MS {
            checker.get_state(self.num_active_characters)
        } else {
            self.state
        }
    }

    /// When fighting, observes whether health is low, and then drinks and
    /// records a potion unless one is on cooldown.
    fn drink_if_low<I: Interactor, C: StateChecker>(
        &mut self,
        interactor: &mut I,
        checker: &mut C,
        u: CharState,
        now: u64,
    )
        requires
            old(self).wf(),
        ensures
            final(self).wf(),
            *final(self) == (SimulationState {
                skill_tracker: final(self).skill_tracker,
                ..*old(self)
            }),
            u != CharState::Fighting ==> final(checker).observations() == old(
                checker,
            ).observations() && final(interactor).actions() == old(interactor).actions()
                && final(self).skill_tracker@ == old(self).skill_tracker@,
            u == CharState::Fighting ==> {
                let seen = final(checker).observations().last();
                let drinks = seen == Observation::LowHp(true) && !potion_on_cooldown(
                    old(self).skill_tracker@.potion,
                    now,
                );
                &&& seen is LowHp
                &&& final(checker).observations() == old(checker).observations().push(seen)
                &&& final(self).skill_tracker@ == (if drinks {
                    TrackerView { potion: Some(now), ..old(self).skill_tracker@ }
                } else {
                    old(self).skill_tracker@
                })
                &&& final(interactor).actions() == (if drinks {
                    old(interactor).actions().push(
                        (Action::UseHpPot, final(interactor).actions().last().1),
                    )
                } else {
                    old(interactor).actions()
                })
            },
    {
        if u == CharState::Fighting {
            let low = checker.is_on_low_hp(self.num_active_characters);
            if low && !self.skill_tracker.is_hp_pot_on_cooldown(now) {
                interactor.use_hp_pot();
                self.skill_tracker.track_hp_pot(now);
            }
        }
    }

    /// Records the cast of the skill at index `i` when it went off, and
    /// moves on to the next skill. See `track_stage_post`.
    pub fn track(&mut self, i: usize, ok: bool, shared: &mut SharedState, now: u64) -> (r: Step)
        requires
            old(self).wf(),
            old(shared).wf(),
        ensures
            final(self).wf(),
            final(shared).wf(),
            track_stage_post(*old(self), *final(self), *old(shared), *final(shared), i, ok, now, r),
    {
        if i >= self.rotation.skills.len() {
            return Step { wait_ms: 0, next: Stage::Movement };
        }
        if ok {
            self.record_cast(i, shared, now);
        }
        Step { wait_ms: 0, next: Stage::Rotation(i + 1) }
    }

    /// Records a cast of the rotation's skill `i` at `now`; see `track_post`.
    fn record_cast(&mut self, i: usize, shared: &mut SharedState, now: u64)
        requires
            old(self).wf(),
            old(shared).wf(),
            i < old(self).rotation.skills@.len(),
        ensures
            final(self).wf(),
            final(shared).wf(),
            track_post(*old(self), *final(self), *old(shared), *final(shared), i, now),
    {
        let skill = &self.rotation.skills[i];
        let cd_reductions = self.window_config.class_config.cd_reductions.as_ref();
        assert(opt_reductions(cd_reductions) == cfg_reductions(
            self.window_config.class_config.cd_reductions,
        ));
        let applied = self.skill_tracker.track_cast(skill, cd_reductions, now);
        match applied {
            Some(buff) => shared.set_buff_applied(buff, true),
            None => {},
        }
    }

    /// Targets party member `k` and casts the skill at index `i` on it. See
    /// `party_cast_post`.
    pub fn party_cast<I: Interactor>(
        &mut self,
        i: usize,
        k: usize,
        interactor: &mut I,
        shared: &SharedState,
    ) -> (r: Step)
        requires
            old(self).wf(),
            shared.wf(),
        ensures
            party_cast_post(
                *old(self),
                *final(self),
                *shared,
                old(interactor).actions(),
                final(interactor).actions(),
                i,
                k,
                r,
            ),
    {
        if i >= self.rotation.skills.len() {
            return Step { wait_ms: 0, next: Stage::Movement };
        }
        let ghost a0 = interactor.actions();
        let skill = &self.rotation.skills[i];
        interactor.target_player(k);
        let ok = interactor.cast_skill(skill);
        assert(interactor.actions() =~= a0.push((Action::TargetPlayer(k), interactor.actions()[a0.len() as int].1)).push(
            (Action::CastSkill(skill.name@), ok),
        ));
        assert(interactor.actions().subrange(0, a0.len() as int) =~= a0);
        let wait = self.cast_wait_ms(skill, shared);
        Step { wait_ms: wait, next: Stage::PartyCastDone(i, k, ok) }
    }

    /// After the cast on party member `k`: only the cast on the character
    /// itself (`k == 0`) is recorded, when it went off; then the next member,
    /// or back to targeting itself and on to the next skill. See
    /// `party_done_post`.
    pub fn party_cast_done<I: Interactor>(
        &mut self,
        i: usize,
        k: usize,
        cast_ok: bool,
        interactor: &mut I,
        shared: &mut SharedState,
        now: u64,
    ) -> (r: Step)
        requires
            old(self).wf(),
            old(shared).wf(),
        ensures
            final(self).wf(),
            final(shared).wf(),
            party_done_post(
                *old(self),
                *final(self),
                *old(shared),
                *final(shared),
                old(interactor).actions(),
                final(interactor).actions(),
                i,
                k,
                cast_ok,
                now,
                r,
            ),
    {
        if i >= self.rotation.skills.len() {
            return Step { wait_ms: 0, next: Stage::Movement };
        }
        if k == 0 && cast_ok {
            self.record_cast(i, shared, now);
        }
        if k < usize::MAX && k + 1 < self.num_active_characters {
            Step { wait_ms: 0, next: Stage::PartyCast(i, k + 1) }
        } else {
            let ghost a0 = interactor.actions();
            interactor.target_player(0);
            assert(interactor.actions().subrange(0, a0.len() as int) =~= a0);
            Step { wait_ms: 0, next: Stage::Rotation(i + 1) }
        }
    }

    /// When this character explores: in a dungeon (observed afresh) it
    /// resumes walking and lets that settle before the exploration step.
    /// See `movement_post`.
    pub fn movement<I: Interactor, C: StateChecker>(&mut self, interactor: &mut I, checker: &mut C) -> (r:
        Step)
        requires
            old(self).wf(),
        ensures
            final(self).wf(),
            movement_post(
                *old(self),
                *final(self),
                old(interactor).actions(),
                final(interactor).actions(),
                old(checker).observations(),
                final(checker).observations(),
                r,
            ),
    {
        if self.window_config.master && self.auto_explore {
            self.skip_wait = true;
            let updated = checker.get_state(self.num_active_characters);
            if updated == CharState::InDungeon {
                interactor.walk(None, 0);
                Step { wait_ms: RESUME_WALK_SETTLE_MS, next: Stage::Explore }
            } else {
                Step { wait_ms: 0, next: Stage::Explore }
            }
        } else {
            Step { wait_ms: 0, next: Stage::End }
        }
    }

    /// When this character explores: in a dungeon or at a shrine (observed
    /// afresh), interacts with a shrine and takes one exploration step,
    /// leaving for town once the maze is explored. See `explore_post`.
    pub fn explore<I: Interactor, C: StateChecker>(&mut self, interactor: &mut I, checker: &mut C) -> (r:
        Step)
        requires
            old(self).wf(),
        ensures
            final(self).wf(),
            explore_post(*old(self), *final(self), old(interactor).actions(), final(interactor).actions(), r),
    {
        if self.window_config.master && self.auto_explore {
            self.skip_wait = true;
            let updated = checker.get_state(self.num_active_characters);
            if updated == CharState::InDungeon || updated == CharState::AtShrine {
                if updated == CharState::AtShrine {
                    interactor.interact();
                }
                let done = self.maze_solver.explore_step(interactor, EXPLORE_WALK_MS);
                if done {
                    interactor.leave_to_town();
                }
            }
        }
        Step { wait_ms: 0, next: Stage::End }
    }

    /// Remembers this cycle's state and waits out the sync interval unless
    /// the cycle already spent time.
    pub fn end_cycle(&mut self) -> (r: Step)
        requires
            old(self).wf(),
        ensures
            final(self).wf(),
            end_post(*old(self), *final(self), r),
    {
        self.prev_state = self.state;
        let wait = if self.skip_wait {
            0
        } else {
            self.sync_interval_ms
        };
        Step { wait_ms: wait, next: Stage::Start }
    }
}

/// Whether the loot loop goes on after an attempt: the attempt worked, the
/// character is still looting, the inventory is not full, and the attempt
/// bound is not reached.
pub fn keep_looting(looted: bool, new_state: CharState, full: bool, attempts: u64) -> (r: bool)
    ensures
        r == (looted && new_state == CharState::Looting && !full && attempts <= MAX_LOOT_ATTEMPTS),
{
    looted && new_state == CharState::Looting && !full && attempts <= MAX_LOOT_ATTEMPTS
}

/// `after` is `before` followed by `n` more entries.
pub open spec fn appends<A>(before: Seq<A>, after: Seq<A>, n: nat) -> bool {
    &&& after.len() == before.len() + n
    &&& after.subrange(0, before.len() as int) == before
}

pub open spec fn state_of(o: Observation) -> CharState {
    match o {
        Observation::State(s) => s,
        _ => CharState::Unknown,
    }
}

pub open spec fn empty_tracker() -> TrackerView {
    TrackerView {
        last_cast: Map::empty(),
        buffs: Map::empty(),
        debuffs: Map::empty(),
        potion: None,
    }
}

/// The tracker after the start of a cycle that moves from `prev` to `state`.
pub open spec fn start_tracker(v: TrackerView, prev: CharState, state: CharState) -> TrackerView {
    if needs_reset(prev, state) {
        empty_tracker()
    } else if left_combat(prev, state) {
        TrackerView { debuffs: Map::empty(), ..v }
    } else {
        v
    }
}

pub open spec fn skill_at(sim: SimulationState, i: usize) -> Skill {
    sim.rotation.skills@[i as int]
}

pub open spec fn cd_reductions_of(sim: SimulationState) -> Option<Seq<(String, u64)>> {
    cfg_reductions(sim.window_config.class_config.cd_reductions)
}

/// The start of a cycle. A stopped or disabled loop does nothing. Otherwise
/// the state `s` is observed, then whether the inventory is open; it is
/// toggled when closed unless `s` is unknown. Unless `s` is unknown or in
/// town: in a dungeon an open, full inventory sets the party's flag, and
/// then the master, when so configured, leaves for town, waiting before the
/// flag is cleared if that worked. The tracker and the maze are reset on
/// leaving town or death, the debuffs on leaving a fight.
pub open spec fn start_post(
    o: SimulationState,
    n: SimulationState,
    s0: SharedState,
    s1: SharedState,
    a0: Seq<(Action, bool)>,
    a1: Seq<(Action, bool)>,
    c0: Seq<Observation>,
    c1: Seq<Observation>,
    now: u64,
    r: Step,
) -> bool {
    if !o.is_running {
        n == o && s1 == s0 && a1 == a0 && c1 == c0 && r == (Step {
            wait_ms: 0,
            next: Stage::Stopped,
        })
    } else if !o.is_enabled {
        n == o && s1 == s0 && a1 == a0 && c1 == c0 && r == (Step {
            wait_ms: o.sync_interval_ms,
            next: Stage::Start,
        })
    } else {
        let base = c0.len() as int;
        let s = n.state;
        let opened = c1[base + 1] == Observation::InventoryOpened(true);
        let toggles = !opened && s != CharState::Unknown;
        let acts = !(s == CharState::Unknown || s == CharState::InTown);
        let checks_full = acts && s == CharState::InDungeon;
        let full = checks_full && c1[base + 2] == Observation::InventoryOpened(true) && c1[base + 3]
            == Observation::InventoryFull(true);
        let shared = if full {
            SharedState { full_inventory: true, ..s0 }
        } else {
            s0
        };
        let leaves = checks_full && shared.full_inventory && o.window_config.master
            && o.leave_when_full;
        let at = a0.len() + (if toggles {
            1int
        } else {
            0int
        });
        &&& c1.subrange(0, base) == c0
        &&& c1[base] == Observation::State(s)
        &&& c1[base + 1] is InventoryOpened
        &&& c1.len() == base + 2 + (if !checks_full {
            0int
        } else if c1[base + 2] == Observation::InventoryOpened(true) {
            2int
        } else {
            1int
        })
        &&& s1 == shared
        &&& a1.subrange(0, a0.len() as int) == a0
        &&& a1.len() == at + (if leaves {
            1int
        } else {
            0int
        })
        &&& toggles ==> a1[a0.len() as int].0 == Action::InventoryToggle
        &&& leaves ==> a1[at].0 == Action::LeaveToTown
        &&& r == (if !acts {
            Step { wait_ms: 0, next: Stage::End }
        } else if leaves && a1[at].1 {
            Step { wait_ms: LEAVE_SETTLE_MS, next: Stage::ClearFullInventory }
        } else {
            Step { wait_ms: 0, next: Stage::Act }
        })
        &&& n == (SimulationState {
            state: s,
            state_check_at: now,
            skip_wait: false,
            skill_tracker: n.skill_tracker,
            maze_solver: n.maze_solver,
            auto_attacking: n.auto_attacking,
            ..o
        })
        &&& n.skill_tracker@ == start_tracker(o.skill_tracker@, o.prev_state, s)
        &&& needs_reset(o.prev_state, s) ==> {
            &&& n.maze_solver.maze() == Map::<Pos, Node>::empty().insert((0, 0), Node::default_spec())
            &&& n.maze_solver.depth() == 1
            &&& n.maze_solver.position() == (0i32, 0i32)
            &&& !n.auto_attacking
        }
        &&& !needs_reset(o.prev_state, s) ==> n.maze_solver == o.maze_solver && n.auto_attacking
            == o.auto_attacking
    }
}

/// One loot decision: the quality is observed and, unless unknown, the tier;
/// a classified item is looted or discarded by the filter, and the answer of
/// that action is the result; otherwise nothing is done and the result is
/// false.
pub open spec fn loot_cycle_post(
    filter: Seq<LootFilterItem>,
    a0: Seq<(Action, bool)>,
    a1: Seq<(Action, bool)>,
    c0: Seq<Observation>,
    c1: Seq<Observation>,
    r: bool,
) -> bool {
    let base = c0.len() as int;
    c1.subrange(0, base) == c0 && match c1[base] {
        Observation::LootQuality(q) => if q == LootQuality::Unknown {
            c1.len() == base + 1 && a1 == a0 && !r
        } else {
            c1.len() == base + 2 && match c1[base + 1] {
                Observation::LootTier(t) => match loot_choice(filter, q, t) {
                    None => a1 == a0 && !r,
                    Some(keep) => a1 == a0.push(
                        (
                            if keep {
                                Action::Loot
                            } else {
                                Action::Discard
                            },
                            r,
                        ),
                    ),
                },
                _ => false,
            }
        },
        _ => false,
    }
}

/// The acting stage: only `skip_wait` may change. At a shrine the one action
/// is an interaction; while looting the only actions are at most
/// `MAX_LOOT_ATTEMPTS + 1` loots or discards; otherwise there is none. The
/// next stage is the engagement when fighting or in a dungeon, after a
/// settle wait on entering a fight, else the movement.
pub open spec fn act_post(
    o: SimulationState,
    n: SimulationState,
    a0: Seq<(Action, bool)>,
    a1: Seq<(Action, bool)>,
    r: Step,
) -> bool {
    &&& n == (SimulationState { skip_wait: n.skip_wait, ..o })
    &&& o.state == CharState::AtShrine ==> appends(a0, a1, 1) && a1[a0.len() as int].0
        == Action::Interact && n == o
    &&& o.state == CharState::Looting ==> {
        &&& a1.len() <= a0.len() + MAX_LOOT_ATTEMPTS + 1
        &&& a1.subrange(0, a0.len() as int) == a0
        &&& forall|j: int|
            a0.len() <= j < a1.len() ==> (#[trigger] a1[j]).0 == Action::Loot || a1[j].0
                == Action::Discard
    }
    &&& o.state != CharState::AtShrine && o.state != CharState::Looting ==> a1 == a0 && n == o
    &&& (o.state == CharState::Fighting || o.state == CharState::InDungeon) ==> r == (Step {
        wait_ms: if entered_combat(o.prev_state, o.state) {
            COMBAT_SETTLE_MS
        } else {
            0
        },
        next: Stage::Engage,
    })
    &&& !(o.state == CharState::Fighting || o.state == CharState::InDungeon) ==> r == (Step {
        wait_ms: 0,
        next: Stage::Movement,
    })
}

/// The engagement: a fighting character that is not yet auto-attacking
/// starts to, and remembers whether that worked; then the rotation.
pub open spec fn engage_post(
    o: SimulationState,
    n: SimulationState,
    a0: Seq<(Action, bool)>,
    a1: Seq<(Action, bool)>,
    r: Step,
) -> bool {
    &&& r == (Step { wait_ms: 0, next: Stage::Rotation(0) })
    &&& if !o.auto_attacking && o.state == CharState::Fighting {
        &&& a1 == a0.push(
            (Action::AutoAttack(o.window_config.class_config.auto_attack), n.auto_attacking),
        )
        &&& n == (SimulationState { auto_attacking: n.auto_attacking, ..o })
    } else {
        a1 == a0 && n == o
    }
}

/// The rotation's skill `i`. A state older than `STATE_REFRESH_MS` is
/// observed afresh (`u` is the state used). When fighting, low health is
/// observed, and a potion is drunk and recorded if it is not on cooldown. A
/// party buff found expired has its flag cleared. When the tracker says to
/// cast: a broadcast skill in a party goes to the party casts; otherwise the
/// skill is cast once, and its record waits for the cast time if it went
/// off.
pub open spec fn rotation_post(
    o: SimulationState,
    n: SimulationState,
    s0: SharedState,
    s1: SharedState,
    a0: Seq<(Action, bool)>,
    a1: Seq<(Action, bool)>,
    c0: Seq<Observation>,
    c1: Seq<Observation>,
    i: usize,
    now: u64,
    r: Step,
) -> bool {
    if i >= o.rotation.skills@.len() {
        n == o && s1 == s0 && a1 == a0 && c1 == c0 && r == (Step {
            wait_ms: 0,
            next: Stage::Movement,
        })
    } else {
        let skill = skill_at(o, i);
        let base = c0.len() as int;
        let stale = elapsed(now, o.state_check_at) > STATE_REFRESH_MS;
        let u = if stale {
            state_of(c1[base])
        } else {
            o.state
        };
        let j = base + (if stale {
            1int
        } else {
            0int
        });
        let low = u == CharState::Fighting && c1[j] == Observation::LowHp(true);
        let drinks = low && !potion_on_cooldown(o.skill_tracker@.potion, now);
        let want = wants_cast(o.skill_tracker@, skill, cd_reductions_of(o), u, now);
        let party = want && listed(o.window_config.class_config.cast_all_skills, skill.name@)
            && o.num_active_characters > 1;
        let single = want && !party;
        let at = a0.len() + (if drinks {
            1int
        } else {
            0int
        });
        &&& c1.subrange(0, base) == c0
        &&& c1.len() == j + (if u == CharState::Fighting {
            1int
        } else {
            0int
        })
        &&& stale ==> c1[base] is State
        &&& u == CharState::Fighting ==> c1[j] is LowHp
        &&& a1.subrange(0, a0.len() as int) == a0
        &&& a1.len() == at + (if single {
            1int
        } else {
            0int
        })
        &&& drinks ==> a1[a0.len() as int].0 == Action::UseHpPot
        &&& single ==> a1[at].0 == Action::CastSkill(skill.name@)
        &&& n == (SimulationState {
            skill_tracker: n.skill_tracker,
            skip_wait: o.skip_wait || want,
            ..o
        })
        &&& n.skill_tracker@ == (if drinks {
            TrackerView { potion: Some(now), ..o.skill_tracker@ }
        } else {
            o.skill_tracker@
        })
        &&& s1 == with_opt_buff(s0, expired_buff(o.skill_tracker@, skill, now), false)
        &&& r == (if !want {
            Step { wait_ms: 0, next: Stage::Rotation((i + 1) as usize) }
        } else if party {
            Step { wait_ms: 0, next: Stage::PartyCast(i, 0) }
        } else if a1[at].1 {
            Step { wait_ms: cast_wait(o, skill, s1), next: Stage::Track(i, true) }
        } else {
            Step { wait_ms: 0, next: Stage::Track(i, false) }
        })
    }
}

/// Recording a cast of the rotation's skill `i` at `now`: nothing while it
/// is on cooldown; else the cast is recorded as `track_cast` records it, a
/// party buff it applies is flagged, and nothing else changes.
pub open spec fn track_post(
    o: SimulationState,
    n: SimulationState,
    s0: SharedState,
    s1: SharedState,
    i: usize,
    now: u64,
) -> bool {
    let skill = skill_at(o, i);
    if on_cooldown_in(
        o.skill_tracker@.last_cast,
        skill.name@,
        skill_cooldown(skill, cd_reductions_of(o)),
        now,
    ) {
        &&& n == (SimulationState { skill_tracker: n.skill_tracker, ..o })
        &&& n.skill_tracker@ == o.skill_tracker@
        &&& s1 == s0
    } else {
        &&& n == (SimulationState { skill_tracker: n.skill_tracker, ..o })
        &&& n.skill_tracker@ == tracked_view(o.skill_tracker@, skill, now)
        &&& s1 == with_opt_buff(s0, applied_buff(skill), true)
    }
}

/// The record stage: a cast that went off is recorded, a failed one is not.
pub open spec fn track_stage_post(
    o: SimulationState,
    n: SimulationState,
    s0: SharedState,
    s1: SharedState,
    i: usize,
    ok: bool,
    now: u64,
    r: Step,
) -> bool {
    if i < o.rotation.skills@.len() {
        &&& r == (Step { wait_ms: 0, next: Stage::Rotation((i + 1) as usize) })
        &&& if ok {
            track_post(o, n, s0, s1, i, now)
        } else {
            n == o && s1 == s0
        }
    } else {
        n == o && s1 == s0 && r == (Step { wait_ms: 0, next: Stage::Movement })
    }
}

/// A party cast: party member `k` is targeted and the skill cast, then the
/// wait for its cast time; nothing is recorded yet.
pub open spec fn party_cast_post(
    o: SimulationState,
    n: SimulationState,
    shared: SharedState,
    a0: Seq<(Action, bool)>,
    a1: Seq<(Action, bool)>,
    i: usize,
    k: usize,
    r: Step,
) -> bool {
    &&& n == o
    &&& if i < o.rotation.skills@.len() {
        &&& appends(a0, a1, 2)
        &&& a1[a0.len() as int].0 == Action::TargetPlayer(k)
        &&& a1[a0.len() as int + 1].0 == Action::CastSkill(skill_at(o, i).name@)
        &&& r == (Step {
            wait_ms: cast_wait(o, skill_at(o, i), shared),
            next: Stage::PartyCastDone(i, k, a1[a0.len() as int + 1].1),
        })
    } else {
        a1 == a0 && r == (Step { wait_ms: 0, next: Stage::Movement })
    }
}

/// After a party cast: only the cast on the character itself (`k == 0`) is
/// recorded, and only when it went off; then the next member, or after the
/// last one the character targets itself again and the rotation moves on.
pub open spec fn party_done_post(
    o: SimulationState,
    n: SimulationState,
    s0: SharedState,
    s1: SharedState,
    a0: Seq<(Action, bool)>,
    a1: Seq<(Action, bool)>,
    i: usize,
    k: usize,
    ok: bool,
    now: u64,
    r: Step,
) -> bool {
    if i < o.rotation.skills@.len() {
        &&& if k == 0 && ok {
            track_post(o, n, s0, s1, i, now)
        } else {
            n == o && s1 == s0
        }
        &&& if k + 1 < o.num_active_characters {
            a1 == a0 && r == (Step { wait_ms: 0, next: Stage::PartyCast(i, (k + 1) as usize) })
        } else {
            &&& appends(a0, a1, 1)
            &&& a1[a0.len() as int].0 == Action::TargetPlayer(0)
            &&& r == (Step { wait_ms: 0, next: Stage::Rotation((i + 1) as usize) })
        }
    } else {
        n == o && s1 == s0 && a1 == a0 && r == (Step { wait_ms: 0, next: Stage::Movement })
    }
}

/// The movement stage: a character that does not explore does nothing and
/// ends the cycle. One that explores observes the state, resumes walking in
/// a dungeon and waits for that to settle, and goes on to exploring.
pub open spec fn movement_post(
    o: SimulationState,
    n: SimulationState,
    a0: Seq<(Action, bool)>,
    a1: Seq<(Action, bool)>,
    c0: Seq<Observation>,
    c1: Seq<Observation>,
    r: Step,
) -> bool {
    &&& !o.explores() ==> n == o && a1 == a0 && c1 == c0 && r == (Step {
        wait_ms: 0,
        next: Stage::End,
    })
    &&& o.explores() ==> {
        let u = state_of(c1.last());
        &&& n == (SimulationState { skip_wait: true, ..o })
        &&& c1 == c0.push(Observation::State(u))
        &&& if u == CharState::InDungeon {
            &&& a1 == a0.push((Action::Walk(None), a1.last().1))
            &&& r == (Step { wait_ms: RESUME_WALK_SETTLE_MS, next: Stage::Explore })
        } else {
            a1 == a0 && r == (Step { wait_ms: 0, next: Stage::Explore })
        }
    }
}

/// The exploration stage: a character that does not explore does nothing.
/// One that explores marks the cycle as having spent time and changes
/// nothing else but its maze, by at most one exploration step.
pub open spec fn explore_post(
    o: SimulationState,
    n: SimulationState,
    a0: Seq<(Action, bool)>,
    a1: Seq<(Action, bool)>,
    r: Step,
) -> bool {
    &&& r == (Step { wait_ms: 0, next: Stage::End })
    &&& !o.explores() ==> n == o && a1 == a0
    &&& o.explores() ==> {
        &&& n == (SimulationState { skip_wait: true, maze_solver: n.maze_solver, ..o })
        &&& n.maze_solver == o.maze_solver || Solver::steps_to(o.maze_solver, n.maze_solver)
    }
}

/// The end of a cycle: its state becomes the previous one, and the sync
/// interval is waited unless the cycle already spent time.
pub open spec fn end_post(o: SimulationState, n: SimulationState, r: Step) -> bool {
    &&& n == (SimulationState { prev_state: o.state, ..o })
    &&& r == (Step {
        wait_ms: if o.skip_wait {
            0
        } else {
            o.sync_interval_ms
        },
        next: Stage::Start,
    })
}

} // verus!
