use vstd::prelude::*;

use crate::char_state::CharState;
use crate::shared_state::{party_buff, party_buff_of, PartyBuff};
use crate::skill::{
    castable_in, effective_cooldown, opt_reductions, reduction_coef, reductions_ok, Skill,
    SkillType,
};
use crate::timestamps::Timestamps;

verus! {

/// How long a health potion blocks the next one, in milliseconds.
pub const HP_POT_COOLDOWN_MS: u64 = 24000;

/// A buff counts as expired this long before its duration runs out, so that
/// it is refreshed without a gap.
pub const BUFF_DURATION_TOLERANCE_MS: u64 = 3000;

/// A debuff counts as expired this long before its duration runs out.
pub const DEBUFF_DURATION_TOLERANCE_MS: u64 = 1000;

/// Time from `since` to `now`; a `now` before `since` counts as no time.
pub open spec fn elapsed(now: u64, since: u64) -> int {
    if now >= since {
        now - since
    } else {
        0
    }
}

/// What a tracker remembers: the last cast, buff and debuff time of each
/// skill name, and when the last health potion was used.
pub struct TrackerView {
    pub last_cast: Map<Seq<char>, u64>,
    pub buffs: Map<Seq<char>, u64>,
    pub debuffs: Map<Seq<char>, u64>,
    pub potion: Option<u64>,
}

/// A skill whose last cast lies less than `cooldown` before `now`.
pub open spec fn on_cooldown_in(
    last_cast: Map<Seq<char>, u64>,
    name: Seq<char>,
    cooldown: nat,
    now: u64,
) -> bool {
    last_cast.contains_key(name) && elapsed(now, last_cast[name]) < cooldown
}

/// An effect recorded at a time less than `duration - tolerance` before
/// `now`.
pub open spec fn still_applied(
    applied: Map<Seq<char>, u64>,
    name: Seq<char>,
    duration: Option<u64>,
    tolerance: u64,
    now: u64,
) -> bool {
    match duration {
        Some(d) => applied.contains_key(name) && elapsed(now, applied[name]) < d - tolerance,
        None => false,
    }
}

pub open spec fn potion_on_cooldown(potion: Option<u64>, now: u64) -> bool {
    match potion {
        Some(t) => elapsed(now, t) < HP_POT_COOLDOWN_MS,
        None => false,
    }
}

/// The effective cooldown of `skill` under `reductions`.
pub open spec fn skill_cooldown(skill: Skill, reductions: Option<Seq<(String, u64)>>) -> nat {
    effective_cooldown(skill.cooldown_ms as nat, reduction_coef(skill.name@, reductions))
}

/// An effect of duration `d` longer than its tolerance counts as applied
/// exactly while less than `d - tolerance` has passed since it was applied,
/// so from `d - tolerance` on it counts as expired though less than `d` has
/// passed. The debuff tolerance is the smaller one.
pub proof fn lemma_reapplication_window(
    applied: Map<Seq<char>, u64>,
    name: Seq<char>,
    d: u64,
    tolerance: u64,
    now: u64,
)
    requires
        applied.contains_key(name),
        d > tolerance,
    ensures
        still_applied(applied, name, Some(d), tolerance, now) <==> elapsed(now, applied[name]) < d
            - tolerance,
        d - tolerance <= elapsed(now, applied[name]) < d ==> !still_applied(
            applied,
            name,
            Some(d),
            tolerance,
            now,
        ),
        DEBUFF_DURATION_TOLERANCE_MS < BUFF_DURATION_TOLERANCE_MS,
{
}

/// Trackers share nothing: one that has tracked nothing, such as a new one,
/// reports no skill on cooldown, no effect applied and no potion cooldown,
/// whatever other trackers recorded.
pub proof fn lemma_untouched_tracker_idle(
    v: TrackerView,
    name: Seq<char>,
    cooldown: nat,
    duration: Option<u64>,
    tolerance: u64,
    now: u64,
)
    requires
        v.last_cast.is_empty(),
        v.buffs.is_empty(),
        v.debuffs.is_empty(),
        v.potion is None,
    ensures
        !on_cooldown_in(v.last_cast, name, cooldown, now),
        !still_applied(v.buffs, name, duration, tolerance, now),
        !still_applied(v.debuffs, name, duration, tolerance, now),
        !potion_on_cooldown(v.potion, now),
{
}

/// Whether a tracker in state `v` says to cast `skill` in `state` at `now`:
/// it is off cooldown and castable, and a buff or debuff is not still
/// applied.
pub open spec fn wants_cast(
    v: TrackerView,
    skill: Skill,
    reductions: Option<Seq<(String, u64)>>,
    state: CharState,
    now: u64,
) -> bool {
    &&& !on_cooldown_in(v.last_cast, skill.name@, skill_cooldown(skill, reductions), now)
    &&& castable_in(skill.skill_type, state)
    &&& match skill.skill_type {
        SkillType::Buff => !still_applied(
            v.buffs,
            skill.name@,
            skill.buff_duration_ms,
            BUFF_DURATION_TOLERANCE_MS,
            now,
        ),
        SkillType::Debuff => !still_applied(
            v.debuffs,
            skill.name@,
            skill.debuff_duration_ms,
            DEBUFF_DURATION_TOLERANCE_MS,
            now,
        ),
        SkillType::Attack => true,
    }
}

/// The tracker state after a cast of `skill` at `now` is recorded: the
/// cast, and the buff or the debuff of its kind.
pub open spec fn tracked_view(v: TrackerView, skill: Skill, now: u64) -> TrackerView {
    TrackerView {
        last_cast: v.last_cast.insert(skill.name@, now),
        buffs: if skill.skill_type == SkillType::Buff {
            v.buffs.insert(skill.name@, now)
        } else {
            v.buffs
        },
        debuffs: if skill.skill_type == SkillType::Debuff {
            v.debuffs.insert(skill.name@, now)
        } else {
            v.debuffs
        },
        potion: v.potion,
    }
}

/// The party buff that a recorded cast of `skill` applies.
pub open spec fn applied_buff(skill: Skill) -> Option<PartyBuff> {
    if skill.skill_type == SkillType::Buff {
        party_buff_of(skill.name@)
    } else {
        None
    }
}

/// The party buff that `should_cast` reports as expired.
pub open spec fn expired_buff(v: TrackerView, skill: Skill, now: u64) -> Option<PartyBuff> {
    if skill.skill_type == SkillType::Buff && !still_applied(
        v.buffs,
        skill.name@,
        skill.buff_duration_ms,
        BUFF_DURATION_TOLERANCE_MS,
        now,
    ) {
        party_buff_of(skill.name@)
    } else {
        None
    }
}

/// Cooldown, buff, debuff and potion bookkeeping of one character. Every
/// query takes the current time, in milliseconds of a monotonic clock.
#[derive(Debug, Clone)]
pub struct SkillTracker {
    last_cast: Timestamps,
    buff_tracker: Timestamps,
    debuff_tracker: Timestamps,
    potion_last_used: Option<u64>,
}

impl View for SkillTracker {
    type V = TrackerView;

    closed spec fn view(&self) -> TrackerView {
        TrackerView {
            last_cast: self.last_cast@,
            buffs: self.buff_tracker@,
            debuffs: self.debuff_tracker@,
            potion: self.potion_last_used,
        }
    }
}

impl SkillTracker {
    pub closed spec fn wf(&self) -> bool {
        &&& self.last_cast.wf()
        &&& self.buff_tracker.wf()
        &&& self.debuff_tracker.wf()
    }

    pub fn new() -> (r: SkillTracker)
        ensures
            r.wf(),
            r@.last_cast == Map::<Seq<char>, u64>::empty(),
            r@.buffs == Map::<Seq<char>, u64>::empty(),
            r@.debuffs == Map::<Seq<char>, u64>::empty(),
            r@.potion == None::<u64>,
    {
        SkillTracker {
            last_cast: Timestamps::new(),
            buff_tracker: Timestamps::new(),
            debuff_tracker: Timestamps::new(),
            potion_last_used: None,
        }
    }

    /// Whether `skill` was cast less than its effective cooldown ago.
    pub fn is_on_cooldown(
        &self,
        skill: &Skill,
        reductions: Option<&Vec<(String, u64)>>,
        now: u64,
    ) -> (r: bool)
        requires
            self.wf(),
            reductions_ok(reductions),
        ensures
            r == on_cooldown_in(self@.last_cast, skill.name@, skill_cooldown(*skill, opt_reductions(reductions)), now),
    {
        match self.last_cast.get(&skill.name) {
            None => false,
            Some(last) => {
                let diff = if now >= last {
                    now - last
                } else {
                    0
                };
                diff < skill.get_cooldown(reductions)
            },
        }
    }

    /// Records a cast of `skill` at `now`, unless it is still on cooldown,
    /// in which case nothing changes. A tracked buff also records its
    /// application time, a tracked debuff its own; the result names the
    /// party buff that the cast applied, if any.
    pub fn track_cast(
        &mut self,
        skill: &Skill,
        reductions: Option<&Vec<(String, u64)>>,
        now: u64,
    ) -> (r: Option<PartyBuff>)
        requires
            old(self).wf(),
            reductions_ok(reductions),
        ensures
            final(self).wf(),
            on_cooldown_in(old(self)@.last_cast, skill.name@, skill_cooldown(*skill, opt_reductions(reductions)), now)
                ==> final(self)@ == old(self)@ && r.is_none(),
            !on_cooldown_in(old(self)@.last_cast, skill.name@, skill_cooldown(*skill, opt_reductions(reductions)), now)
                ==> final(self)@ == tracked_view(old(self)@, *skill, now) && r == applied_buff(*skill),
            !on_cooldown_in(old(self)@.last_cast, skill.name@, skill_cooldown(*skill, opt_reductions(reductions)), now)
                ==> {
                &&& final(self)@.last_cast == old(self)@.last_cast.insert(skill.name@, now)
                &&& final(self)@.buffs == (if skill.skill_type == SkillType::Buff {
                    old(self)@.buffs.insert(skill.name@, now)
                } else {
                    old(self)@.buffs
                })
                &&& final(self)@.debuffs == (if skill.skill_type == SkillType::Debuff {
                    old(self)@.debuffs.insert(skill.name@, now)
                } else {
                    old(self)@.debuffs
                })
                &&& final(self)@.potion == old(self)@.potion
                &&& r == (if skill.skill_type == SkillType::Buff {
                    party_buff_of(skill.name@)
                } else {
                    None
                })
            },
    {
        if self.is_on_cooldown(skill, reductions, now) {
            return None;
        }
        self.last_cast.insert(&skill.name, now);
        match skill.skill_type {
            SkillType::Buff => {
                self.buff_tracker.insert(&skill.name, now);
                party_buff(&skill.name)
            },
            SkillType::Debuff => {
                self.debuff_tracker.insert(&skill.name, now);
                None
            },
            SkillType::Attack => None,
        }
    }

    /// Whether the buff of `skill` was applied less than its duration minus
    /// the buff tolerance ago.
    pub fn has_buff_applied(&self, skill: &Skill, now: u64) -> (r: bool)
        requires
            self.wf(),
        ensures
            r == still_applied(
                self@.buffs,
                skill.name@,
                skill.buff_duration_ms,
                BUFF_DURATION_TOLERANCE_MS,
                now,
            ),
    {
        applied_within(&self.buff_tracker, skill, skill.buff_duration_ms, BUFF_DURATION_TOLERANCE_MS, now)
    }

    /// Whether the debuff of `skill` was applied less than its duration minus
    /// the debuff tolerance ago.
    pub fn has_debuff_applied(&self, skill: &Skill, now: u64) -> (r: bool)
        requires
            self.wf(),
        ensures
            r == still_applied(
                self@.debuffs,
                skill.name@,
                skill.debuff_duration_ms,
                DEBUFF_DURATION_TOLERANCE_MS,
                now,
            ),
    {
        applied_within(
            &self.debuff_tracker,
            skill,
            skill.debuff_duration_ms,
            DEBUFF_DURATION_TOLERANCE_MS,
            now,
        )
    }

    /// Not on cooldown, and castable in `state`.
    pub fn can_cast(
        &self,
        skill: &Skill,
        reductions: Option<&Vec<(String, u64)>>,
        state: CharState,
        now: u64,
    ) -> (r: bool)
        requires
            self.wf(),
            reductions_ok(reductions),
        ensures
            r == (!on_cooldown_in(self@.last_cast, skill.name@, skill_cooldown(*skill, opt_reductions(reductions)), now)
                && castable_in(skill.skill_type, state)),
    {
        let is_on_cooldown = self.is_on_cooldown(skill, reductions, now);
        let can_cast = skill.can_cast(state);
        !is_on_cooldown && can_cast
    }

    /// Whether to cast `skill` now: it can be cast, and a buff or debuff is
    /// not still applied. The second part of the result names the party
    /// buff that was found expired, whose flag the caller clears.
    pub fn should_cast(
        &self,
        skill: &Skill,
        reductions: Option<&Vec<(String, u64)>>,
        state: CharState,
        now: u64,
    ) -> (r: (bool, Option<PartyBuff>))
        requires
            self.wf(),
            reductions_ok(reductions),
        ensures
            r.0 == wants_cast(self@, *skill, opt_reductions(reductions), state, now),
            r.1 == expired_buff(self@, *skill, now),
            r.1 == (if skill.skill_type == SkillType::Buff && !still_applied(
                self@.buffs,
                skill.name@,
                skill.buff_duration_ms,
                BUFF_DURATION_TOLERANCE_MS,
                now,
            ) {
                party_buff_of(skill.name@)
            } else {
                None
            }),
    {
        let (wanted, expired) = match skill.skill_type {
            SkillType::Buff => {
                let down = !self.has_buff_applied(skill, now);
                if down {
                    (true, party_buff(&skill.name))
                } else {
                    (false, None)
                }
            },
            SkillType::Debuff => (!self.has_debuff_applied(skill, now), None),
            SkillType::Attack => (true, None),
        };
        (self.can_cast(skill, reductions, state, now) && wanted, expired)
    }

    /// Records a health potion used at `now`, unless one is still on
    /// cooldown.
    pub fn track_hp_pot(&mut self, now: u64)
        requires
            old(self).wf(),
        ensures
            final(self).wf(),
            final(self)@ == (if potion_on_cooldown(old(self)@.potion, now) {
                old(self)@
            } else {
                TrackerView { potion: Some(now), ..old(self)@ }
            }),
    {
        if !self.is_hp_pot_on_cooldown(now) {
            self.potion_last_used = Some(now);
        }
    }

    /// Whether a health potion was used less than its cooldown ago.
    pub fn is_hp_pot_on_cooldown(&self, now: u64) -> (r: bool)
        ensures
            r == potion_on_cooldown(self@.potion, now),
    {
        match self.potion_last_used {
            None => false,
            Some(t) => {
                let diff = if now >= t {
                    now - t
                } else {
                    0
                };
                diff < HP_POT_COOLDOWN_MS
            },
        }
    }

    /// Forgets all cast, buff, debuff and potion history.
    pub fn reset(&mut self)
        ensures
            final(self).wf(),
            final(self)@.last_cast == Map::<Seq<char>, u64>::empty(),
            final(self)@.buffs == Map::<Seq<char>, u64>::empty(),
            final(self)@.debuffs == Map::<Seq<char>, u64>::empty(),
            final(self)@.potion == None::<u64>,
    {
        self.last_cast.clear();
        self.buff_tracker.clear();
        self.debuff_tracker.clear();
        self.potion_last_used = None;
    }

    /// Forgets the debuff history only.
    pub fn reset_debuffs(&mut self)
        requires
            old(self).wf(),
        ensures
            final(self).wf(),
            final(self)@ == (TrackerView {
                debuffs: Map::<Seq<char>, u64>::empty(),
                ..old(self)@
            }),
    {
        self.debuff_tracker.clear();
    }
}

/// Whether `table` holds a time for `skill` less than `duration - tolerance`
/// before `now`.
fn applied_within(
    table: &Timestamps,
    skill: &Skill,
    duration: Option<u64>,
    tolerance: u64,
    now: u64,
) -> (r: bool)
    requires
        table.wf(),
    ensures
        r == still_applied(table@, skill.name@, duration, tolerance, now),
{
    match table.get(&skill.name) {
        None => false,
        Some(applied_at) => match duration {
            Some(d) => {
                let diff = if now >= applied_at {
                    now - applied_at
                } else {
                    0
                };
                d > tolerance && diff < d - tolerance
            },
            None => false,
        },
    }
}

} // verus!
