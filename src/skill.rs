use vstd::prelude::*;

use crate::char_state::CharState;
use crate::config::Class;
use crate::shared_state::{SharedState, PERCENT_SCALE};

verus! {

/// Global cooldown of an instant skill before haste, in milliseconds.
pub const GCD_MS: u64 = 2500;

/// Category of a skill; decides in which states it may be cast and what
/// casting it tracks.
#[derive(Debug, Clone, Copy, PartialEq, Eq, Structural)]
pub enum SkillType {
    Attack,
    Buff,
    Debuff,
}

/// A virtual-key code that triggers an action in the game client.
#[derive(Debug, Clone, Copy, PartialEq, Eq, Structural)]
pub struct Key(pub u16);

/// Virtual-key codes of F1 to F5, which target party members one to five.
pub const VK_F1: u16 = 0x70;
pub const VK_F2: u16 = 0x71;
pub const VK_F3: u16 = 0x72;
pub const VK_F4: u16 = 0x73;
pub const VK_F5: u16 = 0x74;

impl Key {
    /// The keys that target party members, in party order.
    pub fn get_party_keys() -> (r: Vec<Key>)
        ensures
            r@ == seq![Key(VK_F1), Key(VK_F2), Key(VK_F3), Key(VK_F4), Key(VK_F5)],
    {
        vec![Key(VK_F1), Key(VK_F2), Key(VK_F3), Key(VK_F4), Key(VK_F5)]
    }
}

/// Immutable description of one skill of a rotation. Durations are in
/// milliseconds; a cast time of zero marks an instant skill.
#[derive(Debug, Clone)]
pub struct Skill {
    pub name: String,
    pub key: Key,
    pub cast_time_ms: u64,
    pub cooldown_ms: u64,
    pub buff_duration_ms: Option<u64>,
    pub debuff_duration_ms: Option<u64>,
    pub skill_type: SkillType,
}

/// Every percentage of a reduction list is at most one hundred percent.
pub open spec fn reductions_valid(rs: Seq<(String, u64)>) -> bool {
    forall|i: int| 0 <= i < rs.len() ==> #[trigger] rs[i].1 <= PERCENT_SCALE
}

pub open spec fn opt_reductions(reductions: Option<&Vec<(String, u64)>>) -> Option<
    Seq<(String, u64)>,
> {
    match reductions {
        Some(v) => Some(v@),
        None => None,
    }
}

pub open spec fn reductions_ok(reductions: Option<&Vec<(String, u64)>>) -> bool {
    match reductions {
        Some(v) => reductions_valid(v@),
        None => true,
    }
}

/// The percentage that the first entry named `name` grants, or zero.
pub open spec fn reduction_percent(name: Seq<char>, rs: Seq<(String, u64)>) -> nat
    decreases rs.len(),
{
    if rs.len() == 0 {
        0
    } else if rs[0].0@ == name {
        rs[0].1 as nat
    } else {
        reduction_percent(name, rs.subrange(1, rs.len() as int))
    }
}

/// The factor, in basis points, that a reduction list applies to the skill
/// named `name`: `100% - percent` for a listed name, `100%` otherwise.
pub open spec fn reduction_coef(name: Seq<char>, reductions: Option<Seq<(String, u64)>>) -> nat {
    match reductions {
        Some(rs) => (PERCENT_SCALE - reduction_percent(name, rs)) as nat,
        None => PERCENT_SCALE as nat,
    }
}

/// The product of the haste factors (each in basis points) that apply to a
/// character of class `class`: skill haste for everyone, frenzy for
/// Warriors only.
pub open spec fn haste_product(shared: SharedState, class: Class) -> nat {
    let h: nat = if shared.skill_haste_applied {
        (PERCENT_SCALE - shared.skill_haste_percent) as nat
    } else {
        PERCENT_SCALE as nat
    };
    let f: nat = if shared.frenzy_applied && class == Class::Warrior {
        (PERCENT_SCALE - shared.frenzy_percent) as nat
    } else {
        PERCENT_SCALE as nat
    };
    h * f
}

pub open spec fn effective_cooldown(cooldown_ms: nat, coef: nat) -> nat {
    cooldown_ms * coef / (PERCENT_SCALE as nat)
}

pub open spec fn effective_cast_time(cast_time_ms: nat, coef: nat, haste: nat) -> nat {
    if cast_time_ms == 0 {
        0
    } else {
        cast_time_ms * coef * haste / ((PERCENT_SCALE * PERCENT_SCALE * PERCENT_SCALE) as nat)
    }
}

pub open spec fn effective_gcd(haste: nat) -> nat {
    (GCD_MS as nat) * haste / ((PERCENT_SCALE * PERCENT_SCALE) as nat)
}

/// The state-compatibility table: nothing in town, dead or unknown; only
/// buffs in a dungeon or at a shrine; everything while fighting or looting.
pub open spec fn castable_in(skill_type: SkillType, state: CharState) -> bool {
    match state {
        CharState::InTown | CharState::Dead | CharState::Unknown => false,
        CharState::InDungeon | CharState::AtShrine => skill_type == SkillType::Buff,
        CharState::Fighting | CharState::Looting => true,
    }
}

/// Haste composes by multiplication. Frenzy does nothing for a class other
/// than Warrior. With skill haste `h` alone a cast time `t` becomes
/// `t * (100% - h)`; a Warrior under frenzy `f` as well gets
/// `t * (100% - h) * (100% - f)`.
pub proof fn lemma_haste_composition(shared: SharedState, class: Class, t: nat)
    requires
        shared.wf(),
        t > 0,
    ensures
        class != Class::Warrior ==> haste_product(shared, class) == haste_product(
            SharedState { frenzy_applied: false, ..shared },
            class,
        ),
        shared.skill_haste_applied && !(shared.frenzy_applied && class == Class::Warrior)
            ==> effective_cast_time(t, PERCENT_SCALE as nat, haste_product(shared, class)) == t * (
        (PERCENT_SCALE - shared.skill_haste_percent) as nat) / (PERCENT_SCALE as nat),
        shared.skill_haste_applied && shared.frenzy_applied && class == Class::Warrior
            ==> effective_cast_time(t, PERCENT_SCALE as nat, haste_product(shared, class)) == t * (
        (PERCENT_SCALE - shared.skill_haste_percent) as nat) * ((PERCENT_SCALE
            - shared.frenzy_percent) as nat) / ((PERCENT_SCALE * PERCENT_SCALE) as nat),
{
    let h = (PERCENT_SCALE - shared.skill_haste_percent) as nat;
    let f = (PERCENT_SCALE - shared.frenzy_percent) as nat;
    let s = PERCENT_SCALE as int;
    if shared.skill_haste_applied && !(shared.frenzy_applied && class == Class::Warrior) {
        assert(t * s * (h * s) == (s * s) * (t * h)) by (nonlinear_arith);
        assert((s * s) * s == s * s * s) by (nonlinear_arith);
        vstd::arithmetic::div_mod::lemma_div_multiples_vanish_quotient(s * s, (t * h) as int, s);
    }
    if shared.skill_haste_applied && shared.frenzy_applied && class == Class::Warrior {
        assert(t * s * (h * f) == s * (t * h * f)) by (nonlinear_arith);
        assert(s * (s * s) == s * s * s) by (nonlinear_arith);
        vstd::arithmetic::div_mod::lemma_div_multiples_vanish_quotient(
            s,
            (t * h * f) as int,
            s * s,
        );
    }
}

/// The first entry for a name decides its factor: `100% - percent`.
pub proof fn lemma_reduction_listed(name: Seq<char>, rs: Seq<(String, u64)>, i: int)
    requires
        0 <= i < rs.len(),
        rs[i].0@ == name,
        forall|j: int| 0 <= j < i ==> #[trigger] rs[j].0@ != name,
        reductions_valid(rs),
    ensures
        reduction_coef(name, Some(rs)) == PERCENT_SCALE - rs[i].1,
    decreases i,
{
    if i > 0 {
        let rest = rs.subrange(1, rs.len() as int);
        assert(rs[0].0@ != name);
        assert forall|j: int| 0 <= j < i - 1 implies #[trigger] rest[j].0@ != name by {
            assert(rest[j] == rs[j + 1]);
        }
        assert(rest[i - 1] == rs[i]);
        assert forall|j: int| 0 <= j < rest.len() implies #[trigger] rest[j].1 <= PERCENT_SCALE by {
            assert(rest[j] == rs[j + 1]);
        }
        lemma_reduction_listed(name, rest, i - 1);
    }
}

/// A name without an entry, or no list at all, keeps the full factor.
pub proof fn lemma_reduction_unlisted(name: Seq<char>, rs: Seq<(String, u64)>)
    requires
        forall|j: int| 0 <= j < rs.len() ==> #[trigger] rs[j].0@ != name,
    ensures
        reduction_coef(name, Some(rs)) == PERCENT_SCALE,
        reduction_coef(name, None) == PERCENT_SCALE,
    decreases rs.len(),
{
    if rs.len() > 0 {
        let rest = rs.subrange(1, rs.len() as int);
        assert(rs[0].0@ != name);
        assert forall|j: int| 0 <= j < rest.len() implies #[trigger] rest[j].0@ != name by {
            assert(rest[j] == rs[j + 1]);
        }
        lemma_reduction_unlisted(name, rest);
    }
}

impl Skill {
    /// Whether the skill is instant and so bound to the global cooldown.
    pub fn has_gcd(&self) -> (r: bool)
        ensures
            r == (self.cast_time_ms == 0),
    {
        self.cast_time_ms == 0
    }

    /// Global cooldown under the haste that currently applies to `class`.
    pub fn get_gcd(&self, shared_state: &SharedState, class: Class) -> (r: u64)
        requires
            shared_state.wf(),
        ensures
            r as nat == effective_gcd(haste_product(*shared_state, class)),
    {
        let haste = haste_product_exec(shared_state, class);
        let p = (GCD_MS as u128) * (haste as u128);
        assert(haste <= PERCENT_SCALE * PERCENT_SCALE);
        assert(p <= GCD_MS * (PERCENT_SCALE * PERCENT_SCALE)) by (nonlinear_arith)
            requires
                p == (GCD_MS as int) * (haste as int),
                haste <= PERCENT_SCALE * PERCENT_SCALE,
        ;
        (p / ((PERCENT_SCALE as u128) * (PERCENT_SCALE as u128))) as u64
    }

    /// Cooldown after the reduction that `reductions` grants this skill.
    pub fn get_cooldown(&self, reductions: Option<&Vec<(String, u64)>>) -> (r: u64)
        requires
            reductions_ok(reductions),
        ensures
            r as nat == effective_cooldown(
                self.cooldown_ms as nat,
                reduction_coef(self.name@, opt_reductions(reductions)),
            ),
            r <= self.cooldown_ms,
    {
        let coef = self.calculate_reduction_coef(reductions);
        assert((self.cooldown_ms as int) * (coef as int) <= (self.cooldown_ms as int)
            * PERCENT_SCALE) by (nonlinear_arith)
            requires
                coef <= PERCENT_SCALE,
        ;
        let p = (self.cooldown_ms as u128) * (coef as u128);
        assert(p / (PERCENT_SCALE as u128) <= self.cooldown_ms) by (nonlinear_arith)
            requires
                p <= (self.cooldown_ms as int) * PERCENT_SCALE,
                p >= 0,
        ;
        (p / (PERCENT_SCALE as u128)) as u64
    }

    /// Whether the skill may be cast in `state`.
    pub fn can_cast(&self, state: CharState) -> (r: bool)
        ensures
            r == castable_in(self.skill_type, state),
    {
        match state {
            CharState::InTown | CharState::Dead | CharState::Unknown => false,
            CharState::InDungeon | CharState::AtShrine => self.skill_type == SkillType::Buff,
            CharState::Fighting | CharState::Looting => true,
        }
    }

    /// Cast time after the skill's own reduction and the haste that
    /// currently applies to `class`; zero for an instant skill.
    pub fn cast_time(
        &self,
        shared_state: &SharedState,
        class: Class,
        reductions: Option<&Vec<(String, u64)>>,
    ) -> (r: u64)
        requires
            shared_state.wf(),
            reductions_ok(reductions),
        ensures
            r as nat == effective_cast_time(
                self.cast_time_ms as nat,
                reduction_coef(self.name@, opt_reductions(reductions)),
                haste_product(*shared_state, class),
            ),
            r <= self.cast_time_ms,
    {
        let coef = self.calculate_reduction_coef(reductions);
        if self.cast_time_ms == 0 {
            0
        } else {
            let haste = haste_product_exec(shared_state, class);
            let t = self.cast_time_ms as u128;
            let scale = PERCENT_SCALE as u128;
            let d = scale * scale * scale;
            assert(t * (coef as u128) * (haste as u128) <= t * d) by (nonlinear_arith)
                requires
                    coef <= PERCENT_SCALE,
                    haste <= PERCENT_SCALE * PERCENT_SCALE,
                    d == PERCENT_SCALE * PERCENT_SCALE * PERCENT_SCALE,
                    t >= 0,
            ;
            assert(t * d <= 0xffff_ffff_ffff_ffff * 1_000_000_000_000) by (nonlinear_arith)
                requires
                    t <= 0xffff_ffff_ffff_ffff,
                    d == 1_000_000_000_000,
            ;
            assert(t * (coef as u128) <= t * scale) by (nonlinear_arith)
                requires
                    coef <= PERCENT_SCALE,
                    scale == PERCENT_SCALE,
                    t >= 0,
            ;
            assert(t * scale <= t * d) by (nonlinear_arith)
                requires
                    d == 1_000_000_000_000,
                    scale == PERCENT_SCALE,
                    t >= 0,
            ;
            let p = t * (coef as u128) * (haste as u128);
            assert(p / d <= t) by (nonlinear_arith)
                requires
                    p <= t * d,
                    d > 0,
                    p >= 0,
            ;
            (p / d) as u64
        }
    }

    /// The factor, in basis points, that `reductions` applies to this skill.
    fn calculate_reduction_coef(&self, reductions: Option<&Vec<(String, u64)>>) -> (r: u64)
        requires
            reductions_ok(reductions),
        ensures
            r as nat == reduction_coef(self.name@, opt_reductions(reductions)),
            r <= PERCENT_SCALE,
    {
        match reductions {
            None => PERCENT_SCALE,
            Some(rs) => {
                assert(opt_reductions(reductions) == Some(rs@));
                let mut i: usize = 0;
                assert(rs@.subrange(0, rs@.len() as int) =~= rs@);
                while i < rs.len()
                    invariant
                        0 <= i <= rs@.len(),
                        opt_reductions(reductions) == Some(rs@),
                        reductions_valid(rs@),
                        reduction_percent(self.name@, rs@) == reduction_percent(
                            self.name@,
                            rs@.subrange(i as int, rs@.len() as int),
                        ),
                    decreases rs.len() - i,
                {
                    let ghost rest = rs@.subrange(i as int, rs@.len() as int);
                    assert(rest.len() > 0 && rest[0] == rs@[i as int]);
                    if rs[i].0 == self.name {
                        assert(rs@[i as int].1 <= PERCENT_SCALE);
                        assert(reduction_percent(self.name@, rs@) == rs@[i as int].1);
                        return PERCENT_SCALE - rs[i].1;
                    }
                    assert(rest.subrange(1, rest.len() as int) =~= rs@.subrange(
                        i + 1,
                        rs@.len() as int,
                    ));
                    i += 1;
                }
                PERCENT_SCALE
            },
        }
    }

    /// The haste factor that applies to `class`, in basis points.
    pub fn get_haste_coef(&self, shared_state: &SharedState, class: Class) -> (r: u64)
        requires
            shared_state.wf(),
        ensures
            r as nat == haste_product(*shared_state, class) / (PERCENT_SCALE as nat),
    {
        let haste = haste_product_exec(shared_state, class);
        haste / PERCENT_SCALE
    }
}

/// Computes `haste_product`.
fn haste_product_exec(shared_state: &SharedState, class: Class) -> (r: u64)
    requires
        shared_state.wf(),
    ensures
        r as nat == haste_product(*shared_state, class),
        r <= PERCENT_SCALE * PERCENT_SCALE,
{
    let h = if shared_state.get_skill_haste_applied() {
        PERCENT_SCALE - shared_state.get_skill_haste_percent()
    } else {
        PERCENT_SCALE
    };
    let f = if shared_state.get_frenzy_applied() && class == Class::Warrior {
        PERCENT_SCALE - shared_state.get_frenzy_percent()
    } else {
        PERCENT_SCALE
    };
    assert(h * f <= PERCENT_SCALE * PERCENT_SCALE) by (nonlinear_arith)
        requires
            h <= PERCENT_SCALE,
            f <= PERCENT_SCALE,
    ;
    h * f
}

} // verus!
