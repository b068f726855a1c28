use vstd::prelude::*;

verus! {

/// One hundred percent, in basis points.
pub const PERCENT_SCALE: u64 = 10000;

/// A buff whose effect reaches the whole party's timing math.
#[derive(Debug, Clone, Copy, PartialEq, Eq, Structural)]
pub enum PartyBuff {
    /// The Enchanter's "Augmentation": skill haste for everyone.
    SkillHaste,
    /// The Warrior's "Frenzy": haste for Warriors only.
    Frenzy,
}

/// The party buff that casting the skill named `name` applies, if any.
pub open spec fn party_buff_of(name: Seq<char>) -> Option<PartyBuff> {
    if name == "Augmentation"@ {
        Some(PartyBuff::SkillHaste)
    } else if name == "Frenzy"@ {
        Some(PartyBuff::Frenzy)
    } else {
        None
    }
}

/// Computes `party_buff_of`.
pub fn party_buff(name: &String) -> (r: Option<PartyBuff>)
    ensures
        r == party_buff_of(name@),
{
    if *name == "Augmentation".to_owned() {
        Some(PartyBuff::SkillHaste)
    } else if *name == "Frenzy".to_owned() {
        Some(PartyBuff::Frenzy)
    } else {
        None
    }
}

/// `s` with the flag of `buff` set to `applied`.
pub open spec fn with_buff(s: SharedState, buff: PartyBuff, applied: bool) -> SharedState {
    match buff {
        PartyBuff::SkillHaste => SharedState { skill_haste_applied: applied, ..s },
        PartyBuff::Frenzy => SharedState { frenzy_applied: applied, ..s },
    }
}

/// `s` with the flag of `buff`, if any, set to `applied`.
pub open spec fn with_opt_buff(s: SharedState, buff: Option<PartyBuff>, applied: bool) -> SharedState {
    match buff {
        Some(b) => with_buff(s, b, applied),
        None => s,
    }
}

/// Party-wide facts that every character's timing math reads: whether the
/// Enchanter's skill haste and the Warrior's frenzy are active (each with a
/// magnitude fixed at construction, in basis points) and whether some
/// character's inventory is full.
#[derive(Debug, Clone)]
pub struct SharedState {
    pub skill_haste_applied: bool,
    pub skill_haste_percent: u64,
    pub frenzy_applied: bool,
    pub frenzy_percent: u64,
    pub full_inventory: bool,
}

impl SharedState {
    /// Both magnitudes are at most one hundred percent.
    pub open spec fn wf(&self) -> bool {
        &&& self.skill_haste_percent <= PERCENT_SCALE
        &&& self.frenzy_percent <= PERCENT_SCALE
    }

    pub fn new(skill_haste_percent: u64, frenzy_percent: u64) -> (r: SharedState)
        requires
            skill_haste_percent <= PERCENT_SCALE,
            frenzy_percent <= PERCENT_SCALE,
        ensures
            r.wf(),
            r.skill_haste_percent == skill_haste_percent,
            r.frenzy_percent == frenzy_percent,
            !r.skill_haste_applied,
            !r.frenzy_applied,
            !r.full_inventory,
    {
        SharedState {
            skill_haste_applied: false,
            skill_haste_percent,
            frenzy_applied: false,
            frenzy_percent,
            full_inventory: false,
        }
    }

    pub fn set_skill_haste_applied(&mut self, state: bool)
        ensures
            *final(self) == (SharedState { skill_haste_applied: state, ..*old(self) }),
    {
        self.skill_haste_applied = state;
    }

    pub fn set_frenzy_applied(&mut self, state: bool)
        ensures
            *final(self) == (SharedState { frenzy_applied: state, ..*old(self) }),
    {
        self.frenzy_applied = state;
    }

    /// Sets the flag of `buff`.
    pub fn set_buff_applied(&mut self, buff: PartyBuff, state: bool)
        ensures
            *final(self) == with_buff(*old(self), buff, state),
    {
        match buff {
            PartyBuff::SkillHaste => self.set_skill_haste_applied(state),
            PartyBuff::Frenzy => self.set_frenzy_applied(state),
        }
    }

    pub fn set_full_inventory(&mut self, state: bool)
        ensures
            *final(self) == (SharedState { full_inventory: state, ..*old(self) }),
    {
        self.full_inventory = state;
    }

    pub fn get_skill_haste_applied(&self) -> (r: bool)
        ensures
            r == self.skill_haste_applied,
    {
        self.skill_haste_applied
    }

    pub fn get_frenzy_applied(&self) -> (r: bool)
        ensures
            r == self.frenzy_applied,
    {
        self.frenzy_applied
    }

    pub fn get_full_inventory(&self) -> (r: bool)
        ensures
            r == self.full_inventory,
    {
        self.full_inventory
    }

    pub fn get_skill_haste_percent(&self) -> (r: u64)
        ensures
            r == self.skill_haste_percent,
    {
        self.skill_haste_percent
    }

    pub fn get_frenzy_percent(&self) -> (r: u64)
        ensures
            r == self.frenzy_percent,
    {
        self.frenzy_percent
    }
}

} // verus!
