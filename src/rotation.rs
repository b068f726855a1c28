use vstd::prelude::*;

use crate::skill::Skill;

verus! {

/// The skills of one character class in cast priority order.
#[derive(Debug, Clone)]
pub struct Rotation {
    pub skills: Vec<Skill>,
}

} // verus!
