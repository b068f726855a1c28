use vstd::prelude::*;

use crate::loot::{LootQuality, LootTier};

verus! {

/// Character class of one game window.
#[derive(Debug, Clone, Copy, PartialEq, Eq, Structural)]
pub enum Class {
    Enchanter,
    Warlock,
    Warrior,
}

/// Which auto-attack a character starts a fight with.
#[derive(Debug, Clone, Copy, PartialEq, Eq, Structural)]
pub enum AutoAttack {
    Primary,
    Ranged,
}

/// One `(quality, tier)` pair that a character picks up.
#[derive(Debug, Clone, Copy, PartialEq, Eq, Structural)]
pub struct LootFilterItem(pub LootQuality, pub LootTier);

/// Command-line switches of the bot.
#[derive(Debug, Clone, Copy)]
pub struct Args {
    pub debug: bool,
    pub debug_mouse: bool,
    pub debug_line: bool,
    pub debug_interval_ms: u64,
    pub debug_sim: bool,
    pub debug_checker: bool,
}

/// Per-class configuration of one character. Reductions are
/// `(skill name, percent in basis points)` pairs.
#[derive(Debug, Clone)]
pub struct ClassConfig {
    pub class: Class,
    pub cast_all_skills: Option<Vec<String>>,
    pub no_gcd_skills: Option<Vec<String>>,
    pub cd_reductions: Option<Vec<(String, u64)>>,
    pub cast_time_reductions: Option<Vec<(String, u64)>>,
    pub loot_filter: Vec<LootFilterItem>,
    pub auto_attack: AutoAttack,
}

impl ClassConfig {
    pub fn new(
        class: Class,
        cast_all_skills: Option<Vec<String>>,
        no_gcd_skills: Option<Vec<String>>,
        cd_reductions: Option<Vec<(String, u64)>>,
        cast_time_reductions: Option<Vec<(String, u64)>>,
        loot_filter: Vec<LootFilterItem>,
        auto_attack: AutoAttack,
    ) -> (r: ClassConfig)
        ensures
            r == (ClassConfig {
                class,
                cast_all_skills,
                no_gcd_skills,
                cd_reductions,
                cast_time_reductions,
                loot_filter,
                auto_attack,
            }),
    {
        ClassConfig {
            class,
            cast_all_skills,
            no_gcd_skills,
            cd_reductions,
            cast_time_reductions,
            loot_filter,
            auto_attack,
        }
    }
}

/// Static configuration of one game window and its character. The window
/// handle is kept as its raw integer value.
#[derive(Debug, Clone)]
pub struct WindowConfig {
    pub title: Option<String>,
    pub hwnd: Option<isize>,
    pub window_width: i32,
    pub window_height: i32,
    pub position_x: i32,
    pub position_y: i32,
    pub active: bool,
    pub master: bool,
    pub class_config: ClassConfig,
}

/// Configuration of a whole run. Percentages are in basis points.
#[derive(Debug, Clone)]
pub struct Config {
    pub skill_haste_percent: u64,
    pub frenzy_haste_percent: u64,
    pub sync_interval_ms: u64,
    pub cast_leeway_ms: u64,
    pub start_offset_ms: u64,
    pub leave_when_full: bool,
    pub auto_explore: bool,
    pub windows: Vec<WindowConfig>,
}

} // verus!
