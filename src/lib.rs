//! Decision core of a multi-character game automation bot.
//!
//! - `skill`: skill descriptors and their timing: cooldown and cast-time
//!   reductions, party haste, the global cooldown.
//! - `skill_tracker`: per-character cooldown, buff, debuff and potion
//!   bookkeeping, with early reapplication before an effect runs out.
//! - `shared_state`: the facts that every character of a party reads.
//! - `maze_solver`, `node_map`: step-by-step depth-first exploration of a
//!   maze whose passages are found by trying to move.
//! - `simulation_state`: one character's control loop as stages separated by
//!   waits, which the caller performs; `interactor` and `state_checker` are
//!   the game window's actions and observations.
//!
//! Times are whole milliseconds of a monotonic clock and percentages are
//! basis points (1% == 100), so every formula is exact integer arithmetic.

pub mod char_state;
pub mod config;
pub mod interactor;
pub mod loot;
pub mod maze_solver;
pub mod node_map;
pub mod pixel_color;
pub mod rotation;
pub mod shared_state;
pub mod simulation_state;
pub mod skill;
pub mod skill_tracker;
pub mod state_checker;
pub mod timestamps;
pub mod util;
