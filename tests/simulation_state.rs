use nevergrind_bot::char_state::CharState;
use nevergrind_bot::config::{AutoAttack, Class, ClassConfig, LootFilterItem, WindowConfig};
use nevergrind_bot::interactor::Interactor;
use nevergrind_bot::loot::{LootQuality, LootTier};
use nevergrind_bot::maze_solver::{Direction, Solver};
use nevergrind_bot::rotation::Rotation;
use nevergrind_bot::shared_state::SharedState;
use nevergrind_bot::simulation_state::{contains_name, decide_loot, SimulationState, Stage, Step};
use nevergrind_bot::skill::{Key, Skill, SkillType};
use nevergrind_bot::state_checker::StateChecker;

/// A window whose observations the test sets.
struct Window {
    state: CharState,
    inventory_full: bool,
    quality: LootQuality,
    tier: LootTier,
}

impl Window {
    fn new(state: CharState) -> Window {
        Window { state, inventory_full: false, quality: LootQuality::Epic, tier: LootTier::Normal }
    }
}

impl StateChecker for Window {
    fn get_state(&mut self, _: usize) -> CharState {
        self.state
    }
    fn get_loot_quality(&mut self) -> LootQuality {
        self.quality
    }
    fn get_loot_tier(&mut self) -> LootTier {
        self.tier
    }
    fn is_inventory_full(&mut self) -> bool {
        self.inventory_full
    }
    fn is_inventory_opened(&mut self) -> bool {
        true
    }
    fn is_on_low_hp(&mut self, _: usize) -> bool {
        false
    }
}

/// Records the actions taken.
#[derive(Default)]
struct Recorder {
    casts: Vec<String>,
    targets: Vec<usize>,
    loots: usize,
    discards: usize,
    left_to_town: usize,
    auto_attacks: usize,
    fail_casts: bool,
}

impl Interactor for Recorder {
    fn cast_skill(&mut self, skill: &Skill) -> bool {
        self.casts.push(skill.name.clone());
        !self.fail_casts
    }
    fn loot(&mut self) -> bool {
        self.loots += 1;
        true
    }
    fn interact(&mut self) -> bool {
        true
    }
    fn discard(&mut self) -> bool {
        self.discards += 1;
        true
    }
    fn target_player(&mut self, player_index: usize) -> bool {
        self.targets.push(player_index);
        true
    }
    fn auto_attack(&mut self, _: AutoAttack) -> bool {
        self.auto_attacks += 1;
        true
    }
    fn use_hp_pot(&mut self) -> bool {
        true
    }
    fn inventory_toggle(&mut self) -> bool {
        true
    }
    fn leave_to_town(&mut self) -> bool {
        self.left_to_town += 1;
        true
    }
    fn try_direction(&mut self, _: Direction) -> bool {
        false
    }
    fn walk(&mut self, _: Option<Direction>, _: u64) -> bool {
        true
    }
}

fn attack(name: &str) -> Skill {
    Skill {
        name: name.to_string(),
        key: Key(0x31),
        cast_time_ms: 1000,
        cooldown_ms: 60000,
        buff_duration_ms: None,
        debuff_duration_ms: None,
        skill_type: SkillType::Attack,
    }
}

fn window(master: bool, class_config: ClassConfig) -> WindowConfig {
    WindowConfig {
        title: None,
        hwnd: None,
        window_width: 1280,
        window_height: 720,
        position_x: 0,
        position_y: 0,
        active: true,
        master,
        class_config,
    }
}

fn plain_config() -> ClassConfig {
    ClassConfig::new(Class::Warlock, None, None, None, None, vec![], AutoAttack::Primary)
}

fn simulation(n: usize, master: bool, leave_when_full: bool, cfg: ClassConfig, skills: Vec<Skill>) -> SimulationState {
    let mut sim = SimulationState::new(
        500,
        0,
        n,
        window(master, cfg),
        Rotation { skills },
        leave_when_full,
        false,
        Solver::new(),
    );
    sim.start();
    sim.enable_toggle();
    sim
}

/// Runs one cycle from `Start` back to `Start`; returns the time after it.
fn cycle(
    sim: &mut SimulationState,
    recorder: &mut Recorder,
    window: &mut Window,
    shared: &mut SharedState,
    mut now: u64,
) -> u64 {
    let mut stage = Stage::Start;
    for _ in 0..1000 {
        let step = sim.step(stage, recorder, window, shared, now);
        now += step.wait_ms;
        if step.next == Stage::Start || step.next == Stage::Stopped {
            return now;
        }
        stage = step.next;
    }
    panic!("cycle does not end");
}

#[test]
fn town_fight_death_town_scenario() {
    let mut sim = simulation(1, false, false, plain_config(), vec![attack("Venom Bolt")]);
    let mut recorder = Recorder::default();
    let mut shared = SharedState::new(1000, 2000);
    let mut now = 1000;
    // a cast left over from before town
    sim.skill_tracker.track_cast(&attack("Venom Bolt"), None, 0);

    let mut window = Window::new(CharState::InTown);
    now = cycle(&mut sim, &mut recorder, &mut window, &mut shared, now);
    assert!(recorder.casts.is_empty());

    // leaving town resets the tracker, so the skill is cast at once
    window.state = CharState::Fighting;
    now = cycle(&mut sim, &mut recorder, &mut window, &mut shared, now);
    assert_eq!(recorder.casts, vec!["Venom Bolt".to_string()]);
    assert_eq!(recorder.auto_attacks, 1);

    // no second reset: the skill stays on cooldown
    now = cycle(&mut sim, &mut recorder, &mut window, &mut shared, now);
    assert_eq!(recorder.casts.len(), 1);
    assert_eq!(recorder.auto_attacks, 1);

    window.state = CharState::Dead;
    now = cycle(&mut sim, &mut recorder, &mut window, &mut shared, now);
    assert_eq!(recorder.casts.len(), 1);

    window.state = CharState::InTown;
    cycle(&mut sim, &mut recorder, &mut window, &mut shared, now);
    assert_eq!(recorder.casts.len(), 1);
    assert_eq!(sim.prev_state, CharState::InTown);
}

#[test]
fn cycle_waits_for_cast_time_then_tracks() {
    let mut sim = simulation(1, false, false, plain_config(), vec![attack("Venom Bolt")]);
    let mut recorder = Recorder::default();
    let mut shared = SharedState::new(1000, 2000);
    let mut window = Window::new(CharState::Fighting);
    let s0 = sim.step(Stage::Start, &mut recorder, &mut window, &mut shared, 0);
    assert_eq!(s0, Step { wait_ms: 0, next: Stage::Act });
    // entering combat waits before the first action
    let s1 = sim.step(Stage::Act, &mut recorder, &mut window, &mut shared, 0);
    assert_eq!(s1, Step { wait_ms: 500, next: Stage::Engage });
    let s2 = sim.step(Stage::Engage, &mut recorder, &mut window, &mut shared, 500);
    assert_eq!(s2, Step { wait_ms: 0, next: Stage::Rotation(0) });
    let s3 = sim.step(Stage::Rotation(0), &mut recorder, &mut window, &mut shared, 500);
    assert_eq!(s3, Step { wait_ms: 1000, next: Stage::Track(0, true) });
    let s4 = sim.step(Stage::Track(0, true), &mut recorder, &mut window, &mut shared, 1500);
    assert_eq!(s4, Step { wait_ms: 0, next: Stage::Rotation(1) });
    assert!(sim.skill_tracker.is_on_cooldown(&attack("Venom Bolt"), None, 61499));
    assert!(!sim.skill_tracker.is_on_cooldown(&attack("Venom Bolt"), None, 61500));
    let s5 = sim.step(Stage::Rotation(1), &mut recorder, &mut window, &mut shared, 1500);
    assert_eq!(s5, Step { wait_ms: 0, next: Stage::Movement });
    let s6 = sim.step(Stage::Movement, &mut recorder, &mut window, &mut shared, 1500);
    assert_eq!(s6, Step { wait_ms: 0, next: Stage::End });
    // the cycle cast, so no closing wait
    let s7 = sim.step(Stage::End, &mut recorder, &mut window, &mut shared, 1500);
    assert_eq!(s7, Step { wait_ms: 0, next: Stage::Start });
}

#[test]
fn disabled_or_stopped_loop_does_nothing() {
    let mut sim = simulation(1, false, false, plain_config(), vec![attack("Venom Bolt")]);
    let mut recorder = Recorder::default();
    let mut shared = SharedState::new(0, 0);
    let mut window = Window::new(CharState::Fighting);
    sim.enable_toggle();
    let s = sim.step(Stage::Start, &mut recorder, &mut window, &mut shared, 0);
    assert_eq!(s, Step { wait_ms: 500, next: Stage::Start });
    sim.stop();
    let s = sim.step(Stage::Start, &mut recorder, &mut window, &mut shared, 0);
    assert_eq!(s, Step { wait_ms: 0, next: Stage::Stopped });
    assert!(recorder.casts.is_empty());
}

#[test]
fn idle_cycle_waits_the_sync_interval() {
    let mut sim = simulation(1, false, false, plain_config(), vec![]);
    let mut recorder = Recorder::default();
    let mut shared = SharedState::new(0, 0);
    let mut window = Window::new(CharState::InTown);
    let end = cycle(&mut sim, &mut recorder, &mut window, &mut shared, 0);
    assert_eq!(end, 500);
}

#[test]
fn broadcast_skill_is_cast_on_every_party_member() {
    let cfg = ClassConfig::new(
        Class::Enchanter,
        Some(vec!["Clarity".to_string()]),
        None,
        None,
        None,
        vec![],
        AutoAttack::Primary,
    );
    let clarity = Skill {
        name: "Clarity".to_string(),
        key: Key(0x33),
        cast_time_ms: 0,
        cooldown_ms: 0,
        buff_duration_ms: Some(60000),
        debuff_duration_ms: None,
        skill_type: SkillType::Buff,
    };
    let mut sim = simulation(3, false, false, cfg, vec![clarity.clone()]);
    let mut recorder = Recorder::default();
    let mut shared = SharedState::new(0, 0);
    let mut window = Window::new(CharState::InDungeon);
    cycle(&mut sim, &mut recorder, &mut window, &mut shared, 0);
    assert_eq!(recorder.targets, vec![0, 1, 2, 0]);
    assert_eq!(recorder.casts.len(), 3);
    assert!(sim.skill_tracker.has_buff_applied(&clarity, 10000));
}

#[test]
fn augmentation_flags_party_haste() {
    let aug = Skill {
        name: "Augmentation".to_string(),
        key: Key(0x33),
        cast_time_ms: 2000,
        cooldown_ms: 60000,
        buff_duration_ms: Some(30000),
        debuff_duration_ms: None,
        skill_type: SkillType::Buff,
    };
    let mut sim = simulation(1, false, false, plain_config(), vec![aug]);
    let mut recorder = Recorder::default();
    let mut shared = SharedState::new(1000, 2000);
    let mut window = Window::new(CharState::InDungeon);
    let now = cycle(&mut sim, &mut recorder, &mut window, &mut shared, 0);
    assert!(shared.get_skill_haste_applied());
    assert_eq!(recorder.casts.len(), 1);
    // expired but still on cooldown: not cast, and the flag is cleared
    cycle(&mut sim, &mut recorder, &mut window, &mut shared, now + 28000);
    assert_eq!(recorder.casts.len(), 1);
    assert!(!shared.get_skill_haste_applied());
}

#[test]
fn master_leaves_town_when_party_inventory_is_full() {
    let mut sim = simulation(1, true, true, plain_config(), vec![]);
    let mut recorder = Recorder::default();
    let mut shared = SharedState::new(0, 0);
    let mut window = Window::new(CharState::InDungeon);
    window.inventory_full = true;
    let s = sim.step(Stage::Start, &mut recorder, &mut window, &mut shared, 0);
    assert_eq!(s, Step { wait_ms: 1000, next: Stage::ClearFullInventory });
    assert!(shared.get_full_inventory());
    assert_eq!(recorder.left_to_town, 1);
    let s = sim.step(Stage::ClearFullInventory, &mut recorder, &mut window, &mut shared, 1000);
    assert_eq!(s, Step { wait_ms: 0, next: Stage::Act });
    assert!(!shared.get_full_inventory());
}

#[test]
fn looting_follows_the_filter_and_stops_on_unknown() {
    let cfg = ClassConfig::new(
        Class::Warrior,
        None,
        None,
        None,
        None,
        vec![LootFilterItem(LootQuality::Epic, LootTier::Normal)],
        AutoAttack::Primary,
    );
    let mut sim = simulation(1, false, false, cfg, vec![]);
    let mut recorder = Recorder::default();
    let mut shared = SharedState::new(0, 0);
    let mut window = Window::new(CharState::Looting);
    cycle(&mut sim, &mut recorder, &mut window, &mut shared, 0);
    // the state stays Looting, so looting goes on up to its bound
    assert_eq!(recorder.loots, 11);

    window.quality = LootQuality::Rare;
    cycle(&mut sim, &mut recorder, &mut window, &mut shared, 10000);
    assert_eq!(recorder.discards, 11);

    window.quality = LootQuality::Unknown;
    cycle(&mut sim, &mut recorder, &mut window, &mut shared, 20000);
    assert_eq!(recorder.loots, 11);
    assert_eq!(recorder.discards, 11);
}

#[test]
fn loot_decisions() {
    let filter = vec![LootFilterItem(LootQuality::Epic, LootTier::Elite)];
    assert_eq!(decide_loot(&filter, LootQuality::Epic, LootTier::Elite), Some(true));
    assert_eq!(decide_loot(&filter, LootQuality::Epic, LootTier::Normal), Some(false));
    assert_eq!(decide_loot(&filter, LootQuality::Unknown, LootTier::Elite), None);
    assert_eq!(decide_loot(&filter, LootQuality::Epic, LootTier::Unknown), None);
}

#[test]
fn names_in_optional_lists() {
    let list = Some(vec!["Frenzy".to_string(), "Bulwark".to_string()]);
    assert!(contains_name(&list, &"Bulwark".to_string()));
    assert!(!contains_name(&list, &"Double Throw".to_string()));
    assert!(!contains_name(&None, &"Frenzy".to_string()));
}

#[test]
fn leaving_combat_forgets_debuffs_only() {
    let debuff = Skill {
        name: "Rupture".to_string(),
        key: Key(0x34),
        cast_time_ms: 0,
        cooldown_ms: 5000,
        buff_duration_ms: None,
        debuff_duration_ms: Some(18000),
        skill_type: SkillType::Debuff,
    };
    let mut sim = simulation(1, false, false, plain_config(), vec![debuff.clone()]);
    let mut recorder = Recorder::default();
    let mut shared = SharedState::new(0, 0);
    let mut window = Window::new(CharState::Fighting);
    let now = cycle(&mut sim, &mut recorder, &mut window, &mut shared, 0);
    assert!(sim.skill_tracker.has_debuff_applied(&debuff, now));
    window.state = CharState::InDungeon;
    let now = cycle(&mut sim, &mut recorder, &mut window, &mut shared, now);
    assert!(!sim.skill_tracker.has_debuff_applied(&debuff, now));
    assert!(sim.skill_tracker.is_on_cooldown(&debuff, None, now));
}

#[test]
fn reset_clears_party_flags_and_tracker() {
    let mut sim = simulation(1, false, false, plain_config(), vec![]);
    let mut shared = SharedState::new(0, 0);
    shared.set_skill_haste_applied(true);
    shared.set_frenzy_applied(true);
    shared.set_full_inventory(true);
    sim.skill_tracker.track_cast(&attack("Venom Bolt"), None, 0);
    sim.reset(&mut shared);
    assert!(!shared.get_skill_haste_applied());
    assert!(!shared.get_frenzy_applied());
    assert!(!shared.get_full_inventory());
    assert!(!sim.skill_tracker.is_on_cooldown(&attack("Venom Bolt"), None, 1));
}

#[test]
fn failed_cast_records_no_cooldown() {
    let mut sim = simulation(1, false, false, plain_config(), vec![attack("Venom Bolt")]);
    let mut recorder = Recorder { fail_casts: true, ..Recorder::default() };
    let mut shared = SharedState::new(0, 0);
    let mut window = Window::new(CharState::Fighting);
    let s = sim.step(Stage::Start, &mut recorder, &mut window, &mut shared, 0);
    assert_eq!(s.next, Stage::Act);
    let s = sim.step(Stage::Rotation(0), &mut recorder, &mut window, &mut shared, 0);
    assert_eq!(s, Step { wait_ms: 0, next: Stage::Track(0, false) });
    let s = sim.step(Stage::Track(0, false), &mut recorder, &mut window, &mut shared, 0);
    assert_eq!(s, Step { wait_ms: 0, next: Stage::Rotation(1) });
    assert_eq!(recorder.casts.len(), 1);
    assert!(!sim.skill_tracker.is_on_cooldown(&attack("Venom Bolt"), None, 1));
    // the next pass tries again
    recorder.fail_casts = false;
    let s = sim.step(Stage::Rotation(0), &mut recorder, &mut window, &mut shared, 10);
    assert_eq!(s, Step { wait_ms: 1000, next: Stage::Track(0, true) });
}

#[test]
fn failed_self_cast_in_a_party_is_not_tracked() {
    let cfg = ClassConfig::new(
        Class::Enchanter,
        Some(vec!["Venom Bolt".to_string()]),
        None,
        None,
        None,
        vec![],
        AutoAttack::Primary,
    );
    let mut sim = simulation(2, false, false, cfg, vec![attack("Venom Bolt")]);
    let mut recorder = Recorder { fail_casts: true, ..Recorder::default() };
    let mut shared = SharedState::new(0, 0);
    let mut window = Window::new(CharState::Fighting);
    cycle(&mut sim, &mut recorder, &mut window, &mut shared, 0);
    assert_eq!(recorder.targets, vec![0, 1, 0]);
    assert!(!sim.skill_tracker.is_on_cooldown(&attack("Venom Bolt"), None, 3000));
}

#[test]
fn leaving_combat_for_an_unknown_state_forgets_debuffs() {
    let debuff = Skill {
        name: "Rupture".to_string(),
        key: Key(0x34),
        cast_time_ms: 0,
        cooldown_ms: 5000,
        buff_duration_ms: None,
        debuff_duration_ms: Some(18000),
        skill_type: SkillType::Debuff,
    };
    let mut sim = simulation(1, false, false, plain_config(), vec![debuff.clone()]);
    let mut recorder = Recorder::default();
    let mut shared = SharedState::new(0, 0);
    let mut window = Window::new(CharState::Fighting);
    let now = cycle(&mut sim, &mut recorder, &mut window, &mut shared, 0);
    assert!(sim.skill_tracker.has_debuff_applied(&debuff, now));
    window.state = CharState::Unknown;
    let now = cycle(&mut sim, &mut recorder, &mut window, &mut shared, now);
    assert!(!sim.skill_tracker.has_debuff_applied(&debuff, now));
}

#[test]
fn explorer_resumes_walking_then_explores() {
    let mut sim = SimulationState::new(
        500,
        0,
        1,
        window(true, plain_config()),
        Rotation { skills: vec![] },
        false,
        true,
        Solver::new(),
    );
    sim.start();
    sim.enable_toggle();
    let mut recorder = Recorder::default();
    let mut shared = SharedState::new(0, 0);
    let mut window = Window::new(CharState::InDungeon);
    let s = sim.step(Stage::Movement, &mut recorder, &mut window, &mut shared, 0);
    assert_eq!(s, Step { wait_ms: 600, next: Stage::Explore });
    // every try is refused, so the start is a dead end: explored, then town
    let s = sim.step(Stage::Explore, &mut recorder, &mut window, &mut shared, 600);
    assert_eq!(s, Step { wait_ms: 0, next: Stage::End });
    assert_eq!(recorder.left_to_town, 0);
    sim.step(Stage::Explore, &mut recorder, &mut window, &mut shared, 700);
    assert_eq!(recorder.left_to_town, 1);
    assert!(sim.skip_wait);
}
