use nevergrind_bot::char_state::CharState;
use nevergrind_bot::shared_state::{party_buff, PartyBuff, SharedState};
use nevergrind_bot::skill::{Key, Skill, SkillType};
use nevergrind_bot::skill_tracker::SkillTracker;

fn skill(name: &str, cooldown_ms: u64, skill_type: SkillType, buff: Option<u64>, debuff: Option<u64>) -> Skill {
    Skill {
        name: name.to_string(),
        key: Key(0x32),
        cast_time_ms: 1500,
        cooldown_ms,
        buff_duration_ms: buff,
        debuff_duration_ms: debuff,
        skill_type,
    }
}

#[test]
fn test_skill_tracker_is_transient() {
    let mut h1 = SkillTracker::new();
    let h2 = SkillTracker::new();
    let s = skill("Color Shift", 30000, SkillType::Attack, None, None);

    h1.track_cast(&s, None, 1000);
    let r1 = h1.is_on_cooldown(&s, None, 1000);
    let r2 = h2.is_on_cooldown(&s, None, 1000);

    assert!(r1);
    assert!(!r2);
}

#[test]
fn buff_expires_at_duration_minus_tolerance() {
    let mut t = SkillTracker::new();
    let s = skill("Clarity", 0, SkillType::Buff, Some(10000), None);
    t.track_cast(&s, None, 0);
    assert!(t.has_buff_applied(&s, 0));
    assert!(t.has_buff_applied(&s, 6999));
    assert!(!t.has_buff_applied(&s, 7000));
    assert!(!t.has_buff_applied(&s, 9999));
}

#[test]
fn debuff_expires_at_duration_minus_its_smaller_tolerance() {
    let mut t = SkillTracker::new();
    let s = skill("Engulfing Darkness", 0, SkillType::Debuff, None, Some(10000));
    t.track_cast(&s, None, 0);
    assert!(t.has_debuff_applied(&s, 8999));
    assert!(!t.has_debuff_applied(&s, 9000));
    assert!(!t.has_debuff_applied(&s, 9999));
}

#[test]
fn effect_shorter_than_tolerance_never_counts_as_applied() {
    let mut t = SkillTracker::new();
    let s = skill("Short", 0, SkillType::Buff, Some(2000), None);
    t.track_cast(&s, None, 0);
    assert!(!t.has_buff_applied(&s, 0));
}

#[test]
fn track_cast_is_ignored_while_on_cooldown() {
    let mut t = SkillTracker::new();
    let s = skill("Color Shift", 30000, SkillType::Attack, None, None);
    assert_eq!(t.track_cast(&s, None, 0), None);
    t.track_cast(&s, None, 1000);
    // still counted from the first cast
    assert!(t.is_on_cooldown(&s, None, 29999));
    assert!(!t.is_on_cooldown(&s, None, 30000));
    // once off cooldown a cast is recorded at its time
    t.track_cast(&s, None, 31000);
    assert!(t.is_on_cooldown(&s, None, 60999));
    assert!(!t.is_on_cooldown(&s, None, 61000));
}

#[test]
fn cooldown_reduction_shortens_the_gate() {
    let mut t = SkillTracker::new();
    let s = skill("Engulfing Darkness", 45000, SkillType::Attack, None, None);
    let reductions = vec![("Engulfing Darkness".to_string(), 4900)];
    t.track_cast(&s, Some(&reductions), 0);
    assert!(t.is_on_cooldown(&s, Some(&reductions), 22949));
    assert!(!t.is_on_cooldown(&s, Some(&reductions), 22950));
    assert!(t.is_on_cooldown(&s, None, 22950));
}

#[test]
fn should_cast_by_category() {
    let mut t = SkillTracker::new();
    let attack = skill("Venom Bolt", 0, SkillType::Attack, None, None);
    let buff = skill("Augmentation", 0, SkillType::Buff, Some(60000), None);
    let debuff = skill("Engulfing Darkness", 0, SkillType::Debuff, None, Some(18000));

    assert_eq!(t.should_cast(&attack, None, CharState::Fighting, 0), (true, None));
    assert_eq!(
        t.should_cast(&buff, None, CharState::InDungeon, 0),
        (true, Some(PartyBuff::SkillHaste))
    );
    assert_eq!(t.should_cast(&debuff, None, CharState::InDungeon, 0), (false, None));
    assert_eq!(t.should_cast(&attack, None, CharState::InTown, 0), (false, None));

    assert_eq!(t.track_cast(&buff, None, 0), Some(PartyBuff::SkillHaste));
    t.track_cast(&debuff, None, 0);
    assert_eq!(t.should_cast(&buff, None, CharState::Fighting, 1000), (false, None));
    assert_eq!(t.should_cast(&debuff, None, CharState::Fighting, 1000), (false, None));
    assert_eq!(
        t.should_cast(&buff, None, CharState::Fighting, 57000),
        (true, Some(PartyBuff::SkillHaste))
    );
    assert_eq!(t.should_cast(&debuff, None, CharState::Fighting, 17000), (true, None));
}

#[test]
fn can_cast_needs_cooldown_and_state() {
    let mut t = SkillTracker::new();
    let s = skill("Venom Bolt", 5000, SkillType::Attack, None, None);
    assert!(t.can_cast(&s, None, CharState::Looting, 0));
    t.track_cast(&s, None, 0);
    assert!(!t.can_cast(&s, None, CharState::Fighting, 4999));
    assert!(t.can_cast(&s, None, CharState::Fighting, 5000));
    assert!(!t.can_cast(&s, None, CharState::Dead, 5000));
}

#[test]
fn potion_cooldown() {
    let mut t = SkillTracker::new();
    assert!(!t.is_hp_pot_on_cooldown(0));
    t.track_hp_pot(100);
    assert!(t.is_hp_pot_on_cooldown(24099));
    t.track_hp_pot(20000);
    assert!(!t.is_hp_pot_on_cooldown(24100));
}

#[test]
fn reset_clears_everything() {
    let mut t = SkillTracker::new();
    let attack = skill("Venom Bolt", 30000, SkillType::Attack, None, None);
    let buff = skill("Clarity", 30000, SkillType::Buff, Some(60000), None);
    let debuff = skill("Rupture", 30000, SkillType::Debuff, None, Some(60000));
    t.track_cast(&attack, None, 0);
    t.track_cast(&buff, None, 0);
    t.track_cast(&debuff, None, 0);
    t.track_hp_pot(0);
    t.reset();
    assert!(!t.is_on_cooldown(&attack, None, 10));
    assert!(!t.is_on_cooldown(&buff, None, 10));
    assert!(!t.is_on_cooldown(&debuff, None, 10));
    assert!(!t.has_buff_applied(&buff, 10));
    assert!(!t.has_debuff_applied(&debuff, 10));
    assert!(!t.is_hp_pot_on_cooldown(10));
}

#[test]
fn reset_debuffs_keeps_casts_buffs_and_potion() {
    let mut t = SkillTracker::new();
    let buff = skill("Clarity", 30000, SkillType::Buff, Some(60000), None);
    let debuff = skill("Rupture", 30000, SkillType::Debuff, None, Some(60000));
    t.track_cast(&buff, None, 0);
    t.track_cast(&debuff, None, 0);
    t.track_hp_pot(0);
    t.reset_debuffs();
    assert!(!t.has_debuff_applied(&debuff, 10));
    assert!(t.is_on_cooldown(&debuff, None, 10));
    assert!(t.is_on_cooldown(&buff, None, 10));
    assert!(t.has_buff_applied(&buff, 10));
    assert!(t.is_hp_pot_on_cooldown(10));
}

#[test]
fn test_shared_state_is_singleton() {
    let mut state = SharedState::new(100, 100);
    state.set_skill_haste_applied(true);
    assert!(state.get_skill_haste_applied());
    state.set_skill_haste_applied(false);
    assert!(!state.get_skill_haste_applied());
}

#[test]
fn shared_state_flags_and_percents() {
    let mut state = SharedState::new(3900, 4190);
    assert_eq!(state.get_skill_haste_percent(), 3900);
    assert_eq!(state.get_frenzy_percent(), 4190);
    assert!(!state.get_frenzy_applied());
    state.set_buff_applied(PartyBuff::Frenzy, true);
    assert!(state.get_frenzy_applied());
    assert!(!state.get_skill_haste_applied());
    assert!(!state.get_full_inventory());
    state.set_full_inventory(true);
    assert!(state.get_full_inventory());
}

#[test]
fn party_buffs_are_found_by_name() {
    assert_eq!(party_buff(&"Augmentation".to_string()), Some(PartyBuff::SkillHaste));
    assert_eq!(party_buff(&"Frenzy".to_string()), Some(PartyBuff::Frenzy));
    assert_eq!(party_buff(&"Clarity".to_string()), None);
}
