use nevergrind_bot::rotation::Rotation;
use nevergrind_bot::skill::{Key, Skill, SkillType};
use nevergrind_bot::util::CyclicIterator;

#[test]
fn test_cyclic_on_vector() {
    let test_data = vec![1, 2, 3, 4, 5];
    let mut cyclic_iter = CyclicIterator::new(&test_data);
    assert_eq!(cyclic_iter.next(), Some(&1));
    assert_eq!(cyclic_iter.next(), Some(&2));
    assert_eq!(cyclic_iter.next(), Some(&3));
    assert_eq!(cyclic_iter.next(), Some(&4));
    assert_eq!(cyclic_iter.next(), Some(&5));
    assert_eq!(cyclic_iter.next(), Some(&1));
    assert_eq!(cyclic_iter.next(), Some(&2));
    assert_eq!(cyclic_iter.next(), Some(&3));
    assert_eq!(cyclic_iter.next(), Some(&4));
    assert_eq!(cyclic_iter.next(), Some(&5));
}

fn named(name: &str) -> Skill {
    Skill {
        name: name.to_string(),
        key: Key(0x31),
        cast_time_ms: 0,
        cooldown_ms: 0,
        buff_duration_ms: None,
        debuff_duration_ms: None,
        skill_type: SkillType::Attack,
    }
}

#[test]
fn test_cyclic_on_rotation() {
    let test_rotation = Rotation {
        skills: vec![
            named("Lich Form"),
            named("Profane Spirit"),
            named("Engulfing Darkness"),
            named("Explosive Plaque"),
            named("Venom Bolt"),
        ],
    };
    let mut cyclic_iter = CyclicIterator::new(&test_rotation.skills);
    assert_eq!(cyclic_iter.next().unwrap().name, "Lich Form");
    assert_eq!(cyclic_iter.next().unwrap().name, "Profane Spirit");
    assert_eq!(cyclic_iter.next().unwrap().name, "Engulfing Darkness");
    assert_eq!(cyclic_iter.next().unwrap().name, "Explosive Plaque");
    assert_eq!(cyclic_iter.next().unwrap().name, "Venom Bolt");
    assert_eq!(cyclic_iter.next().unwrap().name, "Lich Form");
    assert_eq!(cyclic_iter.next().unwrap().name, "Profane Spirit");
}

#[test]
fn cyclic_on_empty_slice_gives_nothing() {
    let empty: Vec<u8> = vec![];
    let mut cyclic_iter = CyclicIterator::new(&empty);
    assert_eq!(cyclic_iter.next(), None);
    assert_eq!(cyclic_iter.next(), None);
}
