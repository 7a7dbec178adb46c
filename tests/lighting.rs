use arm_viz::lighting::{
    record_offset, same_name, LightUpload, Lighting, LightingError, LIGHT_RECORD_SIZE, MAX_LIGHTS,
};

fn name(i: usize) -> String {
    format!("light{}", i)
}

#[test]
fn new_registry_is_empty() {
    let reg: Lighting<u32> = Lighting::new();
    assert_eq!(reg.len(), 0);
    assert!(reg.get("a").is_none());
    assert!(reg.keys().is_empty());
}

#[test]
fn first_light_goes_to_slot_zero() {
    let mut reg: Lighting<u32> = Lighting::new();
    let up = reg.add_spotlight(String::from("key"), 7).unwrap();
    assert_eq!(up, LightUpload { index: 0, record_offset: 0, record_size: 96, active_count: 1 });
    assert_eq!(reg.get("key"), Some(&7));
}

#[test]
fn slots_follow_insertion_order() {
    let mut reg: Lighting<usize> = Lighting::new();
    for i in 0..4 {
        let up = reg.add_spotlight(name(i), i * 10).unwrap();
        assert_eq!(up.index, i);
        assert_eq!(up.record_offset, i as u64 * LIGHT_RECORD_SIZE);
        assert_eq!(up.active_count, i as u32 + 1);
    }
    assert_eq!(reg.keys(), &vec![name(0), name(1), name(2), name(3)]);
    assert_eq!(reg.values(), &vec![0, 10, 20, 30]);
}

#[test]
fn nine_adds_succeed_then_capacity_error() {
    let mut reg: Lighting<usize> = Lighting::new();
    for i in 0..MAX_LIGHTS - 1 {
        assert!(reg.add_spotlight(name(i), i).is_ok());
    }
    assert_eq!(reg.len(), 9);
    assert_eq!(reg.add_spotlight(name(9), 9), Err(LightingError::CapacityExhausted));
    assert_eq!(reg.len(), 9);
    assert!(reg.get(&name(9)).is_none());
}

#[test]
fn last_slot_offset_is_eight_records() {
    let mut reg: Lighting<usize> = Lighting::new();
    let mut last = None;
    for i in 0..MAX_LIGHTS - 1 {
        last = Some(reg.add_spotlight(name(i), i).unwrap());
    }
    assert_eq!(
        last,
        Some(LightUpload { index: 8, record_offset: 768, record_size: 96, active_count: 9 })
    );
}

#[test]
fn same_name_replaces_in_place() {
    let mut reg: Lighting<&str> = Lighting::new();
    reg.add_spotlight(String::from("a"), "first").unwrap();
    reg.add_spotlight(String::from("b"), "second").unwrap();
    let up = reg.add_spotlight(String::from("a"), "third").unwrap();
    assert_eq!(up, LightUpload { index: 0, record_offset: 0, record_size: 96, active_count: 2 });
    assert_eq!(reg.len(), 2);
    assert_eq!(reg.get("a"), Some(&"third"));
    assert_eq!(reg.values(), &vec!["third", "second"]);
}

#[test]
fn full_registry_refuses_even_a_held_name() {
    let mut reg: Lighting<usize> = Lighting::new();
    for i in 0..MAX_LIGHTS - 1 {
        reg.add_spotlight(name(i), i).unwrap();
    }
    assert_eq!(reg.add_spotlight(name(0), 100), Err(LightingError::CapacityExhausted));
    assert_eq!(reg.get(&name(0)), Some(&0));
}

#[test]
fn get_mut_changes_one_light() {
    let mut reg: Lighting<u32> = Lighting::new();
    reg.add_spotlight(String::from("x"), 1).unwrap();
    reg.add_spotlight(String::from("y"), 2).unwrap();
    *reg.get_mut("y").unwrap() = 5;
    assert!(reg.get_mut("z").is_none());
    assert_eq!(reg.values(), &vec![1, 5]);
}

#[test]
fn position_finds_slot() {
    let mut reg: Lighting<u32> = Lighting::new();
    reg.add_spotlight(String::from("x"), 1).unwrap();
    reg.add_spotlight(String::from("y"), 2).unwrap();
    assert_eq!(reg.position("y"), Some(1));
    assert_eq!(reg.position("yy"), None);
}

#[test]
fn same_name_compares_characters() {
    assert!(same_name("spot", "spot"));
    assert!(!same_name("spot", "spat"));
    assert!(!same_name("spot", "spots"));
    assert!(same_name("", ""));
    assert!(same_name("été", "été"));
}

#[test]
fn record_offsets_step_by_record_size() {
    assert_eq!(record_offset(0), 0);
    assert_eq!(record_offset(1), 96);
    assert_eq!(record_offset(9), 864);
}
