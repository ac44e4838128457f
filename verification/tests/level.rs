use arising::add_character;
use arising::characters::add_experience;
use arising::codex::get_level;
use arising::codex::LevelTable;

#[test]
fn level_zero_covers_low_experience() {
    let table = LevelTable::standard();
    assert_eq!(get_level(&table, 0), 0);
    assert_eq!(get_level(&table, 999), 0);
    assert_eq!(get_level(&table, 1000), 0);
    assert_eq!(get_level(&table, 2019), 0);
}

#[test]
fn level_boundaries_are_half_open() {
    let table = LevelTable::standard();
    assert_eq!(get_level(&table, 2020), 1);
    assert_eq!(get_level(&table, 3059), 1);
    assert_eq!(get_level(&table, 3060), 2);
    assert_eq!(get_level(&table, 4120), 2);
    assert_eq!(get_level(&table, 4121), 3);
}

#[test]
fn level_caps_at_last_entry() {
    let table = LevelTable::standard();
    assert_eq!(get_level(&table, 2244309), 149);
    assert_eq!(get_level(&table, 4999999), 149);
    assert_eq!(get_level(&table, 5000000), 149);
    assert_eq!(get_level(&table, u64::MAX), 149);
}

#[test]
fn level_count_is_150() {
    let table = LevelTable::standard();
    assert_eq!(table.level_count(), 150);
}

#[test]
fn level_is_monotonic_in_experience() {
    let table = LevelTable::standard();
    let samples: Vec<u64> = vec![
        0, 1, 999, 1000, 2019, 2020, 5000, 11158, 99690, 100000, 1000000, 2244308, 2244309,
        4999999, 5000000, 6000000,
    ];
    let mut last: u16 = 0;
    for e in samples {
        let level = get_level(&table, e);
        assert!(level >= last);
        last = level;
    }
}

#[test]
fn add_experience_updates_level() {
    let table = LevelTable::standard();
    let mut character = add_character(7);
    add_experience(&mut character, &table, 1500);
    assert_eq!(character.experience, 1500);
    assert_eq!(character.level, 0);
    add_experience(&mut character, &table, 520);
    assert_eq!(character.experience, 2020);
    assert_eq!(character.level, 1);
    add_experience(&mut character, &table, 10000000);
    assert_eq!(character.level, 149);
}
