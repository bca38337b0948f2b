use std::collections::HashMap;
use timekeeper::data::{entries_for, name_in, Day, Timecode, TimekeeperData, Week, Year};

fn names(list: &[&str]) -> Vec<String> {
    list.iter().map(|name| name.to_string()).collect()
}

fn day(minutes: u32, comment: &str) -> Day {
    Day { minutes, comment: comment.to_string() }
}

fn entry(name: &str) -> Timecode {
    Timecode::from_string(name.to_string())
}

fn booked(name: &str, weekday: u8, minutes: u32) -> Timecode {
    let mut entry = entry(name);
    entry.set_day(weekday, day(minutes, ""));
    entry
}

fn store_with(year: usize, week: u8, entries: Vec<Timecode>) -> TimekeeperData {
    let mut weeks = HashMap::new();
    weeks.insert(week, Week(entries));
    let mut years = HashMap::new();
    years.insert(year, Year(weeks));
    TimekeeperData(years)
}

#[test]
fn empty_store_materialises_starred_week() {
    let mut store = TimekeeperData::new();
    store.load_week(10, 2024, &names(&["Admin"]));
    let week = store.get_week(2024, 10).expect("the week was materialised");
    assert_eq!(week.0.len(), 1);
    assert_eq!(week.0[0].timecode, "Admin");
    assert!(week.0[0].is_empty());
    for weekday in 0..7u8 {
        assert!(week.0[0].get(weekday).is_none());
    }
}

#[test]
fn revisit_keeps_starred_entry_and_its_record() {
    let mut store = TimekeeperData::new();
    store.load_week(10, 2024, &names(&["Admin"]));
    store.get_week_mut(2024, 10).unwrap().get_mut(0).unwrap().set_day(0, day(180, ""));
    store.load_week(10, 2024, &names(&["Admin"]));
    let week = store.get_week(2024, 10).unwrap();
    assert_eq!(week.0.len(), 1);
    assert_eq!(week.0[0].timecode, "Admin");
    assert_eq!(week.0[0].get(0), Some(&day(180, "")));
    for weekday in 1..7u8 {
        assert!(week.0[0].get(weekday).is_none());
    }
}

#[test]
fn duplicate_timecode_is_refused() {
    let mut store = TimekeeperData::new();
    store.load_week(10, 2024, &names(&["Admin", "Travel"]));
    let before = store.clone();
    assert!(!store.add_timecode(10, 2024, "Travel".to_string()));
    assert_eq!(store.get_timecodes(2024, 10), names(&["Admin", "Travel"]));
    assert_eq!(store.get_timecodes(2024, 10).len(), 2);
    assert_eq!(store, before);
}

#[test]
fn new_store_is_empty() {
    let store = TimekeeperData::new();
    assert!(store.0.is_empty());
    assert!(store.get(2024).is_none());
    assert!(store.get_week(2024, 10).is_none());
    assert!(store.get_timecodes(2024, 10).is_empty());
}

#[test]
fn unstarred_empty_entry_is_pruned_on_revisit() {
    let mut store = store_with(2024, 10, vec![entry("Idle"), booked("Work", 2, 60)]);
    store.load_week(10, 2024, &names(&[]));
    assert_eq!(store.get_timecodes(2024, 10), names(&["Work"]));
}

#[test]
fn starred_empty_entry_is_kept_on_revisit() {
    let mut store =
        store_with(2024, 10, vec![entry("Admin"), entry("Idle"), booked("Work", 2, 60)]);
    store.load_week(10, 2024, &names(&["Admin"]));
    assert_eq!(store.get_timecodes(2024, 10), names(&["Admin", "Work"]));
    assert!(store.get_week(2024, 10).unwrap().0[0].is_empty());
}

#[test]
fn entry_with_zero_minutes_is_not_empty() {
    let mut store = store_with(2024, 10, vec![booked("Zero", 6, 0)]);
    store.load_week(10, 2024, &names(&[]));
    assert_eq!(store.get_timecodes(2024, 10), names(&["Zero"]));
    assert_eq!(store.get_day(2024, 10, 0, 6), Some(&day(0, "")));
}

#[test]
fn missing_starred_names_are_appended_in_order() {
    let mut store = store_with(2024, 10, vec![booked("Work", 0, 30), booked("B", 1, 15)]);
    store.load_week(10, 2024, &names(&["A", "B", "C"]));
    assert_eq!(store.get_timecodes(2024, 10), names(&["Work", "B", "A", "C"]));
    let week = store.get_week(2024, 10).unwrap();
    assert!(week.0[2].is_empty());
    assert!(week.0[3].is_empty());
    assert_eq!(week.0[1].get(1), Some(&day(15, "")));
}

#[test]
fn starred_name_given_twice_is_inserted_once() {
    let mut store = TimekeeperData::new();
    store.load_week(1, 2000, &names(&["A", "B", "A"]));
    assert_eq!(store.get_timecodes(2000, 1), names(&["A", "B"]));
}

#[test]
fn visiting_twice_changes_nothing_more() {
    let mut store = store_with(
        2024,
        10,
        vec![entry("Idle"), booked("Work", 2, 60), entry("Admin"), booked("Travel", 4, 90)],
    );
    let starred = names(&["Admin", "Planning"]);
    store.load_week(10, 2024, &starred);
    let once = store.clone();
    store.load_week(10, 2024, &starred);
    assert_eq!(store, once);
    assert_eq!(store.get_timecodes(2024, 10), names(&["Work", "Admin", "Travel", "Planning"]));
}

#[test]
fn visiting_a_new_week_twice_changes_nothing_more() {
    let mut store = TimekeeperData::new();
    let starred = names(&["Admin", "Travel"]);
    store.load_week(52, 1999, &starred);
    let once = store.clone();
    store.load_week(52, 1999, &starred);
    assert_eq!(store, once);
}

#[test]
fn visiting_a_week_touches_no_other_week() {
    let mut store = store_with(2024, 10, vec![entry("Idle"), booked("Work", 2, 60)]);
    let untouched = store.get_week(2024, 10).unwrap().clone();
    store.load_week(11, 2024, &names(&["Admin"]));
    store.load_week(10, 2025, &names(&["Admin"]));
    assert_eq!(store.get_week(2024, 10), Some(&untouched));
    assert_eq!(store.get_timecodes(2024, 11), names(&["Admin"]));
    assert_eq!(store.get_timecodes(2025, 10), names(&["Admin"]));
}

#[test]
fn visiting_with_nothing_starred_materialises_an_empty_week() {
    let mut store = TimekeeperData::new();
    store.load_week(3, 2024, &names(&[]));
    assert_eq!(store.get_week(2024, 3), Some(&Week(vec![])));
    assert!(store.get_timecodes(2024, 3).is_empty());
}

#[test]
fn add_timecode_appends_an_empty_entry() {
    let mut store = TimekeeperData::new();
    store.load_week(10, 2024, &names(&["Admin"]));
    assert!(store.add_timecode(10, 2024, "Travel".to_string()));
    assert_eq!(store.get_timecodes(2024, 10), names(&["Admin", "Travel"]));
    assert_eq!(store.get_week(2024, 10).unwrap().0[1], entry("Travel"));
}

#[test]
fn add_timecode_to_a_week_never_visited_fails() {
    let mut store = TimekeeperData::new();
    store.load_week(10, 2024, &names(&["Admin"]));
    let before = store.clone();
    assert!(!store.add_timecode(11, 2024, "Travel".to_string()));
    assert!(!store.add_timecode(10, 2023, "Travel".to_string()));
    assert_eq!(store, before);
}

#[test]
fn remove_timecode_deletes_the_named_entry() {
    let mut store = store_with(2024, 10, vec![booked("A", 0, 10), booked("B", 1, 20), entry("C")]);
    store.remove_timecode(10, 2024, &"B".to_string());
    assert_eq!(store.get_timecodes(2024, 10), names(&["A", "C"]));
    assert_eq!(store.get_day(2024, 10, 0, 0), Some(&day(10, "")));
}

#[test]
fn remove_timecode_of_unknown_name_or_week_does_nothing() {
    let mut store = store_with(2024, 10, vec![booked("A", 0, 10)]);
    let before = store.clone();
    store.remove_timecode(10, 2024, &"Z".to_string());
    store.remove_timecode(11, 2024, &"A".to_string());
    store.remove_timecode(10, 1, &"A".to_string());
    assert_eq!(store, before);
}

#[test]
fn get_day_is_absent_for_what_does_not_exist() {
    let store = store_with(2024, 10, vec![booked("A", 3, 45)]);
    assert_eq!(store.get_day(2024, 10, 0, 3), Some(&day(45, "")));
    assert!(store.get_day(2024, 10, 0, 2).is_none());
    assert!(store.get_day(2024, 10, 0, 7).is_none());
    assert!(store.get_day(2024, 10, 0, 255).is_none());
    assert!(store.get_day(2024, 10, 1, 3).is_none());
    assert!(store.get_day(2024, 11, 0, 3).is_none());
    assert!(store.get_day(2023, 10, 0, 3).is_none());
}

#[test]
fn get_day_mut_writes_through() {
    let mut store = store_with(2024, 10, vec![booked("A", 3, 45), booked("B", 3, 5)]);
    {
        let record = store.get_day_mut(2024, 10, 0, 3).unwrap();
        record.minutes = 50;
        record.comment.push_str("late");
    }
    assert_eq!(store.get_day(2024, 10, 0, 3), Some(&day(50, "late")));
    assert_eq!(store.get_day(2024, 10, 1, 3), Some(&day(5, "")));
    assert!(store.get_day_mut(2024, 10, 0, 2).is_none());
    assert!(store.get_day_mut(2024, 10, 2, 3).is_none());
    assert!(store.get_day_mut(2024, 9, 0, 3).is_none());
    assert!(store.get_day_mut(2024, 10, 0, 7).is_none());
}

#[test]
fn get_timecode_mut_addresses_by_index() {
    let mut store = store_with(2024, 10, vec![entry("A"), entry("B")]);
    store.get_timecode_mut(2024, 10, 1).unwrap().set_day(6, day(15, "x"));
    assert_eq!(store.get_day(2024, 10, 1, 6), Some(&day(15, "x")));
    assert!(store.get_week(2024, 10).unwrap().0[0].is_empty());
    assert!(store.get_timecode_mut(2024, 10, 2).is_none());
    assert!(store.get_timecode_mut(2024, 11, 0).is_none());
}

#[test]
fn store_and_year_lookups() {
    let mut store = store_with(2024, 10, vec![entry("A")]);
    assert!(store.get(2024).is_some());
    assert!(store.get(2025).is_none());
    assert!(store.get(2024).unwrap().get(10).is_some());
    assert!(store.get(2024).unwrap().get(11).is_none());
    assert!(store.get_mut(2025).is_none());
    assert!(store.get_mut(2024).unwrap().get_mut(11).is_none());
    store.get_mut(2024).unwrap().get_mut(10).unwrap().0.push(entry("B"));
    assert_eq!(store.get_timecodes(2024, 10), names(&["A", "B"]));
    assert!(store.get_week_mut(2024, 12).is_none());
    assert_eq!(store.0.len(), 1);
    assert_eq!(store.get(2024).unwrap().0.len(), 1);
}

#[test]
fn week_lookups_by_index() {
    let mut week = Week(vec![entry("A"), entry("B")]);
    assert_eq!(week.get(0).unwrap().timecode, "A");
    assert_eq!(week.get(1).unwrap().timecode, "B");
    assert!(week.get(2).is_none());
    week.get_mut(1).unwrap().set_day(0, day(1, ""));
    assert_eq!(week.0[1].get(0), Some(&day(1, "")));
    assert!(week.0[0].is_empty());
    assert!(week.get_mut(2).is_none());
    assert!(week.contains(&"A".to_string()));
    assert!(!week.contains(&"a".to_string()));
}

#[test]
fn week_add_timecodes_skips_names_that_are_there() {
    let mut week = Week(vec![booked("A", 0, 10)]);
    week.add_timecodes(vec![booked("A", 1, 99), booked("B", 2, 20), entry("B"), entry("C")]);
    assert_eq!(week, Week(vec![booked("A", 0, 10), booked("B", 2, 20), entry("C")]));
}

#[test]
fn week_remove_empty_keeps_the_named() {
    let mut week = Week(vec![entry("A"), booked("B", 0, 1), entry("C"), entry("D")]);
    week.remove_empty(&names(&["C"]));
    assert_eq!(week, Week(vec![booked("B", 0, 1), entry("C")]));
    week.remove_empty(&names(&[]));
    assert_eq!(week, Week(vec![booked("B", 0, 1)]));
}

#[test]
fn week_remove_timecode_by_name() {
    let mut week = Week(vec![entry("A"), booked("B", 0, 1), entry("C")]);
    week.remove_timecode(&"A".to_string());
    assert_eq!(week, Week(vec![booked("B", 0, 1), entry("C")]));
    week.remove_timecode(&"A".to_string());
    assert_eq!(week, Week(vec![booked("B", 0, 1), entry("C")]));
}

#[test]
fn timecode_slots_by_weekday() {
    let mut entry = entry("A");
    assert_eq!(entry.timecode, "A");
    assert!(entry.is_empty());
    for weekday in 0..7u8 {
        entry.set_day(weekday, day(weekday as u32 * 10, "n"));
        assert!(!entry.is_empty());
    }
    assert_eq!(entry.monday, Some(day(0, "n")));
    assert_eq!(entry.tuesday, Some(day(10, "n")));
    assert_eq!(entry.wednesday, Some(day(20, "n")));
    assert_eq!(entry.thursday, Some(day(30, "n")));
    assert_eq!(entry.friday, Some(day(40, "n")));
    assert_eq!(entry.saturday, Some(day(50, "n")));
    assert_eq!(entry.sunday, Some(day(60, "n")));
    for weekday in 0..7u8 {
        assert_eq!(entry.get(weekday), Some(&day(weekday as u32 * 10, "n")));
    }
    assert!(entry.get(7).is_none());
    assert!(entry.get_mut(7).is_none());
    entry.get_mut(4).unwrap().minutes = 41;
    assert_eq!(entry.friday, Some(day(41, "n")));
    assert_eq!(entry.thursday, Some(day(30, "n")));
}

#[test]
fn timecode_with_one_record_is_not_empty() {
    for weekday in 0..7u8 {
        let entry = booked("A", weekday, 0);
        assert!(!entry.is_empty());
        for other in 0..7u8 {
            assert_eq!(entry.get(other).is_some(), other == weekday);
        }
    }
}

#[test]
fn timecode_get_mut_of_empty_slot_is_absent() {
    let mut entry = booked("A", 2, 5);
    assert!(entry.get_mut(1).is_none());
    assert!(entry.get_mut(2).is_some());
    assert_eq!(entry, booked("A", 2, 5));
}

#[test]
fn name_lookup_and_empty_entries() {
    let list = names(&["A", "B"]);
    assert!(name_in(&list, &"A".to_string()));
    assert!(name_in(&list, &"B".to_string()));
    assert!(!name_in(&list, &"C".to_string()));
    assert!(!name_in(&names(&[]), &"A".to_string()));
    assert_eq!(entries_for(&list), vec![entry("A"), entry("B")]);
    assert!(entries_for(&names(&[])).is_empty());
}
