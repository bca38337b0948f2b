use timekeeper::app::App;
use timekeeper::config::{Config, Language};
use timekeeper::data::{Day, Timecode, TimekeeperData, Week, Year};
use timekeeper::screen::TimecodeLabel;

fn sheet(names: &[&str], starred: &[&str]) -> App {
    let entries = names
        .iter()
        .map(|name| {
            let mut entry = Timecode::from_string(name.to_string());
            entry.set_day(2, Day { minutes: 15, comment: "call".to_string() });
            entry
        })
        .collect();
    let mut store = TimekeeperData::new();
    store.0.insert(2024, Year([(10u8, Week(entries))].into_iter().collect()));
    let conf = Config {
        starred_timecodes: starred.iter().map(|name| name.to_string()).collect(),
        lang: Language::English,
    };
    App::new("t".to_string(), Some(store), conf, 2024, 10, 0)
}

fn row(index: usize, name: &str, starred: bool, active: bool) -> TimecodeLabel {
    TimecodeLabel { index, name: name.to_string(), starred, active }
}

#[test]
fn rows_are_the_timecodes_in_the_window() {
    let mut app = sheet(&["A", "B", "C", "D", "E", "F", "G"], &["C", "G"]);
    assert_eq!(
        app.visible_timecodes(),
        vec![
            row(0, "A", false, true),
            row(1, "B", false, false),
            row(2, "C", true, false),
            row(3, "D", false, false),
            row(4, "E", false, false),
        ]
    );
    assert!(app.more_below());
    for _ in 0..6 {
        app.next_timecode();
    }
    assert_eq!(
        app.visible_timecodes(),
        vec![
            row(2, "C", true, false),
            row(3, "D", false, false),
            row(4, "E", false, false),
            row(5, "F", false, false),
            row(6, "G", true, true),
        ]
    );
    assert!(!app.more_below());
}

#[test]
fn no_row_is_active_while_a_timecode_is_entered() {
    let mut app = sheet(&["A", "B"], &[]);
    app.toggle_adding_timecode();
    assert_eq!(app.visible_timecodes(), vec![row(0, "A", false, false), row(1, "B", false, false)]);
    app.cancel_adding_timecode();
    app.toggle_writing_comment();
    assert_eq!(app.visible_timecodes(), vec![row(0, "A", false, true), row(1, "B", false, false)]);
}

#[test]
fn a_full_window_keeps_its_last_row_for_the_name_that_is_typed() {
    let mut app = sheet(&["A", "B", "C", "D", "E", "F", "G"], &[]);
    app.next_timecode();
    app.toggle_adding_timecode();
    assert_eq!(app.timecode_range, [0, 5]);
    assert_eq!(
        app.visible_timecodes(),
        vec![
            row(1, "B", false, false),
            row(2, "C", false, false),
            row(3, "D", false, false),
            row(4, "E", false, false),
        ]
    );
    app.cancel_adding_timecode();
    assert_eq!(app.visible_timecodes().len(), 5);
    assert_eq!(app.visible_timecodes()[1], row(1, "B", false, true));
    let mut short = sheet(&["A", "B", "C", "D"], &[]);
    short.toggle_adding_timecode();
    assert_eq!(short.visible_timecodes().len(), 4);
    assert_eq!(short.visible_timecodes()[0], row(0, "A", false, false));
}

#[test]
fn rows_of_an_empty_week() {
    let app = sheet(&[], &[]);
    assert!(app.visible_timecodes().is_empty());
    assert!(!app.more_below());
}

#[test]
fn rows_of_a_window_beyond_the_list_are_cut() {
    let mut app = sheet(&["A", "B", "C"], &[]);
    app.timecode_range = [1, 9];
    assert_eq!(app.visible_timecodes(), vec![row(1, "B", false, false), row(2, "C", false, false)]);
    app.timecode_range = [7, 9];
    assert!(app.visible_timecodes().is_empty());
    app.timecode_range = [2, 1];
    assert!(app.visible_timecodes().is_empty());
    assert!(app.more_below());
}

#[test]
fn comment_under_the_cursor() {
    let mut app = sheet(&["A"], &[]);
    assert_eq!(app.active_comment(), "");
    app.active_day = 2;
    assert_eq!(app.active_comment(), "call");
    app.active_timecode = 3;
    assert_eq!(app.active_comment(), "");
}
