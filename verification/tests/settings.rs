use timekeeper::config::{Config, Language};

fn starred(names: &[&str]) -> Config {
    Config {
        starred_timecodes: names.iter().map(|name| name.to_string()).collect(),
        lang: Language::Norsk,
    }
}

#[test]
fn stored_configuration_is_taken_as_found() {
    let (conf, write) = Config::new(Some(starred(&["A", "B"])));
    assert_eq!(conf, starred(&["A", "B"]));
    assert!(!write);
}

#[test]
fn missing_configuration_starts_with_the_defaults() {
    let (conf, write) = Config::new(None);
    assert!(conf.starred_timecodes.is_empty());
    assert_eq!(conf.lang, Language::English);
    assert!(write);
}

#[test]
fn starring_appends_once() {
    let mut conf = starred(&["A"]);
    assert!(conf.add_timecode("B".to_string()));
    assert_eq!(conf, starred(&["A", "B"]));
    assert!(!conf.add_timecode("A".to_string()));
    assert!(!conf.add_timecode("B".to_string()));
    assert_eq!(conf, starred(&["A", "B"]));
    let mut none = starred(&[]);
    assert!(none.add_timecode(String::new()));
    assert_eq!(none, starred(&[""]));
}

#[test]
fn unstarring_removes_the_name() {
    let mut conf = starred(&["A", "B", "C"]);
    assert!(conf.remove_timecode(&"B".to_string()));
    assert_eq!(conf, starred(&["A", "C"]));
    assert!(conf.remove_timecode(&"A".to_string()));
    assert!(conf.remove_timecode(&"C".to_string()));
    assert_eq!(conf, starred(&[]));
}

#[test]
fn unstarring_asks_for_a_store_also_where_no_star_was() {
    let mut conf = starred(&["A", "C"]);
    assert!(conf.remove_timecode(&"B".to_string()));
    assert_eq!(conf, starred(&["A", "C"]));
    let mut none = starred(&[]);
    assert!(none.remove_timecode(&"C".to_string()));
    assert_eq!(none, starred(&[]));
}

#[test]
fn unstarring_removes_every_copy_of_a_name() {
    let mut conf = starred(&["A", "B", "A"]);
    assert!(conf.remove_timecode(&"A".to_string()));
    assert_eq!(conf, starred(&["B"]));
}

#[test]
fn starring_leaves_the_language() {
    let mut conf = starred(&[]);
    conf.add_timecode("A".to_string());
    conf.remove_timecode(&"A".to_string());
    assert_eq!(conf.lang, Language::Norsk);
}
