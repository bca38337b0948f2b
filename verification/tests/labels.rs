use timekeeper::config::Language;
use timekeeper::i18n::I18n;

#[test]
fn day_labels_in_both_languages() {
    assert_eq!(
        I18n::day_labels(&Language::English),
        vec!["Monday", "Tuesday", "Wednesday", "Thursday", "Friday", "Saturday", "Sunday"]
    );
    assert_eq!(
        I18n::day_labels(&Language::Norsk),
        vec!["Mandag", "Tirsdag", "Onsdag", "Torsdag", "Fredag", "Lørdag", "Søndag"]
    );
}

#[test]
fn single_labels_in_both_languages() {
    assert_eq!(I18n::comment_label(&Language::English), "Comment");
    assert_eq!(I18n::comment_label(&Language::Norsk), "Kommentar");
    assert_eq!(I18n::week_label(&Language::English), "Week");
    assert_eq!(I18n::week_label(&Language::Norsk), "Uke");
    assert_eq!(I18n::info_screen(&Language::English), "Press ? to show controls");
    assert_eq!(I18n::info_screen(&Language::Norsk), "Trykk på ? for å vise kontrollene");
}

#[test]
fn key_labels_read_the_same_in_every_language() {
    let keys = vec![
        "?",
        "hjkl / ←↓↑→",
        "K / Shift + ↑",
        "J / Shift + ↓",
        "Enter",
        "N",
        "S",
        "U",
        "q / Esc",
        "Ctrl + C",
        "w",
    ];
    assert_eq!(I18n::key_labels(&Language::English), keys);
    assert_eq!(I18n::key_labels(&Language::Norsk), keys);
}

#[test]
fn action_labels_in_both_languages() {
    assert_eq!(
        I18n::action_labels(&Language::English),
        vec![
            "Show this menu",
            "Movement",
            "Increment hours",
            "Decrement hours",
            "Write comment",
            "New timecode",
            "Star timecode",
            "Unstar timecode",
            "Quit (Saves on exit)",
            "Force quit",
            "Save",
        ]
    );
    assert_eq!(
        I18n::action_labels(&Language::Norsk),
        vec![
            "Vis denne menyen",
            "Bevegelse",
            "Inkrementer timer",
            "Dekrementer timer",
            "Skriv kommentar",
            "Ny timekode",
            "Legg til timekode som favoritt",
            "Fjern timekode som favoritt",
            "Avslutt (Lagrer ved avslutning)",
            "Tvangsavslutt",
            "Lagre",
        ]
    );
}

#[test]
fn every_key_has_an_action() {
    for lang in [Language::English, Language::Norsk] {
        assert_eq!(I18n::key_labels(&lang).len(), I18n::action_labels(&lang).len());
        assert_eq!(I18n::day_labels(&lang).len(), 7);
    }
}
