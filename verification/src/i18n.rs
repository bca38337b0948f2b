//! The labels of the screen, in each language.
use crate::config::Language;
use vstd::prelude::*;

verus! {

/// The texts that `labels` holds.
pub open spec fn label_views(labels: Seq<&'static str>) -> Seq<Seq<char>> {
    labels.map_values(|label: &'static str| label@)
}

/// The weekday names, Monday first.
pub open spec fn day_labels_spec(lang: Language) -> Seq<Seq<char>> {
    match lang {
        Language::English => seq![
            "Monday"@,
            "Tuesday"@,
            "Wednesday"@,
            "Thursday"@,
            "Friday"@,
            "Saturday"@,
            "Sunday"@,
        ],
        Language::Norsk => seq![
            "Mandag"@,
            "Tirsdag"@,
            "Onsdag"@,
            "Torsdag"@,
            "Fredag"@,
            "Lørdag"@,
            "Søndag"@,
        ],
    }
}

/// The heading of the comment box.
pub open spec fn comment_label_spec(lang: Language) -> Seq<char> {
    match lang {
        Language::English => "Comment"@,
        Language::Norsk => "Kommentar"@,
    }
}

/// The word for a week.
pub open spec fn week_label_spec(lang: Language) -> Seq<char> {
    match lang {
        Language::English => "Week"@,
        Language::Norsk => "Uke"@,
    }
}

/// The keys of the help screen, which read the same in every language.
pub open spec fn key_labels_spec(lang: Language) -> Seq<Seq<char>> {
    seq![
        "?"@,
        "hjkl / ←↓↑→"@,
        "K / Shift + ↑"@,
        "J / Shift + ↓"@,
        "Enter"@,
        "N"@,
        "S"@,
        "U"@,
        "q / Esc"@,
        "Ctrl + C"@,
        "w"@,
    ]
}

/// What the keys of the help screen do, in the order of
/// [`key_labels_spec`].
pub open spec fn action_labels_spec(lang: Language) -> Seq<Seq<char>> {
    match lang {
        Language::English => seq![
            "Show this menu"@,
            "Movement"@,
            "Increment hours"@,
            "Decrement hours"@,
            "Write comment"@,
            "New timecode"@,
            "Star timecode"@,
            "Unstar timecode"@,
            "Quit (Saves on exit)"@,
            "Force quit"@,
            "Save"@,
        ],
        Language::Norsk => seq![
            "Vis denne menyen"@,
            "Bevegelse"@,
            "Inkrementer timer"@,
            "Dekrementer timer"@,
            "Skriv kommentar"@,
            "Ny timekode"@,
            "Legg til timekode som favoritt"@,
            "Fjern timekode som favoritt"@,
            "Avslutt (Lagrer ved avslutning)"@,
            "Tvangsavslutt"@,
            "Lagre"@,
        ],
    }
}

/// The hint that points to the help screen.
pub open spec fn info_screen_spec(lang: Language) -> Seq<char> {
    match lang {
        Language::English => "Press ? to show controls"@,
        Language::Norsk => "Trykk på ? for å vise kontrollene"@,
    }
}

/// Internationalisation and localisation.
pub struct I18n;

impl I18n {
    /// The weekday names, Monday first.
    pub fn day_labels(lang: &Language) -> (labels: Vec<&'static str>)
        ensures
            label_views(labels@) == day_labels_spec(*lang),
    {
        match lang {
            Language::English => vec![
                "Monday",
                "Tuesday",
                "Wednesday",
                "Thursday",
                "Friday",
                "Saturday",
                "Sunday",
            ],
            Language::Norsk => vec![
                "Mandag",
                "Tirsdag",
                "Onsdag",
                "Torsdag",
                "Fredag",
                "Lørdag",
                "Søndag",
            ],
        }
    }

    /// The heading of the comment box.
    pub fn comment_label(lang: &Language) -> (label: &'static str)
        ensures
            label@ == comment_label_spec(*lang),
    {
        match lang {
            Language::English => "Comment",
            Language::Norsk => "Kommentar",
        }
    }

    /// The word for a week.
    pub fn week_label(lang: &Language) -> (label: &'static str)
        ensures
            label@ == week_label_spec(*lang),
    {
        match lang {
            Language::English => "Week",
            Language::Norsk => "Uke",
        }
    }

    /// The keys of the help screen.
    pub fn key_labels(lang: &Language) -> (labels: Vec<&'static str>)
        ensures
            label_views(labels@) == key_labels_spec(*lang),
    {
        vec![
            "?",
            "hjkl / ←↓↑→",
            "K / Shift + ↑",
            "J / Shift + ↓",
            "Enter",
            "N",
            "S",
            "U",
            "q / Esc",
            "Ctrl + C",
            "w",
        ]
    }

    /// What the keys of the help screen do, in the order of
    /// [`I18n::key_labels`].
    pub fn action_labels(lang: &Language) -> (labels: Vec<&'static str>)
        ensures
            label_views(labels@) == action_labels_spec(*lang),
    {
        match lang {
            Language::English => vec![
                "Show this menu",
                "Movement",
                "Increment hours",
                "Decrement hours",
                "Write comment",
                "New timecode",
                "Star timecode",
                "Unstar timecode",
                "Quit (Saves on exit)",
                "Force quit",
                "Save",
            ],
            Language::Norsk => vec![
                "Vis denne menyen",
                "Bevegelse",
                "Inkrementer timer",
                "Dekrementer timer",
                "Skriv kommentar",
                "Ny timekode",
                "Legg til timekode som favoritt",
                "Fjern timekode som favoritt",
                "Avslutt (Lagrer ved avslutning)",
                "Tvangsavslutt",
                "Lagre",
            ],
        }
    }

    /// The hint that points to the help screen.
    pub fn info_screen(lang: &Language) -> (label: &'static str)
        ensures
            label@ == info_screen_spec(*lang),
    {
        match lang {
            Language::English => "Press ? to show controls",
            Language::Norsk => "Trykk på ? for å vise kontrollene",
        }
    }
}

} // verus!
