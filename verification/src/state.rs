//! The screen the application is on, the search errors, and the text and
//! tone that the status bar shows for each.
use vstd::prelude::*;
use vstd::string::*;

verus! {

/// Why a search produced no results.
#[derive(Debug, Clone, Copy, PartialEq, Eq, Structural)]
pub enum YoutubeSearchError {
    EmptySearch,
    NoResult,
}

/// The screen the application is on.
#[derive(Debug, Clone, Copy, PartialEq, Eq, Structural)]
pub enum AppState {
    Main,
    Error(YoutubeSearchError),
    Exiting,
    Searching,
    Loading,
}

/// The colours the status bar and the footer use.
#[derive(Debug, Clone, Copy, PartialEq, Eq, Structural)]
pub enum Tone {
    White,
    Yellow,
    Red,
    DarkGray,
}

pub open spec fn empty_search_message() -> Seq<char> {
    seq!['E', 'm', 'p', 't', 'y', ' ', 'S', 'e', 'a', 'r', 'c', 'h', '!']
}

pub open spec fn no_result_message() -> Seq<char> {
    seq!['N', 'o', ' ', 'R', 'e', 's', 'u', 'l', 't', 's', ' ', 'F', 'o', 'u', 'n', 'd', '!']
}

/// The message shown for a search error.
pub open spec fn error_message(e: YoutubeSearchError) -> Seq<char> {
    match e {
        YoutubeSearchError::EmptySearch => empty_search_message(),
        YoutubeSearchError::NoResult => no_result_message(),
    }
}

/// The text of the status bar on each screen.
pub open spec fn status_text(state: AppState) -> Seq<char> {
    match state {
        AppState::Main => seq!['N', 'o', 'r', 'm', 'a', 'l'],
        AppState::Searching => seq!['S', 'e', 'a', 'r', 'c', 'h', 'i', 'n', 'g'],
        AppState::Loading => seq!['L', 'o', 'a', 'd', 'i', 'n', 'g', '.', '.', '.'],
        AppState::Exiting => seq!['E', 'x', 'i', 't', 'i', 'n', 'g'],
        AppState::Error(e) => error_message(e),
    }
}

/// The colour of the status bar on each screen.
pub open spec fn status_tone(state: AppState) -> Tone {
    match state {
        AppState::Main => Tone::White,
        AppState::Searching => Tone::Yellow,
        AppState::Loading => Tone::White,
        AppState::Exiting => Tone::Red,
        AppState::Error(_) => Tone::Red,
    }
}

impl YoutubeSearchError {
    /// The message shown for this error.
    pub fn to_string(&self) -> (r: String)
        ensures
            r@ == error_message(*self),
    {
        match self {
            YoutubeSearchError::EmptySearch => {
                let r = String::from_str("Empty Search!");
                proof {
                    reveal_strlit("Empty Search!");
                }
                r
            },
            YoutubeSearchError::NoResult => {
                let r = String::from_str("No Results Found!");
                proof {
                    reveal_strlit("No Results Found!");
                }
                r
            },
        }
    }
}

impl AppState {
    /// The text and colour of the status bar on this screen.
    pub fn status_line(&self) -> (r: (String, Tone))
        ensures
            r.0@ == status_text(*self),
            r.1 == status_tone(*self),
    {
        match self {
            AppState::Main => {
                let t = String::from_str("Normal");
                proof {
                    reveal_strlit("Normal");
                }
                (t, Tone::White)
            },
            AppState::Searching => {
                let t = String::from_str("Searching");
                proof {
                    reveal_strlit("Searching");
                }
                (t, Tone::Yellow)
            },
            AppState::Loading => {
                let t = String::from_str("Loading...");
                proof {
                    reveal_strlit("Loading...");
                }
                (t, Tone::White)
            },
            AppState::Exiting => {
                let t = String::from_str("Exiting");
                proof {
                    reveal_strlit("Exiting");
                }
                (t, Tone::Red)
            },
            AppState::Error(e) => (e.to_string(), Tone::Red),
        }
    }

    /// Whether the exit confirmation is drawn over the screen.
    pub fn shows_exit_popup(&self) -> (r: bool)
        ensures
            r <==> *self == AppState::Exiting,
    {
        match self {
            AppState::Exiting => true,
            _ => false,
        }
    }
}

} // verus!
