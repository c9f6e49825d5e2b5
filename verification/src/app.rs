//! The application's state and every decision it takes: on a key, along a
//! search, and around launching a video. The terminal, the network and the
//! player process are driven from outside; they report back here.
use vstd::prelude::*;
use vstd::string::*;
use ratatui_image::protocol::Protocol;
use crate::player::{
    BuildTarget, Config, VideoPlayer, find_player, is_debug, player_for_config,
    player_for_lowered, player_from_config,
};
use crate::text::{ascii_lowercase, ascii_text};
use crate::results::{
    SearchItem, SearchResponse, VideoEntry, YoutubeResult, debug_results, results_debug,
    select_videos, video_items,
};
use crate::selection::{ListSelection, next_row, previous_row};
use crate::state::{AppState, Tone, YoutubeSearchError};

verus! {

/// A key press, as far as the application tells keys apart.
#[derive(Debug, Clone, Copy, PartialEq, Eq, Structural)]
pub enum Key {
    Char(char),
    Esc,
    Enter,
    Up,
    Down,
    Other,
}

/// What has to happen outside after a key was handled.
#[derive(Debug, Clone, Copy, PartialEq, Eq, Structural)]
pub enum KeyAction {
    /// Nothing beyond the change of state.
    Nothing,
    /// Leave the application.
    Quit,
    /// Run a search for the text in the search box.
    ExecuteSearch,
    /// Launch the highlighted video.
    LaunchVideo,
    /// Hand the key to the search box, which edits its text.
    EditSearchInput,
}

/// How a key moves the highlighted row.
#[derive(Debug, Clone, Copy, PartialEq, Eq, Structural)]
pub enum RowMove {
    Stay,
    Next,
    Previous,
}

/// The program and arguments that play a video.
pub struct LaunchCommand {
    pub program: String,
    pub args: Vec<String>,
}

/// The whole state of the application.
pub struct App {
    /// Whether the footer shows `debug_text` in place of the key help.
    pub show_debug: bool,
    pub debug_text: String,
    pub state: AppState,
    /// The text typed into the search box.
    pub user_search_input: String,
    pub search_state: ListSelection,
    pub search_results: Vec<YoutubeResult>,
    pub player: VideoPlayer,
}

/// What a key does on a screen: the next screen, what must happen outside,
/// and how the highlighted row moves.
pub open spec fn on_key(state: AppState, key: Key) -> (AppState, KeyAction, RowMove) {
    match state {
        AppState::Main => match key {
            Key::Char('i') => (AppState::Searching, KeyAction::Nothing, RowMove::Stay),
            Key::Char('q') => (AppState::Exiting, KeyAction::Nothing, RowMove::Stay),
            Key::Char('j') | Key::Down => (AppState::Main, KeyAction::Nothing, RowMove::Next),
            Key::Char('k') | Key::Up => (AppState::Main, KeyAction::Nothing, RowMove::Previous),
            Key::Enter => (AppState::Main, KeyAction::LaunchVideo, RowMove::Stay),
            _ => (AppState::Main, KeyAction::Nothing, RowMove::Stay),
        },
        AppState::Exiting => match key {
            Key::Char('n') | Key::Esc => (AppState::Main, KeyAction::Nothing, RowMove::Stay),
            Key::Char('y') | Key::Char('q') => (AppState::Exiting, KeyAction::Quit, RowMove::Stay),
            _ => (AppState::Exiting, KeyAction::Nothing, RowMove::Stay),
        },
        AppState::Searching => match key {
            Key::Esc => (AppState::Main, KeyAction::Nothing, RowMove::Stay),
            Key::Char('q') => (AppState::Exiting, KeyAction::Nothing, RowMove::Stay),
            Key::Enter => (AppState::Searching, KeyAction::ExecuteSearch, RowMove::Stay),
            _ => (AppState::Searching, KeyAction::EditSearchInput, RowMove::Stay),
        },
        AppState::Loading => match key {
            Key::Esc | Key::Char('q') => (AppState::Main, KeyAction::Nothing, RowMove::Stay),
            _ => (AppState::Loading, KeyAction::Nothing, RowMove::Stay),
        },
        AppState::Error(e) => (AppState::Error(e), KeyAction::Nothing, RowMove::Stay),
    }
}

/// The highlighted row after a move.
pub open spec fn moved_row(sel: Option<usize>, m: RowMove) -> Option<usize> {
    match m {
        RowMove::Stay => sel,
        RowMove::Next => next_row(sel),
        RowMove::Previous => previous_row(sel),
    }
}

pub open spec fn youtube_base_url() -> Seq<char> {
    "https://www.youtube.com/watch?v="@
}

/// The watch URL of a video id.
pub open spec fn watch_url(id: Seq<char>) -> Seq<char> {
    youtube_base_url() + id
}

/// The program that plays a URL with a player, and its arguments.
pub open spec fn launch_program(p: VideoPlayer) -> Seq<char> {
    match p {
        VideoPlayer::Mpv => "mpv"@,
        VideoPlayer::Iina => "open"@,
    }
}

pub open spec fn launch_args(p: VideoPlayer, url: Seq<char>) -> Seq<Seq<char>> {
    match p {
        VideoPlayer::Mpv => seq![url],
        VideoPlayer::Iina => seq!["-a"@, "IINA"@, url],
    }
}

/// The views of a list of strings.
pub open spec fn string_views(v: Seq<String>) -> Seq<Seq<char>> {
    v.map_values(|s: String| s@)
}

/// The stored results pair the videos with their thumbnails, position by
/// position, as far as both lists reach.
pub open spec fn results_pair(
    rs: Seq<YoutubeResult>,
    videos: Seq<VideoEntry>,
    thumbnails: Seq<Option<Protocol>>,
) -> bool {
    &&& rs.len() == if videos.len() <= thumbnails.len() {
        videos.len()
    } else {
        thumbnails.len()
    }
    &&& forall|k: int|
        0 <= k < rs.len() ==> {
            &&& #[trigger] rs[k].video_title == videos[k].name
            &&& rs[k].url == videos[k].id
            &&& rs[k].thumbnail == thumbnails[k]
        }
}

pub open spec fn help_text() -> Seq<char> {
    "[i -> Search for video] [j/k -> Navigate results] [enter -> Select video] [q -> quit] "@
}

/// The selected row, when there is one, is a row of the results.
pub open spec fn selection_in_results(app: &App) -> bool {
    app.search_state.selected matches Some(i) ==> i < app.search_results@.len()
}

/// The error screen ignores every key: the screen stays, nothing happens
/// outside and the highlight does not move.
pub proof fn error_screen_ignores_keys(e: YoutubeSearchError, key: Key)
    ensures
        on_key(AppState::Error(e), key) == (AppState::Error(e), KeyAction::Nothing, RowMove::Stay),
{
}

/// Only the exit confirmation leaves the application.
pub proof fn only_exit_screen_quits(state: AppState, key: Key)
    ensures
        on_key(state, key).1 == KeyAction::Quit ==> state == AppState::Exiting,
{
}

/// Keys never lead to the loading screen or to an error screen: those are
/// reached only by launching a video or searching.
pub proof fn keys_never_enter_loading_or_error(state: AppState, key: Key)
    ensures
        on_key(state, key).0 == AppState::Loading ==> state == AppState::Loading,
        on_key(state, key).0 is Error ==> state == on_key(state, key).0,
{
}

/// On the searching screen every key other than Escape, `q` and Enter is
/// handed to the search box (characters, Backspace, arrows and the rest),
/// and the searching screen stays.
pub proof fn searching_screen_hands_other_keys_to_the_box(key: Key)
    requires
        key != Key::Esc,
        key != Key::Char('q'),
        key != Key::Enter,
    ensures
        on_key(AppState::Searching, key) == (
            AppState::Searching,
            KeyAction::EditSearchInput,
            RowMove::Stay,
        ),
{
}

/// On the searching screen Escape goes back to the main screen, `q` asks
/// to exit, and Enter runs the search; the highlight never moves there.
pub proof fn searching_screen_special_keys()
    ensures
        on_key(AppState::Searching, Key::Esc) == (AppState::Main, KeyAction::Nothing, RowMove::Stay),
        on_key(AppState::Searching, Key::Char('q')) == (
            AppState::Exiting,
            KeyAction::Nothing,
            RowMove::Stay,
        ),
        on_key(AppState::Searching, Key::Enter) == (
            AppState::Searching,
            KeyAction::ExecuteSearch,
            RowMove::Stay,
        ),
{
}

/// On the main screen `j` and Down move the highlight one row down, `k` and
/// Up one row up, `i` opens the search box, `q` asks to exit, Enter launches
/// the highlighted video, and any other key does nothing.
pub proof fn main_screen_keys(key: Key)
    ensures
        (key == Key::Char('j') || key == Key::Down) ==> on_key(AppState::Main, key) == (
            AppState::Main,
            KeyAction::Nothing,
            RowMove::Next,
        ),
        (key == Key::Char('k') || key == Key::Up) ==> on_key(AppState::Main, key) == (
            AppState::Main,
            KeyAction::Nothing,
            RowMove::Previous,
        ),
        key == Key::Char('i') ==> on_key(AppState::Main, key) == (
            AppState::Searching,
            KeyAction::Nothing,
            RowMove::Stay,
        ),
        key == Key::Char('q') ==> on_key(AppState::Main, key) == (
            AppState::Exiting,
            KeyAction::Nothing,
            RowMove::Stay,
        ),
        key == Key::Enter ==> on_key(AppState::Main, key) == (
            AppState::Main,
            KeyAction::LaunchVideo,
            RowMove::Stay,
        ),
        !(key == Key::Char('j') || key == Key::Down || key == Key::Char('k') || key == Key::Up
            || key == Key::Char('i') || key == Key::Char('q') || key == Key::Enter) ==> on_key(
            AppState::Main,
            key,
        ) == (AppState::Main, KeyAction::Nothing, RowMove::Stay),
{
}

/// On the exit confirmation `y` and `q` quit, `n` and Escape go back to the
/// main screen, and any other key keeps the confirmation.
pub proof fn exit_screen_keys(key: Key)
    ensures
        (key == Key::Char('y') || key == Key::Char('q')) ==> on_key(AppState::Exiting, key) == (
            AppState::Exiting,
            KeyAction::Quit,
            RowMove::Stay,
        ),
        (key == Key::Char('n') || key == Key::Esc) ==> on_key(AppState::Exiting, key) == (
            AppState::Main,
            KeyAction::Nothing,
            RowMove::Stay,
        ),
        !(key == Key::Char('y') || key == Key::Char('q') || key == Key::Char('n') || key
            == Key::Esc) ==> on_key(AppState::Exiting, key) == (
            AppState::Exiting,
            KeyAction::Nothing,
            RowMove::Stay,
        ),
{
}

/// The highlight moves by exactly one row: a row move applied to a row
/// away from the ends lands on the neighbouring row.
pub proof fn row_moves_are_single_steps(i: usize)
    ensures
        i < usize::MAX ==> moved_row(Some(i), RowMove::Next) == Some((i + 1) as usize),
        i > 0 ==> moved_row(Some(i), RowMove::Previous) == Some((i - 1) as usize),
        moved_row(Some(i), RowMove::Stay) == Some(i),
{
}

/// Only the main screen moves the highlighted row.
pub proof fn only_main_screen_moves_rows(state: AppState, key: Key)
    ensures
        on_key(state, key).2 != RowMove::Stay ==> state == AppState::Main,
{
}

/// Escape leaves the searching, loading and exit screens for the main one.
pub proof fn escape_returns_to_main(state: AppState)
    requires
        state == AppState::Searching || state == AppState::Loading || state == AppState::Exiting,
    ensures
        on_key(state, Key::Esc) == (AppState::Main, KeyAction::Nothing, RowMove::Stay),
{
}

/// A search runs only from the searching screen, and a video is launched
/// only from the main screen.
pub proof fn searches_and_launches_come_from_their_screens(state: AppState, key: Key)
    ensures
        on_key(state, key).1 == KeyAction::ExecuteSearch ==> state == AppState::Searching && key
            == Key::Enter,
        on_key(state, key).1 == KeyAction::LaunchVideo ==> state == AppState::Main && key
            == Key::Enter,
        on_key(state, key).1 == KeyAction::EditSearchInput ==> state == AppState::Searching,
{
}

/// A search that reaches its end stores exactly the videos of the answer,
/// in the answer's order, when every video has its thumbnail slot.
pub proof fn stored_results_follow_answer(
    items: Seq<SearchItem>,
    videos: Seq<VideoEntry>,
    thumbnails: Seq<Option<Protocol>>,
    rs: Seq<YoutubeResult>,
)
    requires
        videos == video_items(items),
        thumbnails.len() == videos.len(),
        results_pair(rs, videos, thumbnails),
    ensures
        rs.len() == video_items(items).len(),
        forall|k: int|
            0 <= k < rs.len() ==> #[trigger] rs[k].video_title == video_items(items)[k].name
                && rs[k].url == video_items(items)[k].id,
{
}

impl App {
    /// A fresh application: the player from the configuration, the debug
    /// footer in debug builds, the main screen, no search text and no results.
    pub fn with_config(config: Config, build: BuildTarget) -> (app: App)
        ensures
            app.player == player_for_config(config.player@, build),
            ascii_text(config.player@) ==> app.player == player_for_lowered(
                ascii_lowercase(config.player@),
                build,
            ),
            app.show_debug == build.debug_assertions,
            app.debug_text@ == Seq::<char>::empty(),
            app.state == AppState::Main,
            app.user_search_input@ == Seq::<char>::empty(),
            app.search_state.selected is None,
            app.search_results@.len() == 0,
    {
        let player = player_from_config(config.player.as_str(), &build);
        let show_debug = is_debug(&build);
        App {
            show_debug,
            debug_text: String::new(),
            state: AppState::Main,
            user_search_input: String::new(),
            search_state: ListSelection::new(),
            search_results: Vec::new(),
            player,
        }
    }

    /// Drops all results and the highlight.
    pub fn clear_search_results(&mut self)
        ensures
            final(self).search_results@.len() == 0,
            final(self).search_state.selected is None,
            final(self).state == old(self).state,
            final(self).debug_text == old(self).debug_text,
            final(self).user_search_input == old(self).user_search_input,
            final(self).show_debug == old(self).show_debug,
            final(self).player == old(self).player,
    {
        self.search_results = Vec::new();
        self.search_state = ListSelection::new();
    }

    /// Handles a key: a released key does nothing; a pressed one changes the
    /// screen and the highlight as `on_key` says and reports what must happen
    /// outside. Nothing else of the state changes.
    pub fn handle_key(&mut self, key: Key, released: bool) -> (action: KeyAction)
        ensures
            released ==> action == KeyAction::Nothing && final(self).state == old(self).state
                && final(self).search_state == old(self).search_state,
            !released ==> action == on_key(old(self).state, key).1 && final(self).state == on_key(
                old(self).state,
                key,
            ).0 && final(self).search_state.selected == moved_row(
                old(self).search_state.selected,
                on_key(old(self).state, key).2,
            ),
            final(self).search_results == old(self).search_results,
            final(self).debug_text == old(self).debug_text,
            final(self).user_search_input == old(self).user_search_input,
            final(self).show_debug == old(self).show_debug,
            final(self).player == old(self).player,
    {
        if released {
            return KeyAction::Nothing;
        }
        match self.state {
            AppState::Main => match key {
                Key::Char('i') => {
                    self.state = AppState::Searching;
                    KeyAction::Nothing
                },
                Key::Char('q') => {
                    self.state = AppState::Exiting;
                    KeyAction::Nothing
                },
                Key::Char('j') | Key::Down => {
                    self.search_state.select_next();
                    KeyAction::Nothing
                },
                Key::Char('k') | Key::Up => {
                    self.search_state.select_previous();
                    KeyAction::Nothing
                },
                Key::Enter => KeyAction::LaunchVideo,
                _ => KeyAction::Nothing,
            },
            AppState::Exiting => match key {
                Key::Char('n') | Key::Esc => {
                    self.state = AppState::Main;
                    KeyAction::Nothing
                },
                Key::Char('y') | Key::Char('q') => KeyAction::Quit,
                _ => KeyAction::Nothing,
            },
            AppState::Searching => match key {
                Key::Esc => {
                    self.state = AppState::Main;
                    KeyAction::Nothing
                },
                Key::Char('q') => {
                    self.state = AppState::Exiting;
                    KeyAction::Nothing
                },
                Key::Enter => KeyAction::ExecuteSearch,
                _ => KeyAction::EditSearchInput,
            },
            AppState::Loading => match key {
                Key::Esc | Key::Char('q') => {
                    self.state = AppState::Main;
                    KeyAction::Nothing
                },
                _ => KeyAction::Nothing,
            },
            AppState::Error(err) => {
                self.state = AppState::Error(err);
                KeyAction::Nothing
            },
        }
    }
}


impl App {
    /// The start of every search: the old results and highlight are dropped
    /// and the searching screen is shown.
    pub fn begin_search(&mut self)
        ensures
            final(self).search_results@.len() == 0,
            final(self).search_state.selected is None,
            final(self).state == AppState::Searching,
            final(self).debug_text == old(self).debug_text,
            final(self).user_search_input == old(self).user_search_input,
            final(self).show_debug == old(self).show_debug,
            final(self).player == old(self).player,
    {
        self.clear_search_results();
        self.state = AppState::Searching;
    }

    /// The query that a search sends: the search text; an empty text is
    /// refused with `EmptySearch`. Nothing of the state changes.
    pub fn search_query(&self) -> (r: Result<String, YoutubeSearchError>)
        ensures
            self.user_search_input@.len() == 0 ==> r == Err::<String, YoutubeSearchError>(
                YoutubeSearchError::EmptySearch,
            ),
            self.user_search_input@.len() != 0 ==> (r matches Ok(q) && q@
                == self.user_search_input@),
    {
        if self.user_search_input.as_str().is_empty() {
            return Err(YoutubeSearchError::EmptySearch);
        }
        Ok(self.user_search_input.clone())
    }

    /// What the answer of the search service leads to: a failed query, or an
    /// answer without any item, is `NoResult` (the latter also shows the
    /// answer in the debug footer); otherwise the videos among the items,
    /// in their order, whose thumbnails are to be fetched next.
    pub fn receive_search_response(&mut self, response: SearchResponse) -> (r: Result<
        Vec<VideoEntry>,
        YoutubeSearchError,
    >)
        ensures
            response is Failed ==> r == Err::<Vec<VideoEntry>, YoutubeSearchError>(
                YoutubeSearchError::NoResult,
            ) && final(self).debug_text == old(self).debug_text,
            response matches SearchResponse::Items { items, listing } ==> {
                if items@.len() == 0 {
                    &&& r == Err::<Vec<VideoEntry>, YoutubeSearchError>(
                        YoutubeSearchError::NoResult,
                    )
                    &&& final(self).debug_text@ == "No results found "@ + listing@
                } else {
                    &&& r matches Ok(videos) && videos@ == video_items(items@)
                    &&& final(self).debug_text == old(self).debug_text
                }
            },
            final(self).state == old(self).state,
            final(self).search_results == old(self).search_results,
            final(self).search_state == old(self).search_state,
            final(self).user_search_input == old(self).user_search_input,
            final(self).show_debug == old(self).show_debug,
            final(self).player == old(self).player,
    {
        match response {
            SearchResponse::Failed => Err(YoutubeSearchError::NoResult),
            SearchResponse::Items { items, listing } => {
                if items.len() == 0 {
                    let mut text = String::from_str("No results found ");
                    text.append(listing.as_str());
                    self.debug_text = text;
                    return Err(YoutubeSearchError::NoResult);
                }
                Ok(select_videos(items))
            },
        }
    }

    /// The end of a successful search: each video is stored with its
    /// thumbnail, position by position; the debug footer lists the results
    /// and the first row is highlighted.
    pub fn store_search_results(&mut self, videos: Vec<VideoEntry>, thumbnails: Vec<Option<Protocol>>)
        ensures
            results_pair(final(self).search_results@, videos@, thumbnails@),
            final(self).debug_text@ == "Results Found! "@ + results_debug(
                final(self).search_results@,
            ),
            final(self).search_state.selected == Some(0usize),
            final(self).state == old(self).state,
            final(self).user_search_input == old(self).user_search_input,
            final(self).show_debug == old(self).show_debug,
            final(self).player == old(self).player,
    {
        let ghost all_videos = videos@;
        let ghost all_thumbnails = thumbnails@;
        let mut videos = videos;
        let mut thumbnails = thumbnails;
        let mut results: Vec<YoutubeResult> = Vec::new();
        while videos.len() > 0 && thumbnails.len() > 0
            invariant
                results@.len() <= all_videos.len(),
                results@.len() <= all_thumbnails.len(),
                videos@ == all_videos.skip(results@.len() as int),
                thumbnails@ == all_thumbnails.skip(results@.len() as int),
                forall|k: int|
                    0 <= k < results@.len() ==> {
                        &&& #[trigger] results@[k].video_title == all_videos[k].name
                        &&& results@[k].url == all_videos[k].id
                        &&& results@[k].thumbnail == all_thumbnails[k]
                    },
            decreases videos.len(),
        {
            let ghost n = results@.len() as int;
            let video = videos.remove(0);
            let thumbnail = thumbnails.remove(0);
            assert(videos@ =~= all_videos.skip(n + 1));
            assert(thumbnails@ =~= all_thumbnails.skip(n + 1));
            results.push(YoutubeResult { video_title: video.name, url: video.id, thumbnail });
        }
        assert(videos@.len() == all_videos.len() - results@.len());
        assert(thumbnails@.len() == all_thumbnails.len() - results@.len());
        assert(results_pair(results@, all_videos, all_thumbnails));
        let listing = debug_results(&results);
        let mut text = String::from_str("Results Found! ");
        text.append(listing.as_str());
        self.search_results = results;
        self.debug_text = text;
        self.search_state.select_first();
    }

    /// The end of every search, successful or not: the main screen is shown
    /// again. (An error is set as the screen and then at once replaced.)
    pub fn finish_search(&mut self, outcome: Result<(), YoutubeSearchError>)
        ensures
            final(self).state == AppState::Main,
            final(self).search_results == old(self).search_results,
            final(self).search_state == old(self).search_state,
            final(self).debug_text == old(self).debug_text,
            final(self).user_search_input == old(self).user_search_input,
            final(self).show_debug == old(self).show_debug,
            final(self).player == old(self).player,
    {
        if let Err(err) = outcome {
            self.state = AppState::Error(err);
        }
        self.state = AppState::Main;
    }

    /// The start of launching the highlighted video: the loading screen is
    /// shown. Without a highlighted row the main screen comes back and
    /// nothing is launched; otherwise the command that plays the video's
    /// watch URL with the configured player is returned.
    pub fn start_launch(&mut self) -> (r: Option<LaunchCommand>)
        requires
            selection_in_results(old(self)),
        ensures
            old(self).search_state.selected is None ==> {
                &&& r is None
                &&& final(self).state == AppState::Main
                &&& final(self).debug_text@ == "Haven't selected a video"@
            },
            old(self).search_state.selected matches Some(i) ==> {
                &&& r matches Some(c) && c.program@ == launch_program(old(self).player)
                    && string_views(c.args@) == launch_args(
                    old(self).player,
                    watch_url(old(self).search_results@[i as int].url@),
                )
                &&& final(self).state == AppState::Loading
                &&& final(self).debug_text@ == "Launching video"@
            },
            final(self).search_results == old(self).search_results,
            final(self).search_state == old(self).search_state,
            final(self).user_search_input == old(self).user_search_input,
            final(self).show_debug == old(self).show_debug,
            final(self).player == old(self).player,
    {
        self.state = AppState::Loading;
        self.debug_text = String::from_str("Searching for video");
        let idx = match self.search_state.selected() {
            None => {
                self.debug_text = String::from_str("Haven't selected a video");
                self.state = AppState::Main;
                return None;
            },
            Some(i) => i,
        };
        let mut url = String::from_str("https://www.youtube.com/watch?v=");
        url.append(self.search_results[idx].url.as_str());
        self.debug_text = String::from_str("Launching video");
        let command = match self.player {
            VideoPlayer::Mpv => {
                let mut args: Vec<String> = Vec::new();
                args.push(url);
                LaunchCommand { program: String::from_str("mpv"), args }
            },
            VideoPlayer::Iina => {
                let mut args: Vec<String> = Vec::new();
                args.push(String::from_str("-a"));
                args.push(String::from_str("IINA"));
                args.push(url);
                LaunchCommand { program: String::from_str("open"), args }
            },
        };
        proof {
            assert(string_views(command.args@) =~= launch_args(
                self.player,
                watch_url(self.search_results@[idx as int].url@),
            ));
        }
        Some(command)
    }

    /// The end of launching: when the player ran, the main screen comes back
    /// with an empty debug footer; when it could not be started, the footer
    /// shows why and the loading screen stays.
    pub fn finish_launch(&mut self, outcome: Result<(), String>)
        ensures
            outcome is Ok ==> final(self).state == AppState::Main && final(self).debug_text@
                == Seq::<char>::empty(),
            outcome matches Err(msg) ==> final(self).state == old(self).state
                && final(self).debug_text@ == "SOMETHING WENT WRONG WITH MPV "@ + msg@,
            final(self).search_results == old(self).search_results,
            final(self).search_state == old(self).search_state,
            final(self).user_search_input == old(self).user_search_input,
            final(self).show_debug == old(self).show_debug,
            final(self).player == old(self).player,
    {
        match outcome {
            Ok(()) => {
                self.debug_text = String::new();
                self.state = AppState::Main;
            },
            Err(msg) => {
                let mut text = String::from_str("SOMETHING WENT WRONG WITH MPV ");
                text.append(msg.as_str());
                self.debug_text = text;
            },
        }
    }

    /// The titles of the results, in their order, as the result list shows them.
    pub fn result_titles(&self) -> (r: Vec<String>)
        ensures
            r@.len() == self.search_results@.len(),
            forall|k: int|
                0 <= k < r@.len() ==> #[trigger] r@[k]@ == self.search_results@[k].video_title@,
    {
        let mut titles: Vec<String> = Vec::new();
        let mut i: usize = 0;
        while i < self.search_results.len()
            invariant
                i <= self.search_results@.len(),
                titles@.len() == i,
                forall|k: int|
                    0 <= k < i ==> #[trigger] titles@[k]@ == self.search_results@[k].video_title@,
            decreases self.search_results@.len() - i,
        {
            titles.push(self.search_results[i].video_title.clone());
            i = i + 1;
        }
        titles
    }

    /// The footer text and colour: the debug text in white when debugging is
    /// on, the key help in dark gray otherwise.
    pub fn footer(&self) -> (r: (String, Tone))
        ensures
            self.show_debug ==> r.0@ == self.debug_text@ && r.1 == Tone::White,
            !self.show_debug ==> r.0@ == help_text() && r.1 == Tone::DarkGray,
    {
        if self.show_debug {
            (self.debug_text.clone(), Tone::White)
        } else {
            (
                String::from_str(
                    "[i -> Search for video] [j/k -> Navigate results] [enter -> Select video] [q -> quit] ",
                ),
                Tone::DarkGray,
            )
        }
    }

    /// Where the terminal cursor blinks: in the search box, one cell after
    /// the visual cursor of the typed text, on the searching screen only.
    pub fn search_cursor(&self, area_x: u16, area_y: u16, visual_cursor: usize) -> (r: Option<
        (u16, u16),
    >)
        requires
            self.state == AppState::Searching ==> visual_cursor < usize::MAX && area_x + ((
            visual_cursor + 1) as u16) <= u16::MAX && area_y < u16::MAX,
        ensures
            self.state != AppState::Searching ==> r is None,
            self.state == AppState::Searching ==> r == Some(
                ((area_x + ((visual_cursor + 1) as u16)) as u16, (area_y + 1) as u16),
            ),
    {
        match self.state {
            AppState::Searching => {
                let x = visual_cursor + 1;
                Some((area_x + x as u16, area_y + 1))
            },
            _ => None,
        }
    }

    /// The cursor position as a build without overflow checks computes it:
    /// like `search_cursor`, with every addition wrapping around.
    pub fn search_cursor_wrapping(&self, area_x: u16, area_y: u16, visual_cursor: usize) -> (r: Option<
        (u16, u16),
    >)
        ensures
            self.state != AppState::Searching ==> r is None,
            self.state == AppState::Searching ==> r == Some(
                (
                    area_x.wrapping_add(visual_cursor.wrapping_add(1) as u16),
                    area_y.wrapping_add(1),
                ),
            ),
    {
        match self.state {
            AppState::Searching => {
                let x = visual_cursor.wrapping_add(1);
                Some((area_x.wrapping_add(x as u16), area_y.wrapping_add(1)))
            },
            _ => None,
        }
    }
}

} // verus!
