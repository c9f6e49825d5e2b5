use youtuber::app::{App, Key, KeyAction};
use youtuber::player::{BuildTarget, Config, VideoPlayer};
use youtuber::results::{SearchItem, SearchResponse, ThumbnailInfo, VideoEntry, YoutubeResult, debug_results};
use youtuber::state::{AppState, Tone, YoutubeSearchError};

fn build() -> BuildTarget {
    BuildTarget { debug_assertions: false, macos: false }
}

fn fresh(player: &str) -> App {
    App::with_config(Config { player: player.to_string() }, build())
}

fn video(name: &str, id: &str) -> VideoEntry {
    VideoEntry { name: name.to_string(), id: id.to_string(), thumbnails: Vec::new() }
}

fn press(app: &mut App, key: Key) -> KeyAction {
    app.handle_key(key, false)
}

#[test]
fn new_app_state() {
    let app = fresh("IINA");
    assert_eq!(app.player, VideoPlayer::Iina);
    assert!(!app.show_debug);
    assert_eq!(app.state, AppState::Main);
    assert_eq!(app.debug_text, "");
    assert_eq!(app.user_search_input, "");
    assert_eq!(app.search_state.selected(), None);
    assert!(app.search_results.is_empty());
    let debug = App::with_config(Config::default(), BuildTarget { debug_assertions: true, macos: true });
    assert!(debug.show_debug);
    assert_eq!(debug.player, VideoPlayer::Iina);
}

#[test]
fn quit_needs_confirmation() {
    let mut app = fresh("mpv");
    assert_eq!(press(&mut app, Key::Char('q')), KeyAction::Nothing);
    assert_eq!(app.state, AppState::Exiting);
    assert_eq!(press(&mut app, Key::Char('n')), KeyAction::Nothing);
    assert_eq!(app.state, AppState::Main);
    press(&mut app, Key::Char('q'));
    assert_eq!(press(&mut app, Key::Char('y')), KeyAction::Quit);
    assert_eq!(press(&mut app, Key::Char('q')), KeyAction::Quit);
    assert_eq!(press(&mut app, Key::Char('x')), KeyAction::Nothing);
    assert_eq!(app.state, AppState::Exiting);
    assert_eq!(press(&mut app, Key::Esc), KeyAction::Nothing);
    assert_eq!(app.state, AppState::Main);
}

#[test]
fn released_keys_are_ignored() {
    let mut app = fresh("mpv");
    assert_eq!(app.handle_key(Key::Char('q'), true), KeyAction::Nothing);
    assert_eq!(app.state, AppState::Main);
    assert_eq!(app.handle_key(Key::Down, true), KeyAction::Nothing);
    assert_eq!(app.search_state.selected(), None);
}

#[test]
fn navigation_on_main_screen() {
    let mut app = fresh("mpv");
    press(&mut app, Key::Char('j'));
    assert_eq!(app.search_state.selected(), Some(0));
    press(&mut app, Key::Down);
    assert_eq!(app.search_state.selected(), Some(1));
    press(&mut app, Key::Char('k'));
    assert_eq!(app.search_state.selected(), Some(0));
    press(&mut app, Key::Up);
    assert_eq!(app.search_state.selected(), Some(0));
    assert_eq!(press(&mut app, Key::Enter), KeyAction::LaunchVideo);
    assert_eq!(press(&mut app, Key::Other), KeyAction::Nothing);
    assert_eq!(app.state, AppState::Main);
}

#[test]
fn searching_screen_keys() {
    let mut app = fresh("mpv");
    press(&mut app, Key::Char('i'));
    assert_eq!(app.state, AppState::Searching);
    assert_eq!(press(&mut app, Key::Char('x')), KeyAction::EditSearchInput);
    assert_eq!(press(&mut app, Key::Char('j')), KeyAction::EditSearchInput);
    assert_eq!(app.search_state.selected(), None);
    assert_eq!(press(&mut app, Key::Enter), KeyAction::ExecuteSearch);
    assert_eq!(app.state, AppState::Searching);
    assert_eq!(press(&mut app, Key::Esc), KeyAction::Nothing);
    assert_eq!(app.state, AppState::Main);
    press(&mut app, Key::Char('i'));
    assert_eq!(press(&mut app, Key::Char('q')), KeyAction::Nothing);
    assert_eq!(app.state, AppState::Exiting);
}

#[test]
fn loading_and_error_screen_keys() {
    let mut app = fresh("mpv");
    app.state = AppState::Loading;
    assert_eq!(press(&mut app, Key::Char('x')), KeyAction::Nothing);
    assert_eq!(app.state, AppState::Loading);
    press(&mut app, Key::Char('q'));
    assert_eq!(app.state, AppState::Main);
    app.state = AppState::Loading;
    press(&mut app, Key::Esc);
    assert_eq!(app.state, AppState::Main);
    app.state = AppState::Error(YoutubeSearchError::NoResult);
    for key in [Key::Char('q'), Key::Esc, Key::Enter, Key::Char('y'), Key::Down] {
        assert_eq!(press(&mut app, key), KeyAction::Nothing);
        assert_eq!(app.state, AppState::Error(YoutubeSearchError::NoResult));
    }
}

#[test]
fn empty_search_is_refused_and_returns_to_main() {
    let mut app = fresh("mpv");
    app.search_results.push(YoutubeResult { video_title: "old".to_string(), url: "o".to_string(), thumbnail: None });
    app.search_state.select(Some(0));
    app.begin_search();
    let r = app.search_query();
    assert!(matches!(r, Err(YoutubeSearchError::EmptySearch)));
    assert_eq!(app.state, AppState::Searching);
    assert!(app.search_results.is_empty());
    assert_eq!(app.search_state.selected(), None);
    app.finish_search(Err(YoutubeSearchError::EmptySearch));
    assert_eq!(app.state, AppState::Main);
}

#[test]
fn search_query_is_the_typed_text() {
    let mut app = fresh("mpv");
    app.user_search_input = "rust verus".to_string();
    app.search_results.push(YoutubeResult { video_title: "kept".to_string(), url: "k".to_string(), thumbnail: None });
    app.search_state.select(Some(0));
    assert_eq!(app.search_query().unwrap(), "rust verus");
    assert_eq!(app.state, AppState::Main);
    assert_eq!(app.search_results.len(), 1);
    assert_eq!(app.search_state.selected(), Some(0));
    app.begin_search();
    assert_eq!(app.state, AppState::Searching);
    assert!(app.search_results.is_empty());
    assert_eq!(app.search_state.selected(), None);
}

#[test]
fn failed_query_is_no_result() {
    let mut app = fresh("mpv");
    let r = app.receive_search_response(SearchResponse::Failed);
    assert!(matches!(r, Err(YoutubeSearchError::NoResult)));
    assert_eq!(app.debug_text, "");
    app.finish_search(Err(YoutubeSearchError::NoResult));
    assert_eq!(app.state, AppState::Main);
}

#[test]
fn empty_answer_is_no_result_and_logged() {
    let mut app = fresh("mpv");
    let r = app.receive_search_response(SearchResponse::Items { items: Vec::new(), listing: "SearchResult { .. }".to_string() });
    assert!(matches!(r, Err(YoutubeSearchError::NoResult)));
    assert_eq!(app.debug_text, "No results found SearchResult { .. }");
}

#[test]
fn only_videos_are_kept_in_order() {
    let mut app = fresh("mpv");
    let items = vec![
        SearchItem::Other,
        SearchItem::Video(video("first", "a1")),
        SearchItem::Other,
        SearchItem::Video(video("second", "b2")),
    ];
    let videos = app
        .receive_search_response(SearchResponse::Items { items, listing: String::new() })
        .ok()
        .unwrap();
    assert_eq!(videos.len(), 2);
    assert_eq!(videos[0].name, "first");
    assert_eq!(videos[1].id, "b2");
    assert_eq!(app.debug_text, "");
}

#[test]
fn answer_without_videos_gives_no_results() {
    let mut app = fresh("mpv");
    let videos = app
        .receive_search_response(SearchResponse::Items { items: vec![SearchItem::Other], listing: String::new() })
        .ok()
        .unwrap();
    assert!(videos.is_empty());
    app.store_search_results(videos, Vec::new());
    assert!(app.search_results.is_empty());
    assert_eq!(app.debug_text, "Results Found! []");
    assert_eq!(app.search_state.selected(), Some(0));
}

#[test]
fn stored_results_and_their_listing() {
    let mut app = fresh("mpv");
    app.begin_search();
    app.store_search_results(vec![video("Say \"hi\"", "x1"), video("two", "y2")], vec![None, None]);
    assert_eq!(app.search_results.len(), 2);
    assert_eq!(app.search_results[0].video_title, "Say \"hi\"");
    assert_eq!(app.search_results[1].url, "y2");
    assert_eq!(
        app.debug_text,
        "Results Found! [YoutubeResult { video_title: \"Say \\\"hi\\\"\", url: \"x1\", thumbnail: \"x1\" }, YoutubeResult { video_title: \"two\", url: \"y2\", thumbnail: \"y2\" }]"
    );
    assert_eq!(app.search_state.selected(), Some(0));
    assert_eq!(app.result_titles(), vec!["Say \"hi\"".to_string(), "two".to_string()]);
    app.finish_search(Ok(()));
    assert_eq!(app.state, AppState::Main);
}

#[test]
fn results_pair_only_as_far_as_both_lists_reach() {
    let mut app = fresh("mpv");
    app.store_search_results(vec![video("a", "1"), video("b", "2"), video("c", "3")], vec![None, None]);
    assert_eq!(app.search_results.len(), 2);
    assert_eq!(app.search_results[1].video_title, "b");
}

#[test]
fn listing_of_no_results() {
    assert_eq!(debug_results(&Vec::new()), "[]");
    let one = YoutubeResult { video_title: "t".to_string(), url: "u".to_string(), thumbnail: None };
    assert_eq!(one.debug_string(), "YoutubeResult { video_title: \"t\", url: \"u\", thumbnail: \"u\" }");
}

#[test]
fn launch_without_selection() {
    let mut app = fresh("mpv");
    assert!(app.start_launch().is_none());
    assert_eq!(app.state, AppState::Main);
    assert_eq!(app.debug_text, "Haven't selected a video");
}

#[test]
fn launch_with_mpv() {
    let mut app = fresh("mpv");
    app.store_search_results(vec![video("a", "dQw4w9WgXcQ")], vec![None]);
    let cmd = app.start_launch().unwrap();
    assert_eq!(cmd.program, "mpv");
    assert_eq!(cmd.args, vec!["https://www.youtube.com/watch?v=dQw4w9WgXcQ".to_string()]);
    assert_eq!(app.state, AppState::Loading);
    assert_eq!(app.debug_text, "Launching video");
    app.finish_launch(Ok(()));
    assert_eq!(app.state, AppState::Main);
    assert_eq!(app.debug_text, "");
}

#[test]
fn launch_with_iina_and_failure() {
    let mut app = fresh("iina");
    app.store_search_results(vec![video("a", "x"), video("b", "y")], vec![None, None]);
    app.search_state.select_next();
    let cmd = app.start_launch().unwrap();
    assert_eq!(cmd.program, "open");
    assert_eq!(cmd.args, vec!["-a".to_string(), "IINA".to_string(), "https://www.youtube.com/watch?v=y".to_string()]);
    app.finish_launch(Err("No such file or directory (os error 2)".to_string()));
    assert_eq!(app.state, AppState::Loading);
    assert_eq!(app.debug_text, "SOMETHING WENT WRONG WITH MPV No such file or directory (os error 2)");
}

#[test]
fn footer_text() {
    let mut app = fresh("mpv");
    app.debug_text = "dbg".to_string();
    assert_eq!(
        app.footer(),
        ("[i -> Search for video] [j/k -> Navigate results] [enter -> Select video] [q -> quit] ".to_string(), Tone::DarkGray)
    );
    app.show_debug = true;
    assert_eq!(app.footer(), ("dbg".to_string(), Tone::White));
}

#[test]
fn cursor_only_while_searching() {
    let mut app = fresh("mpv");
    assert_eq!(app.search_cursor(1, 1, 3), None);
    app.state = AppState::Searching;
    assert_eq!(app.search_cursor(1, 2, 3), Some((5, 3)));
    assert_eq!(app.search_cursor(0, 0, 65535), Some((0, 1)));
}

#[test]
fn cursor_wraps_without_overflow_checks() {
    let mut app = fresh("mpv");
    assert_eq!(app.search_cursor_wrapping(1, 1, 3), None);
    app.state = AppState::Searching;
    assert_eq!(app.search_cursor_wrapping(1, 2, 3), Some((5, 3)));
    assert_eq!(app.search_cursor_wrapping(65535, 65535, 0), Some((0, 0)));
    assert_eq!(app.search_cursor_wrapping(2, 0, usize::MAX), Some((2, 1)));
}

#[test]
fn display_names_read_back() {
    for p in [VideoPlayer::Mpv, VideoPlayer::Iina] {
        for macos in [false, true] {
            let app = App::with_config(
                Config { player: p.to_string() },
                BuildTarget { debug_assertions: false, macos },
            );
            assert_eq!(app.player, p);
        }
    }
}

#[test]
fn results_can_be_cloned() {
    let r = YoutubeResult { video_title: "t".to_string(), url: "u".to_string(), thumbnail: None };
    let c = r.clone();
    assert_eq!(c.video_title, "t");
    assert_eq!(c.url, "u");
}

#[test]
fn thumbnails_keep_first() {
    let v = VideoEntry {
        name: "n".to_string(),
        id: "i".to_string(),
        thumbnails: vec![
            ThumbnailInfo { url: "https://i.ytimg.com/a.jpg".to_string(), width: 70000, height: 90 },
            ThumbnailInfo { url: "b".to_string(), width: 1, height: 2 },
        ],
    };
    let t = youtuber::thumbnail::thumbnail_target(&v.thumbnails).unwrap();
    assert_eq!(t.url, "https://i.ytimg.com/a.jpg");
    assert_eq!(t.width, 4464);
    assert_eq!(t.height, 90);
    assert!(youtuber::thumbnail::thumbnail_target(&Vec::new()).is_none());
}
