//! Choosing the video player from the configuration and the build target.
use vstd::prelude::*;
use vstd::string::*;
use crate::text::{ascii_lowercase, ascii_text, lowercase, to_lowercase};

verus! {

/// The external program that plays a selected video.
#[derive(Debug, Clone, Copy, PartialEq, Eq, Structural)]
pub enum VideoPlayer {
    Mpv,
    Iina,
}

/// The two facts about the build that the player choice and the debug
/// footer depend on.
#[derive(Debug, Clone, Copy, PartialEq, Eq, Structural)]
pub struct BuildTarget {
    /// Whether the program was built with debug assertions.
    pub debug_assertions: bool,
    /// Whether the program was built for macOS.
    pub macos: bool,
}

/// The user's configuration, as stored in the configuration file.
pub struct Config {
    pub player: String,
}

pub open spec fn mpv_name() -> Seq<char> {
    seq!['m', 'p', 'v']
}

pub open spec fn iina_name() -> Seq<char> {
    seq!['i', 'i', 'n', 'a']
}

/// The name under which a player is shown.
pub open spec fn player_name(p: VideoPlayer) -> Seq<char> {
    match p {
        VideoPlayer::Mpv => mpv_name(),
        VideoPlayer::Iina => iina_name(),
    }
}

/// The player used when the configuration names none that is known.
pub open spec fn default_player(build: BuildTarget) -> VideoPlayer {
    if build.macos {
        VideoPlayer::Iina
    } else {
        VideoPlayer::Mpv
    }
}

/// The player that an already lowercased configuration value selects.
pub open spec fn player_for_lowered(lowered: Seq<char>, build: BuildTarget) -> VideoPlayer {
    if lowered == iina_name() {
        VideoPlayer::Iina
    } else if lowered == mpv_name() {
        VideoPlayer::Mpv
    } else {
        default_player(build)
    }
}

/// The player that a configuration value selects: its lowercase form is
/// compared with the known names.
pub open spec fn player_for_config(value: Seq<char>, build: BuildTarget) -> VideoPlayer {
    player_for_lowered(lowercase(value), build)
}

impl VideoPlayer {
    /// The player's display name, `mpv` or `iina`.
    pub fn to_string(&self) -> (r: String)
        ensures
            r@ == player_name(*self),
    {
        match self {
            VideoPlayer::Mpv => {
                let r = String::from_str("mpv");
                proof {
                    reveal_strlit("mpv");
                }
                r
            },
            VideoPlayer::Iina => {
                let r = String::from_str("iina");
                proof {
                    reveal_strlit("iina");
                }
                r
            },
        }
    }
}

/// Whether the debug footer is shown: exactly when the build has debug
/// assertions.
pub fn is_debug(build: &BuildTarget) -> (r: bool)
    ensures
        r == build.debug_assertions,
{
    if build.debug_assertions {
        return true;
    }
    false
}

/// The player used when the configuration names no known player: IINA on
/// macOS, mpv elsewhere.
pub fn find_player(build: &BuildTarget) -> (r: VideoPlayer)
    ensures
        r == default_player(*build),
{
    if build.macos {
        VideoPlayer::Iina
    } else {
        VideoPlayer::Mpv
    }
}

/// The player selected by a configuration value that is already in lowercase.
pub fn player_from_lowered(lowered: &str, build: &BuildTarget) -> (r: VideoPlayer)
    ensures
        r == player_for_lowered(lowered@, *build),
{
    let value = String::from_str(lowered);
    let iina = String::from_str("iina");
    let mpv = String::from_str("mpv");
    proof {
        reveal_strlit("iina");
        reveal_strlit("mpv");
        assert(iina@ =~= iina_name());
        assert(mpv@ =~= mpv_name());
    }
    if value == iina {
        VideoPlayer::Iina
    } else if value == mpv {
        VideoPlayer::Mpv
    } else {
        find_player(build)
    }
}

/// The player selected by a configuration value, compared without regard
/// to case.
pub fn player_from_config(value: &str, build: &BuildTarget) -> (r: VideoPlayer)
    ensures
        r == player_for_config(value@, *build),
        ascii_text(value@) ==> r == player_for_lowered(ascii_lowercase(value@), *build),
{
    let lowered = to_lowercase(value);
    player_from_lowered(lowered.as_str(), build)
}

impl Config {
    /// The configuration written when none exists yet: the IINA player.
    pub fn new() -> (c: Config)
        ensures
            c.player@ == iina_name(),
    {
        let player = String::from_str("iina");
        proof {
            reveal_strlit("iina");
        }
        Config { player }
    }
}

impl Default for Config {
    /// The configuration used when the file cannot be parsed: an empty
    /// player name.
    fn default() -> (c: Config)
        ensures
            c.player@ == Seq::<char>::empty(),
    {
        Config { player: String::new() }
    }
}

/// Two configuration values that lowercase to the same text select the
/// same player: the comparison ignores case.
pub proof fn same_lowercase_same_player(a: Seq<char>, b: Seq<char>, build: BuildTarget)
    requires
        lowercase(a) == lowercase(b),
    ensures
        player_for_config(a, build) == player_for_config(b, build),
{
}

/// A player's display name, written into the configuration, selects that
/// same player again: the name is ASCII and already in lowercase.
pub proof fn display_name_reads_back(p: VideoPlayer, build: BuildTarget)
    ensures
        ascii_text(player_name(p)),
        player_for_lowered(ascii_lowercase(player_name(p)), build) == p,
{
    assert(ascii_lowercase(mpv_name()) =~= mpv_name());
    assert(ascii_lowercase(iina_name()) =~= iina_name());
}

/// The fallback player depends on the platform alone: IINA exactly on
/// macOS, mpv everywhere else, in debug and release builds alike.
pub proof fn fallback_player_follows_platform(build: BuildTarget)
    ensures
        default_player(build) == VideoPlayer::Iina <==> build.macos,
        default_player(build) == VideoPlayer::Mpv <==> !build.macos,
        default_player(build) == default_player(
            BuildTarget { debug_assertions: !build.debug_assertions, macos: build.macos },
        ),
{
}

/// A configuration value that is neither `iina` nor `mpv` in any case
/// falls back to the platform's player: IINA exactly on macOS.
pub proof fn unknown_player_falls_back(lowered: Seq<char>, build: BuildTarget)
    requires
        lowered != iina_name(),
        lowered != mpv_name(),
    ensures
        player_for_lowered(lowered, build) == VideoPlayer::Iina <==> build.macos,
{
}

} // verus!
