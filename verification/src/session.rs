//! Game sessions and controllers: whether an emulator game can be launched,
//! what the status line says when a game exits, the launch options read back
//! from a game's environment, how controller events update the active
//! input source, and where the launcher keeps its lock file and database.
use vstd::prelude::*;
use crate::gamepad::{GamepadAction, GamepadEvent};
use crate::input_drain::InputDrain;
use crate::launcher::InputSource;
use crate::runners::{Runner, RunnerView};
use crate::text::{chars_of, contains_spec, decimal_spec, opt_view, push_decimal, push_str, str_contains, str_eq, string_from_chars, trim_chars, trim_spec, copy_string};

verus! {

/// Whether `s` starts with `p`.
pub open spec fn starts_with_spec(s: Seq<char>, p: Seq<char>) -> bool {
    p.len() <= s.len() && s.take(p.len() as int) == p
}

pub(crate) fn starts_with_chars(s: &Vec<char>, p: &Vec<char>) -> (b: bool)
    ensures
        b == starts_with_spec(s@, p@),
{
    if p.len() > s.len() {
        return false;
    }
    let mut i: usize = 0;
    while i < p.len()
        invariant
            i <= p.len() <= s.len(),
            forall|k: int| 0 <= k < i ==> s@[k] == p@[k],
        decreases p.len() - i,
    {
        if s[i] != p[i] {
            assert(s@.take(p.len() as int)[i as int] != p@[i as int]);
            return false;
        }
        i = i + 1;
    }
    assert(s@.take(p.len() as int) =~= p@);
    true
}

/// The executable path with surrounding whitespace removed, as the launch
/// check and the file-existence test use it.
pub fn trimmed_path(p: &str) -> (r: String)
    ensures
        r@ == trim_spec(p@),
{
    let v = chars_of(p);
    let t = trim_chars(&v);
    string_from_chars(&t)
}

/// Whether an emulator with executable path `exe` can launch a game:
/// the trimmed path is not empty and is a command line (holds a space), a
/// `flatpak run` invocation, or an existing file (`trimmed_exists`, tested
/// by the caller on the trimmed path).
pub open spec fn launch_ready_spec(exe: Option<Seq<char>>, trimmed_exists: bool) -> bool {
    match exe {
        Some(p) => {
            let pt = trim_spec(p);
            pt.len() > 0 && (contains_spec(pt, seq![' ']) || starts_with_spec(pt, "flatpak run"@)
                || trimmed_exists)
        },
        None => false,
    }
}

pub fn emulator_launch_ready(exe: &Option<String>, trimmed_exists: bool) -> (b: bool)
    ensures
        b == launch_ready_spec(opt_view(*exe), trimmed_exists),
{
    match exe {
        Some(p) => {
            let v = chars_of(p.as_str());
            let pt = trim_chars(&v);
            if pt.len() == 0 {
                return false;
            }
            let mut space: Vec<char> = Vec::new();
            space.push(' ');
            assert(space@ =~= seq![' ']);
            let flatpak = chars_of("flatpak run");
            crate::text::contains_chars(&pt, &space) || starts_with_chars(&pt, &flatpak)
                || trimmed_exists
        },
        None => false,
    }
}

/// What [Enter] on a game does.
#[derive(Debug)]
pub enum LaunchDecision {
    /// Nothing is launched; show this status line.
    Refused(String),
    /// The game's emulator is not usable: show the status line and a
    /// warning toast.
    EmulatorNotConfigured { status: String, toast: String },
    /// Launch the game; show this status line.
    Launch(String),
}

/// The emulator resolved for a game is usable: it exists and its path
/// passes [`launch_ready_spec`].
pub open spec fn runner_ready_spec(runner: Option<RunnerView>, trimmed_exists: bool) -> bool {
    match runner {
        Some(r) => launch_ready_spec(r.executable_path, trimmed_exists),
        None => false,
    }
}

/// Decide whether the selected game (`title`) launches. No game, or a game
/// already running, refuses; an emulator game (`is_emulator_game`) needs a
/// usable emulator (`runner`, with `trimmed_exists` telling whether a file
/// exists at its trimmed path).
pub fn launch_decision(
    game_count: usize,
    game_running: bool,
    title: &str,
    is_emulator_game: bool,
    runner: &Option<Runner>,
    trimmed_exists: bool,
) -> (r: LaunchDecision)
    ensures
        game_count == 0 ==> (r matches LaunchDecision::Refused(m) && m@
            == "No games available to launch."@),
        game_count > 0 && game_running ==> (r matches LaunchDecision::Refused(m) && m@
            == "Un juego ya est\u{e1} en ejecuci\u{f3}n. Ci\u{e9}rralo o presiona [F] para forzar su cierre."@),
        game_count > 0 && !game_running && is_emulator_game && !runner_ready_spec(
            match runner {
                Some(x) => Some(x@),
                None => None,
            },
            trimmed_exists,
        ) ==> (r matches LaunchDecision::EmulatorNotConfigured { status, toast } && {
            let name = match runner {
                Some(x) => x.name@,
                None => "emulator"@,
            };
            &&& status@ == "Configure emulator '"@ + name + "' [m]"@
            &&& toast@ == "Emulator '"@ + name + "' not configured. Press [m] to set up."@
        }),
        game_count > 0 && !game_running && (!is_emulator_game || runner_ready_spec(
            match runner {
                Some(x) => Some(x@),
                None => None,
            },
            trimmed_exists,
        )) ==> (r matches LaunchDecision::Launch(m) && m@ == "Launching "@ + title@ + "..."@),
{
    if game_count == 0 {
        return LaunchDecision::Refused(String::from_str("No games available to launch."));
    }
    if game_running {
        return LaunchDecision::Refused(
            String::from_str(
                "Un juego ya est\u{e1} en ejecuci\u{f3}n. Ci\u{e9}rralo o presiona [F] para forzar su cierre.",
            ),
        );
    }
    if is_emulator_game {
        let ready = match runner {
            Some(x) => emulator_launch_ready(&x.executable_path, trimmed_exists),
            None => false,
        };
        if !ready {
            let name = match runner {
                Some(x) => copy_string(x.name.as_str()),
                None => String::from_str("emulator"),
            };
            let mut st: Vec<char> = Vec::new();
            push_str(&mut st, "Configure emulator '");
            push_str(&mut st, name.as_str());
            push_str(&mut st, "' [m]");
            let mut tt: Vec<char> = Vec::new();
            push_str(&mut tt, "Emulator '");
            push_str(&mut tt, name.as_str());
            push_str(&mut tt, "' not configured. Press [m] to set up.");
            return LaunchDecision::EmulatorNotConfigured {
                status: string_from_chars(&st),
                toast: string_from_chars(&tt),
            };
        }
    }
    let mut t: Vec<char> = Vec::new();
    push_str(&mut t, "Launching ");
    push_str(&mut t, title);
    push_str(&mut t, "...");
    LaunchDecision::Launch(string_from_chars(&t))
}

/// The decimal representation of a signed integer.
pub open spec fn signed_decimal_spec(n: int) -> Seq<char> {
    if n < 0 {
        seq!['-'] + decimal_spec((-n) as nat)
    } else {
        decimal_spec(n as nat)
    }
}

/// How a background game ended: an exit code, a signal, or a launch error.
pub enum GameExit {
    Exited(Option<i32>),
    Failed(String),
}

/// The status line shown when a game ends.
pub open spec fn game_exit_status_spec(exit: GameExit) -> Seq<char> {
    match exit {
        GameExit::Exited(Some(code)) => "Game exited with code: "@ + signed_decimal_spec(code as int),
        GameExit::Exited(None) => "Game exited (terminated by signal)"@,
        GameExit::Failed(err) => "[Error] "@ + err@,
    }
}

pub fn game_exit_status(exit: &GameExit) -> (s: String)
    ensures
        s@ == game_exit_status_spec(*exit),
{
    match exit {
        GameExit::Exited(Some(code)) => {
            let mut t: Vec<char> = Vec::new();
            push_str(&mut t, "Game exited with code: ");
            let c = *code;
            if c < 0 {
                t.push('-');
                let m: i64 = -(c as i64);
                push_decimal(&mut t, m as usize);
            } else {
                push_decimal(&mut t, c as usize);
            }
            string_from_chars(&t)
        },
        GameExit::Exited(None) => String::from_str("Game exited (terminated by signal)"),
        GameExit::Failed(err) => {
            let mut t: Vec<char> = Vec::new();
            push_str(&mut t, "[Error] ");
            push_str(&mut t, err.as_str());
            string_from_chars(&t)
        },
    }
}

/// The game running in the background, as the launcher keeps it.
pub struct GameSession {
    /// The title of the running game, if one runs.
    pub running_title: Option<String>,
    /// The game's exit is awaited.
    pub awaiting_exit: bool,
    /// The gamepad thread forwards nothing (a game has focus).
    pub gamepad_suspended: bool,
    /// The terminal is redrawn from scratch on the next frame.
    pub needs_terminal_clear: bool,
    pub status: String,
}

/// A game (titled `title`) starts in the background: it is the running
/// game, its exit is awaited, and the gamepad thread stops forwarding.
pub fn start_game_session(s: &mut GameSession, title: &str)
    ensures
        final(s).running_title matches Some(t) && t@ == title@,
        final(s).awaiting_exit,
        final(s).gamepad_suspended,
        final(s).needs_terminal_clear == old(s).needs_terminal_clear,
        final(s).status == old(s).status,
{
    s.running_title = Some(copy_string(title));
    s.awaiting_exit = true;
    s.gamepad_suspended = true;
}

/// The running game ended (`exit`) at time `now_ms`: no game runs any more
/// and none is awaited, the gamepad forwards again, the terminal is
/// redrawn, the status line says how the game ended, and the post-game
/// input drain opens.
pub fn finish_game_session(s: &mut GameSession, drain: &mut InputDrain, exit: &GameExit, now_ms: u64)
    ensures
        final(s).running_title is None,
        !final(s).awaiting_exit,
        !final(s).gamepad_suspended,
        final(s).needs_terminal_clear,
        final(s).status@ == game_exit_status_spec(*exit),
        *final(drain) == (InputDrain {
            input_safe_mode: crate::actions::InputSafeMode::Locked,
            input_drain_started_at: Some(now_ms),
            input_drain_last_event_at: Some(now_ms),
            log_next_input: true,
        }),
{
    s.awaiting_exit = false;
    s.running_title = None;
    s.gamepad_suspended = false;
    drain.resume_input_after_game(now_ms);
    s.status = game_exit_status(exit);
    s.needs_terminal_clear = true;
}

/// The launch options a game's environment string turns on.
#[derive(Debug, Clone, Copy, PartialEq, Eq, Structural)]
pub struct LaunchFlags {
    pub gamemode: bool,
    pub mangohud: bool,
    pub gamescope: bool,
    pub esync: bool,
    pub fsync: bool,
    pub dxvk: bool,
    pub vkd3d: bool,
}

/// Read the launch options back from a game's environment variables: each
/// is on when its assignment occurs in the text.
pub fn launch_flags_from_env(env: &str) -> (f: LaunchFlags)
    ensures
        f.gamemode == contains_spec(env@, "GAMEMODE=1"@),
        f.mangohud == contains_spec(env@, "MANGOHUD=1"@),
        f.gamescope == contains_spec(env@, "GAMESCOPE=1"@),
        f.esync == contains_spec(env@, "WINEESYNC=1"@),
        f.fsync == contains_spec(env@, "WINEFSYNC=1"@),
        f.dxvk == contains_spec(env@, "DXVK_ASYNC=1"@),
        f.vkd3d == contains_spec(env@, "VKD3D_CONFIG=enable_async"@),
{
    LaunchFlags {
        gamemode: str_contains(env, "GAMEMODE=1"),
        mangohud: str_contains(env, "MANGOHUD=1"),
        gamescope: str_contains(env, "GAMESCOPE=1"),
        esync: str_contains(env, "WINEESYNC=1"),
        fsync: str_contains(env, "WINEFSYNC=1"),
        dxvk: str_contains(env, "DXVK_ASYNC=1"),
        vkd3d: str_contains(env, "VKD3D_CONFIG=enable_async"),
    }
}

/// Which controller (if any) drives the launcher.
pub struct ControllerState {
    pub active_gamepad_name: Option<String>,
    pub active_input_source: InputSource,
    /// The first input after a game closed is still to be logged.
    pub log_next_input: bool,
}

/// What the launcher does after a controller event.
pub enum ControllerOutcome {
    /// Show this toast (a controller connected or disconnected).
    Toast(String),
    /// Handle this gamepad action; `log_first` when it is the first input
    /// after a game closed.
    Forward { action: GamepadAction, log_first: bool },
}

pub open spec fn source_view(s: InputSource) -> Option<Seq<char>> {
    match s {
        InputSource::Keyboard => None,
        InputSource::Gamepad(n) => Some(n@),
    }
}

/// A controller event updates the active controller: a connected or
/// pressed controller becomes the input source; the active controller
/// disconnecting hands input back to the keyboard.
pub fn apply_gamepad_event(state: &mut ControllerState, evt: GamepadEvent) -> (o: ControllerOutcome)
    ensures
        match evt {
            GamepadEvent::Connected { name } => {
                &&& opt_view(final(state).active_gamepad_name) == Some(name@)
                &&& source_view(final(state).active_input_source) == Some(name@)
                &&& final(state).log_next_input == old(state).log_next_input
                &&& o matches ControllerOutcome::Toast(t) && t@ == "[Controller] Connected: "@ + name@
            },
            GamepadEvent::Disconnected { name } => {
                &&& if opt_view(old(state).active_gamepad_name) == Some(name@) {
                    final(state).active_gamepad_name is None && source_view(
                        final(state).active_input_source,
                    ) is None
                } else {
                    opt_view(final(state).active_gamepad_name) == opt_view(
                        old(state).active_gamepad_name,
                    ) && source_view(final(state).active_input_source) == source_view(
                        old(state).active_input_source,
                    )
                }
                &&& final(state).log_next_input == old(state).log_next_input
                &&& o matches ControllerOutcome::Toast(t) && t@ == "[Controller] Disconnected: "@
                    + name@
            },
            GamepadEvent::Action { action, name } => {
                &&& opt_view(final(state).active_gamepad_name) == Some(name@)
                &&& source_view(final(state).active_input_source) == Some(name@)
                &&& !final(state).log_next_input
                &&& o matches ControllerOutcome::Forward { action: a, log_first } && a == action
                    && log_first == old(state).log_next_input
            },
        },
{
    match evt {
        GamepadEvent::Connected { name } => {
            state.active_gamepad_name = Some(copy_string(name.as_str()));
            state.active_input_source = InputSource::Gamepad(copy_string(name.as_str()));
            let mut t: Vec<char> = Vec::new();
            push_str(&mut t, "[Controller] Connected: ");
            push_str(&mut t, name.as_str());
            ControllerOutcome::Toast(string_from_chars(&t))
        },
        GamepadEvent::Disconnected { name } => {
            let is_active = match &state.active_gamepad_name {
                Some(current) => str_eq(current.as_str(), name.as_str()),
                None => false,
            };
            if is_active {
                state.active_gamepad_name = None;
                state.active_input_source = InputSource::Keyboard;
            }
            let mut t: Vec<char> = Vec::new();
            push_str(&mut t, "[Controller] Disconnected: ");
            push_str(&mut t, name.as_str());
            ControllerOutcome::Toast(string_from_chars(&t))
        },
        GamepadEvent::Action { action, name } => {
            let log_first = state.log_next_input;
            state.log_next_input = false;
            state.active_gamepad_name = Some(copy_string(name.as_str()));
            state.active_input_source = InputSource::Gamepad(name);
            ControllerOutcome::Forward { action, log_first }
        },
    }
}

/// Lock file name used for the single-instance check.
pub const LOCK_FILE_NAME: &'static str = "tui_game_station.lock";

/// `a` joined with the relative path `b` (`Path::join`): a separator is
/// added unless `a` is empty or already ends with one.
pub open spec fn join_path_spec(a: Seq<char>, b: Seq<char>) -> Seq<char> {
    if a.len() == 0 || a.last() == '/' {
        a + b
    } else {
        a + seq!['/'] + b
    }
}

pub(crate) fn join_path(a: &Vec<char>, b: &str) -> (r: Vec<char>)
    ensures
        r@ == join_path_spec(a@, b@),
{
    let mut out: Vec<char> = Vec::new();
    let mut i: usize = 0;
    while i < a.len()
        invariant
            i <= a.len(),
            out@ == a@.take(i as int),
        decreases a.len() - i,
    {
        out.push(a[i]);
        assert(a@.take(i as int).push(a@[i as int]) =~= a@.take(i as int + 1));
        i = i + 1;
    }
    assert(a@.take(a.len() as int) =~= a@);
    if a.len() > 0 && a[a.len() - 1] != '/' {
        out.push('/');
        assert(out@ =~= a@ + seq!['/']);
    }
    push_str(&mut out, b);
    out
}

/// `base` (or `fallback` when there is none) joined with `first` and `second`.
pub open spec fn nested_path_spec(base: Option<Seq<char>>, fallback: Seq<char>, first: Seq<char>, second: Seq<char>) -> Seq<char> {
    let b = match base {
        Some(d) => d,
        None => fallback,
    };
    join_path_spec(join_path_spec(b, first), second)
}

fn nested_path(base: &Option<String>, fallback: &str, first: &str, second: &str) -> (r: String)
    ensures
        r@ == nested_path_spec(opt_view(*base), fallback@, first@, second@),
{
    let b = match base {
        Some(d) => chars_of(d.as_str()),
        None => chars_of(fallback),
    };
    let p1 = join_path(&b, first);
    let p2 = join_path(&p1, second);
    string_from_chars(&p2)
}

/// Where the single-instance lock file lives: `<cache dir>/tui_game_station/`
/// (`.cache` when the platform names no cache directory).
pub fn lock_file_path(cache_dir: &Option<String>) -> (r: String)
    ensures
        r@ == nested_path_spec(opt_view(*cache_dir), ".cache"@, "tui_game_station"@, LOCK_FILE_NAME@),
{
    nested_path(cache_dir, ".cache", "tui_game_station", LOCK_FILE_NAME)
}

/// Where the library database lives: `<data dir>/tui_game_station/game_station.db`
/// (under `~/.local/share` when the platform names no data directory).
pub fn database_path(data_dir: &Option<String>) -> (r: String)
    ensures
        r@ == nested_path_spec(
            opt_view(*data_dir),
            "~/.local/share"@,
            "tui_game_station"@,
            "game_station.db"@,
        ),
{
    nested_path(data_dir, "~/.local/share", "tui_game_station", "game_station.db")
}

} // verus!
