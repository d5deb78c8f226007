//! The launcher's navigation state and the part of the action dispatcher
//! that only moves it: pane focus, view mode, Big Picture mode and its
//! detail view, platform and game selection, quitting and force-closing.
//! Every action first passes the central guard; what needs the database,
//! the file system or a background task is returned as an effect for the
//! application loop to carry out.
use vstd::prelude::*;
use crate::actions::{Action, GateDecision, InputSafeMode, gate_action, gate_spec};
use crate::cycle::{next_wrapping, prev_wrapping, lemma_wrapping_round_trip};
use crate::text::{copy_string, push_str, string_from_chars};

verus! {

#[derive(Debug, Clone, Copy, PartialEq, Eq, Structural)]
pub enum FocusedPane {
    Search,
    Platforms,
    Games,
}

#[derive(Debug, Clone, Copy, PartialEq, Eq, Structural)]
pub enum ViewMode {
    CoverCard,
    BannerCard,
    IconCard,
    Table,
}

#[derive(Debug, Clone, Copy, PartialEq, Eq, Structural)]
pub enum BigPictureFocus {
    Carousel,
    PlatformBar,
    Search,
}

/// Which input device the user is driving the launcher with.
#[derive(Debug, Clone, PartialEq, Eq)]
pub enum InputSource {
    Keyboard,
    Gamepad(String),
}

/// What the TUI is currently running in the background (emulator/game) so
/// the UI can show a "game running" indicator and offer a force-close.
/// `started_at_ms` is read from a monotonic clock.
pub struct RunningGame {
    pub title: String,
    pub runner_name: Option<String>,
    pub started_at_ms: u64,
}

/// A Wine tool to run (winecfg, winetricks, ...): executable, arguments and
/// environment.
pub struct WineToolCommand {
    pub exe: String,
    pub args: Vec<String>,
    pub envs: Vec<(String, String)>,
}

pub open spec fn next_pane(p: FocusedPane) -> FocusedPane {
    match p {
        FocusedPane::Search => FocusedPane::Platforms,
        FocusedPane::Platforms => FocusedPane::Games,
        FocusedPane::Games => FocusedPane::Search,
    }
}

pub open spec fn next_view_mode(m: ViewMode) -> ViewMode {
    match m {
        ViewMode::CoverCard => ViewMode::BannerCard,
        ViewMode::BannerCard => ViewMode::IconCard,
        ViewMode::IconCard => ViewMode::Table,
        ViewMode::Table => ViewMode::CoverCard,
    }
}

pub open spec fn next_big_picture_focus(f: BigPictureFocus) -> BigPictureFocus {
    match f {
        BigPictureFocus::Carousel => BigPictureFocus::PlatformBar,
        BigPictureFocus::PlatformBar => BigPictureFocus::Search,
        BigPictureFocus::Search => BigPictureFocus::Carousel,
    }
}

/// Status line shown after switching to a view mode.
pub open spec fn view_mode_status_spec(m: ViewMode) -> Seq<char> {
    match m {
        ViewMode::CoverCard => "[View Mode] Cover Cards (Vertical Poster)"@,
        ViewMode::BannerCard => "[View Mode] Hero Banners (Horizontal)"@,
        ViewMode::IconCard => "[View Mode] Square Icons"@,
        ViewMode::Table => "[View Mode] Detailed Table List"@,
    }
}

/// The status line for a view mode.
pub fn view_mode_status(m: ViewMode) -> (s: String)
    ensures
        s@ == view_mode_status_spec(m),
{
    match m {
        ViewMode::CoverCard => String::from_str("[View Mode] Cover Cards (Vertical Poster)"),
        ViewMode::BannerCard => String::from_str("[View Mode] Hero Banners (Horizontal)"),
        ViewMode::IconCard => String::from_str("[View Mode] Square Icons"),
        ViewMode::Table => String::from_str("[View Mode] Detailed Table List"),
    }
}

/// What the application loop does after a navigation step.
#[derive(Debug, Clone, Copy, PartialEq, Eq, Structural)]
pub enum NavEffect {
    /// The guard refused the action; nothing changed.
    Ignored(GateDecision),
    /// Not a navigation action: the application dispatches it itself.
    Delegate,
    /// Only the navigation state changed (or nothing did).
    Nothing,
    /// Quit pressed with a modal open: close the modal.
    CloseModal,
    /// The launcher must quit.
    Quit,
    /// Kill the running game and redraw the terminal.
    ForceCloseGame,
    /// A force-close was asked with no game running.
    NoGameToClose,
    /// The view mode changed: show its status line and fetch covers.
    ViewModeChanged,
    /// Big Picture mode was entered: preload covers, go fullscreen.
    EnterBigPicture,
    /// Big Picture mode was left: leave fullscreen.
    LeaveBigPicture,
    /// The game detail view opened: preload the detail media.
    PreloadDetailMedia,
    /// Another platform was selected: load its games.
    LoadGames,
    /// Another game was selected: sync the platform selection (while
    /// searching) and fetch its cover.
    GameChanged,
}

/// The launcher's navigation state.
#[derive(Debug, Clone, Copy, PartialEq, Eq, Structural)]
pub struct Navigator {
    pub platform_count: usize,
    pub selected_platform_idx: usize,
    pub game_count: usize,
    pub selected_game_idx: usize,
    pub focused_pane: FocusedPane,
    pub view_mode: ViewMode,
    pub is_big_picture: bool,
    pub big_picture_focus: BigPictureFocus,
    pub big_picture_in_detail: bool,
    pub detail_action_idx: usize,
    /// Number of actions offered by the game detail view.
    pub detail_action_count: usize,
    pub modal_open: bool,
    pub game_running: bool,
    pub input_safe_mode: InputSafeMode,
    pub should_quit: bool,
    pub needs_terminal_clear: bool,
}

impl Navigator {
    /// Selections point inside their lists (or at 0 for an empty list).
    pub open spec fn wf(self) -> bool {
        &&& (self.platform_count == 0 && self.selected_platform_idx == 0)
            || self.selected_platform_idx < self.platform_count
        &&& (self.game_count == 0 && self.selected_game_idx == 0) || self.selected_game_idx
            < self.game_count
        &&& self.detail_action_count > 0
        &&& self.detail_action_idx < self.detail_action_count
    }

    /// The navigation state on start-up.
    pub fn new(platform_count: usize, detail_action_count: usize) -> (n: Self)
        requires
            detail_action_count > 0,
        ensures
            n.wf(),
            n.platform_count == platform_count,
            n.selected_platform_idx == 0,
            n.game_count == 0,
            n.focused_pane == FocusedPane::Platforms,
            n.view_mode == ViewMode::CoverCard,
            !n.is_big_picture,
            n.big_picture_focus == BigPictureFocus::Carousel,
            !n.modal_open,
            !n.game_running,
            n.input_safe_mode == InputSafeMode::Active,
            !n.should_quit,
    {
        Navigator {
            platform_count,
            selected_platform_idx: 0,
            game_count: 0,
            selected_game_idx: 0,
            focused_pane: FocusedPane::Platforms,
            view_mode: ViewMode::CoverCard,
            is_big_picture: false,
            big_picture_focus: BigPictureFocus::Carousel,
            big_picture_in_detail: false,
            detail_action_idx: 0,
            detail_action_count,
            modal_open: false,
            game_running: false,
            input_safe_mode: InputSafeMode::Active,
            should_quit: false,
            needs_terminal_clear: false,
        }
    }

    /// The games of the selected platform (or of a search) were reloaded:
    /// the selection returns to the first game.
    pub fn set_games_loaded(&mut self, game_count: usize)
        requires
            old(self).wf(),
        ensures
            final(self).wf(),
            *final(self) == (Navigator { game_count, selected_game_idx: 0, ..*old(self) }),
    {
        self.game_count = game_count;
        self.selected_game_idx = 0;
    }
}

/// One navigation step: the state after `action` and the effect to carry out.
pub open spec fn nav_step(n: Navigator, action: Action) -> (Navigator, NavEffect) {
    let gate = gate_spec(n.game_running, n.input_safe_mode, action);
    if gate != GateDecision::Dispatch {
        (n, NavEffect::Ignored(gate))
    } else {
        match action {
            Action::Quit => if n.modal_open {
                (Navigator { modal_open: false, ..n }, NavEffect::CloseModal)
            } else {
                (Navigator { should_quit: true, ..n }, NavEffect::Quit)
            },
            Action::ForceCloseGame => if !n.game_running {
                (n, NavEffect::NoGameToClose)
            } else {
                (Navigator { needs_terminal_clear: true, ..n }, NavEffect::ForceCloseGame)
            },
            Action::TogglePane => if !n.modal_open {
                (Navigator { focused_pane: next_pane(n.focused_pane), ..n }, NavEffect::Nothing)
            } else {
                (n, NavEffect::Nothing)
            },
            Action::ToggleViewMode => (
                Navigator { view_mode: next_view_mode(n.view_mode), ..n },
                NavEffect::ViewModeChanged,
            ),
            Action::ToggleBigPictureMode => {
                let n2 = Navigator {
                    is_big_picture: !n.is_big_picture,
                    big_picture_in_detail: false,
                    needs_terminal_clear: true,
                    ..n
                };
                if n2.is_big_picture {
                    (n2, NavEffect::EnterBigPicture)
                } else {
                    (n2, NavEffect::LeaveBigPicture)
                }
            },
            Action::OpenGameDetail => if n.game_count == 0 || n.selected_game_idx >= n.game_count {
                (n, NavEffect::Nothing)
            } else {
                (
                    Navigator { big_picture_in_detail: true, detail_action_idx: 0, ..n },
                    NavEffect::PreloadDetailMedia,
                )
            },
            Action::CloseGameDetail => (
                Navigator { big_picture_in_detail: false, ..n },
                NavEffect::Nothing,
            ),
            Action::DetailNextAction => if n.big_picture_in_detail {
                (
                    Navigator {
                        detail_action_idx: next_wrapping(
                            n.detail_action_idx as int,
                            n.detail_action_count as int,
                        ) as usize,
                        ..n
                    },
                    NavEffect::Nothing,
                )
            } else {
                (n, NavEffect::Nothing)
            },
            Action::DetailPrevAction => if n.big_picture_in_detail {
                (
                    Navigator {
                        detail_action_idx: prev_wrapping(
                            n.detail_action_idx as int,
                            n.detail_action_count as int,
                        ) as usize,
                        ..n
                    },
                    NavEffect::Nothing,
                )
            } else {
                (n, NavEffect::Nothing)
            },
            Action::ToggleBigPictureFocus => (
                Navigator { big_picture_focus: next_big_picture_focus(n.big_picture_focus), ..n },
                NavEffect::Nothing,
            ),
            Action::NextPlatform => if n.platform_count > 0 {
                (
                    Navigator {
                        selected_platform_idx: next_wrapping(
                            n.selected_platform_idx as int,
                            n.platform_count as int,
                        ) as usize,
                        ..n
                    },
                    NavEffect::LoadGames,
                )
            } else {
                (n, NavEffect::Nothing)
            },
            Action::PrevPlatform => if n.platform_count > 0 {
                (
                    Navigator {
                        selected_platform_idx: prev_wrapping(
                            n.selected_platform_idx as int,
                            n.platform_count as int,
                        ) as usize,
                        ..n
                    },
                    NavEffect::LoadGames,
                )
            } else {
                (n, NavEffect::Nothing)
            },
            Action::NextGame => if !n.modal_open && n.game_count > 0 {
                (
                    Navigator {
                        selected_game_idx: next_wrapping(
                            n.selected_game_idx as int,
                            n.game_count as int,
                        ) as usize,
                        ..n
                    },
                    NavEffect::GameChanged,
                )
            } else {
                (n, NavEffect::Nothing)
            },
            Action::PrevGame => if !n.modal_open && n.game_count > 0 {
                (
                    Navigator {
                        selected_game_idx: prev_wrapping(
                            n.selected_game_idx as int,
                            n.game_count as int,
                        ) as usize,
                        ..n
                    },
                    NavEffect::GameChanged,
                )
            } else {
                (n, NavEffect::Nothing)
            },
            _ => (n, NavEffect::Delegate),
        }
    }
}

fn wrap_next(i: usize, len: usize) -> (r: usize)
    requires
        i < len,
    ensures
        r == next_wrapping(i as int, len as int),
        r < len,
{
    proof {
        lemma_wrapping_round_trip(i as int, len as int);
    }
    (i + 1) % len
}

fn wrap_prev(i: usize, len: usize) -> (r: usize)
    requires
        i < len,
    ensures
        r == prev_wrapping(i as int, len as int),
        r < len,
{
    if i == 0 {
        len - 1
    } else {
        i - 1
    }
}

/// Run the navigation part of the dispatcher on `action`.
pub fn navigate(nav: &mut Navigator, action: &Action) -> (e: NavEffect)
    requires
        old(nav).wf(),
    ensures
        final(nav).wf(),
        (*final(nav), e) == nav_step(*old(nav), *action),
{
    proof {
        lemma_wrapping_round_trip(nav.detail_action_idx as int, nav.detail_action_count as int);
        if nav.platform_count > 0 {
            lemma_wrapping_round_trip(nav.selected_platform_idx as int, nav.platform_count as int);
        }
        if nav.game_count > 0 {
            lemma_wrapping_round_trip(nav.selected_game_idx as int, nav.game_count as int);
        }
    }
    let gate = gate_action(nav.game_running, nav.input_safe_mode, action);
    if gate != GateDecision::Dispatch {
        return NavEffect::Ignored(gate);
    }
    match action {
        Action::Quit => {
            if nav.modal_open {
                nav.modal_open = false;
                NavEffect::CloseModal
            } else {
                nav.should_quit = true;
                NavEffect::Quit
            }
        },
        Action::ForceCloseGame => {
            if !nav.game_running {
                NavEffect::NoGameToClose
            } else {
                nav.needs_terminal_clear = true;
                NavEffect::ForceCloseGame
            }
        },
        Action::TogglePane => {
            if !nav.modal_open {
                nav.focused_pane = match nav.focused_pane {
                    FocusedPane::Search => FocusedPane::Platforms,
                    FocusedPane::Platforms => FocusedPane::Games,
                    FocusedPane::Games => FocusedPane::Search,
                };
            }
            NavEffect::Nothing
        },
        Action::ToggleViewMode => {
            nav.view_mode = match nav.view_mode {
                ViewMode::CoverCard => ViewMode::BannerCard,
                ViewMode::BannerCard => ViewMode::IconCard,
                ViewMode::IconCard => ViewMode::Table,
                ViewMode::Table => ViewMode::CoverCard,
            };
            NavEffect::ViewModeChanged
        },
        Action::ToggleBigPictureMode => {
            nav.is_big_picture = !nav.is_big_picture;
            nav.big_picture_in_detail = false;
            nav.needs_terminal_clear = true;
            if nav.is_big_picture {
                NavEffect::EnterBigPicture
            } else {
                NavEffect::LeaveBigPicture
            }
        },
        Action::OpenGameDetail => {
            if nav.game_count == 0 || nav.selected_game_idx >= nav.game_count {
                return NavEffect::Nothing;
            }
            nav.big_picture_in_detail = true;
            nav.detail_action_idx = 0;
            NavEffect::PreloadDetailMedia
        },
        Action::CloseGameDetail => {
            nav.big_picture_in_detail = false;
            NavEffect::Nothing
        },
        Action::DetailNextAction => {
            if nav.big_picture_in_detail {
                nav.detail_action_idx = wrap_next(nav.detail_action_idx, nav.detail_action_count);
            }
            NavEffect::Nothing
        },
        Action::DetailPrevAction => {
            if nav.big_picture_in_detail {
                nav.detail_action_idx = wrap_prev(nav.detail_action_idx, nav.detail_action_count);
            }
            NavEffect::Nothing
        },
        Action::ToggleBigPictureFocus => {
            nav.big_picture_focus = match nav.big_picture_focus {
                BigPictureFocus::Carousel => BigPictureFocus::PlatformBar,
                BigPictureFocus::PlatformBar => BigPictureFocus::Search,
                BigPictureFocus::Search => BigPictureFocus::Carousel,
            };
            NavEffect::Nothing
        },
        Action::NextPlatform => {
            if nav.platform_count > 0 {
                nav.selected_platform_idx = wrap_next(nav.selected_platform_idx, nav.platform_count);
                NavEffect::LoadGames
            } else {
                NavEffect::Nothing
            }
        },
        Action::PrevPlatform => {
            if nav.platform_count > 0 {
                nav.selected_platform_idx = wrap_prev(nav.selected_platform_idx, nav.platform_count);
                NavEffect::LoadGames
            } else {
                NavEffect::Nothing
            }
        },
        Action::NextGame => {
            if !nav.modal_open && nav.game_count > 0 {
                nav.selected_game_idx = wrap_next(nav.selected_game_idx, nav.game_count);
                NavEffect::GameChanged
            } else {
                NavEffect::Nothing
            }
        },
        Action::PrevGame => {
            if !nav.modal_open && nav.game_count > 0 {
                nav.selected_game_idx = wrap_prev(nav.selected_game_idx, nav.game_count);
                NavEffect::GameChanged
            } else {
                NavEffect::Nothing
            }
        },
        _ => NavEffect::Delegate,
    }
}

/// Every navigation step keeps the selections inside their lists.
pub proof fn lemma_nav_step_keeps_wf(n: Navigator, action: Action)
    requires
        n.wf(),
    ensures
        nav_step(n, action).0.wf(),
{
    lemma_wrapping_round_trip(n.detail_action_idx as int, n.detail_action_count as int);
    if n.platform_count > 0 {
        lemma_wrapping_round_trip(n.selected_platform_idx as int, n.platform_count as int);
    }
    if n.game_count > 0 {
        lemma_wrapping_round_trip(n.selected_game_idx as int, n.game_count as int);
    }
}

/// While a game runs, no action but a force-close changes anything.
pub proof fn lemma_running_game_freezes_navigation(n: Navigator, action: Action)
    requires
        n.game_running,
        !(action is ForceCloseGame),
    ensures
        nav_step(n, action).0 == n,
        nav_step(n, action).1 == NavEffect::Ignored(GateDecision::BlockedGameRunning),
{
}

/// `a` moves the highlighted game one place down the list (from the last
/// back to the first) and changes nothing else.
pub open spec fn moves_game_down(n: Navigator, a: Action) -> bool {
    nav_step(n, a).0 == Navigator {
        selected_game_idx: next_wrapping(n.selected_game_idx as int, n.game_count as int) as usize,
        ..n
    }
}

/// `a` moves the highlighted game one place up the list (from the first
/// to the last) and changes nothing else.
pub open spec fn moves_game_up(n: Navigator, a: Action) -> bool {
    nav_step(n, a).0 == Navigator {
        selected_game_idx: prev_wrapping(n.selected_game_idx as int, n.game_count as int) as usize,
        ..n
    }
}

/// `a` moves the selected platform one place down the list (wrapping) and
/// changes nothing else.
pub open spec fn moves_platform_down(n: Navigator, a: Action) -> bool {
    nav_step(n, a).0 == Navigator {
        selected_platform_idx: next_wrapping(n.selected_platform_idx as int, n.platform_count as int) as usize,
        ..n
    }
}

/// `a` moves the selected platform one place up the list (wrapping) and
/// changes nothing else.
pub open spec fn moves_platform_up(n: Navigator, a: Action) -> bool {
    nav_step(n, a).0 == Navigator {
        selected_platform_idx: prev_wrapping(n.selected_platform_idx as int, n.platform_count as int) as usize,
        ..n
    }
}

/// Selecting the next game and then the previous one returns to the same
/// game; likewise for platforms (and the other way round).
pub proof fn lemma_next_prev_round_trip(n: Navigator)
    requires
        n.wf(),
        !n.game_running,
        !n.modal_open,
    ensures
        n.game_count > 0 ==> nav_step(nav_step(n, Action::NextGame).0, Action::PrevGame).0 == n,
        n.game_count > 0 ==> nav_step(nav_step(n, Action::PrevGame).0, Action::NextGame).0 == n,
        n.platform_count > 0 ==> nav_step(nav_step(n, Action::NextPlatform).0, Action::PrevPlatform).0
            == n,
        n.platform_count > 0 ==> nav_step(nav_step(n, Action::PrevPlatform).0, Action::NextPlatform).0
            == n,
{
    if n.game_count > 0 {
        lemma_wrapping_round_trip(n.selected_game_idx as int, n.game_count as int);
    }
    if n.platform_count > 0 {
        lemma_wrapping_round_trip(n.selected_platform_idx as int, n.platform_count as int);
    }
}

/// The pane focus and the Big Picture focus come back after three toggles,
/// the view mode after four.
pub proof fn lemma_toggles_cycle(n: Navigator)
    requires
        !n.game_running,
        !n.modal_open,
    ensures
        nav_step(nav_step(nav_step(n, Action::TogglePane).0, Action::TogglePane).0, Action::TogglePane).0
            == n,
        nav_step(
            nav_step(nav_step(n, Action::ToggleBigPictureFocus).0, Action::ToggleBigPictureFocus).0,
            Action::ToggleBigPictureFocus,
        ).0 == n,
        nav_step(
            nav_step(
                nav_step(nav_step(n, Action::ToggleViewMode).0, Action::ToggleViewMode).0,
                Action::ToggleViewMode,
            ).0,
            Action::ToggleViewMode,
        ).0 == n,
{
}

/// The status line a navigation effect shows, if any: the new view mode,
/// entering Big Picture mode, or a force-close with no game running.
pub open spec fn nav_effect_status_spec(e: NavEffect, view_mode: ViewMode) -> Option<Seq<char>> {
    match e {
        NavEffect::ViewModeChanged => Some(view_mode_status_spec(view_mode)),
        NavEffect::EnterBigPicture => Some("[MODE] Switched to Big Picture Mode"@),
        NavEffect::NoGameToClose => Some("No game is currently running to close."@),
        _ => None,
    }
}

pub fn nav_effect_status(e: NavEffect, view_mode: ViewMode) -> (r: Option<String>)
    ensures
        crate::text::opt_view(r) == nav_effect_status_spec(e, view_mode),
{
    match e {
        NavEffect::ViewModeChanged => Some(view_mode_status(view_mode)),
        NavEffect::EnterBigPicture => Some(String::from_str("[MODE] Switched to Big Picture Mode")),
        NavEffect::NoGameToClose => Some(String::from_str("No game is currently running to close.")),
        _ => None,
    }
}

/// The status line of a force-close of the running game, from what the
/// kill gave: its summary, or its error.
pub open spec fn force_close_status_spec(result: Result<Seq<char>, Seq<char>>) -> Seq<char> {
    match result {
        Ok(summary) => "[OK] "@ + summary,
        Err(e) => "[Error] "@ + e,
    }
}

/// What a force-close of the running game shows, from what the kill gave:
/// the status line, and on success a warning toast with the summary. (The
/// navigation step has already marked the terminal for a redraw.)
pub fn force_close_report(result: &Result<String, String>) -> (r: (String, Option<String>))
    ensures
        r.0@ == force_close_status_spec(match result {
            Ok(s) => Ok(s@),
            Err(e) => Err(e@),
        }),
        match result {
            Ok(s) => r.1 matches Some(t) && t@ == s@,
            Err(_) => r.1 is None,
        },
{
    match result {
        Ok(summary) => {
            let mut t: Vec<char> = Vec::new();
            push_str(&mut t, "[OK] ");
            push_str(&mut t, summary.as_str());
            (string_from_chars(&t), Some(copy_string(summary.as_str())))
        },
        Err(e) => {
            let mut t: Vec<char> = Vec::new();
            push_str(&mut t, "[Error] ");
            push_str(&mut t, e.as_str());
            (string_from_chars(&t), None)
        },
    }
}

/// The status line after the platform filter was toggled (`show_all`:
/// every preset platform is listed).
pub fn show_all_platforms_status(show_all: bool) -> (s: String)
    ensures
        s@ == if show_all {
            "Mostrando TODAS las plataformas preseteadas."@
        } else {
            "Filtro activo: Mostrando solo plataformas instaladas/con juegos."@
        },
{
    if show_all {
        String::from_str("Mostrando TODAS las plataformas preseteadas.")
    } else {
        String::from_str("Filtro activo: Mostrando solo plataformas instaladas/con juegos.")
    }
}

/// The status line when the launcher starts.
pub const READY_STATUS: &'static str = "TUI Game Station ready!";

/// The status line when the launcher starts in Big Picture mode.
pub const BIG_PICTURE_START_STATUS: &'static str = "[MODE] Started directly in BIG PICTURE Mode";

/// The toast for a game detail action that is not available yet.
pub const COMING_SOON_TOAST: &'static str = "This action will be available soon.";

/// The toast when the welcome wizard is finished.
pub const WELCOME_DONE_TOAST: &'static str = "Welcome setup completed!";

/// The status line after the custom launch arguments were saved.
pub const CUSTOM_ARGS_SAVED_STATUS: &'static str = "[OK] Custom launcher arguments updated.";

} // verus!
