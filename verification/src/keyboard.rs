//! What a key press does in the library view (no modal open): the game
//! detail view of Big Picture mode, the search box, and the shortcuts of the
//! library panes and the carousel.
use vstd::prelude::*;
use crate::actions::Action;
use crate::launcher::{
    BigPictureFocus, FocusedPane, Navigator, moves_game_down, moves_game_up, moves_platform_down,
    moves_platform_up,
};
use crate::actions::forward_back_pair;

verus! {

/// A key press, as the terminal reports it.
#[derive(Debug, Clone, Copy, PartialEq, Eq, Structural)]
pub enum Key {
    Esc,
    Tab,
    BackTab,
    Up,
    Down,
    Left,
    Right,
    Home,
    End,
    Enter,
    Backspace,
    Delete,
    Char(char),
}

/// What the key handler reads of the library view.
#[derive(Debug, Clone, Copy, PartialEq, Eq, Structural)]
pub struct LibraryKeyContext {
    pub is_big_picture: bool,
    pub in_detail: bool,
    pub detail_action_idx: usize,
    pub big_picture_focus: BigPictureFocus,
    pub focused_pane: FocusedPane,
    pub search_empty: bool,
    pub selected_game_idx: usize,
    pub game_count: usize,
    pub selected_platform_idx: usize,
}

/// What the launcher does with a key in the library view.
#[derive(Debug)]
pub enum LibraryKeyOutcome {
    Nothing,
    Dispatch(Action),
    /// Dispatch, then clear and redraw the terminal.
    DispatchAndRedraw(Action),
    /// Tell the user the detail action is not available yet, then redraw.
    ComingSoonAndRedraw,
    /// Clear the search, show the platform's games again and leave the box.
    ClearSearchAndLeave,
    /// Leave the search box, keeping the search.
    LeaveSearch,
    /// Remove the search's last character and filter again.
    SearchBackspace,
    /// Add a character to the search and filter again.
    SearchChar(char),
    /// Move the focus to the search box.
    FocusSearch,
    /// Clear the search and show the platform's games again.
    ClearSearch,
    /// Move the focus to a library pane.
    FocusPane(FocusedPane),
    /// Move the Big Picture focus.
    FocusBigPicture(BigPictureFocus),
    /// Select this game in the carousel (then follow it with the platform
    /// selection and fetch its cover).
    SelectGame(usize),
}

/// The search box has the focus.
pub open spec fn search_focused(c: LibraryKeyContext) -> bool {
    if c.is_big_picture {
        c.big_picture_focus == BigPictureFocus::Search
    } else {
        c.focused_pane == FocusedPane::Search
    }
}

pub open spec fn is_alt_o(key: Key, alt: bool) -> bool {
    alt && (key == Key::Char('o') || key == Key::Char('O'))
}

/// The outcome of a key in the library view; `alt` tells whether Alt is held.
pub open spec fn library_key_spec(c: LibraryKeyContext, key: Key, alt: bool) -> LibraryKeyOutcome {
    if c.is_big_picture && c.in_detail {
        match key {
            Key::Enter => if c.detail_action_idx == 0 {
                LibraryKeyOutcome::DispatchAndRedraw(Action::LaunchGame)
            } else {
                LibraryKeyOutcome::ComingSoonAndRedraw
            },
            Key::Esc => LibraryKeyOutcome::Dispatch(Action::CloseGameDetail),
            Key::Left => LibraryKeyOutcome::Dispatch(Action::DetailPrevAction),
            Key::Right => LibraryKeyOutcome::Dispatch(Action::DetailNextAction),
            _ => LibraryKeyOutcome::Nothing,
        }
    } else if search_focused(c) {
        match key {
            Key::Esc => LibraryKeyOutcome::ClearSearchAndLeave,
            Key::Enter | Key::Down => LibraryKeyOutcome::LeaveSearch,
            Key::Backspace => if !c.search_empty {
                LibraryKeyOutcome::SearchBackspace
            } else {
                LibraryKeyOutcome::Nothing
            },
            Key::Tab => LibraryKeyOutcome::Dispatch(
                if c.is_big_picture {
                    Action::ToggleBigPictureFocus
                } else {
                    Action::TogglePane
                },
            ),
            Key::Char(ch) => if is_alt_o(key, alt) {
                LibraryKeyOutcome::Dispatch(Action::ToggleBigPictureMode)
            } else {
                LibraryKeyOutcome::SearchChar(ch)
            },
            _ => LibraryKeyOutcome::Nothing,
        }
    } else {
        match key {
            Key::Char(ch) => if ch == '/' {
                LibraryKeyOutcome::FocusSearch
            } else if ch == '?' {
                LibraryKeyOutcome::Dispatch(Action::OpenCheatsheetModal)
            } else if ch == 'q' {
                LibraryKeyOutcome::Dispatch(Action::Quit)
            } else if ch == 'a' {
                LibraryKeyOutcome::Dispatch(Action::OpenAddGameModal)
            } else if ch == 'c' {
                LibraryKeyOutcome::Dispatch(Action::OpenWineToolsMenu)
            } else if ch == 'e' {
                LibraryKeyOutcome::Dispatch(
                    if c.focused_pane == FocusedPane::Platforms {
                        Action::OpenFolderManagerForPlatform
                    } else {
                        Action::OpenEditGameModal
                    },
                )
            } else if ch == 'm' {
                LibraryKeyOutcome::Dispatch(Action::OpenManageRunnersModal)
            } else if ch == 'w' {
                LibraryKeyOutcome::Dispatch(Action::OpenVisualMediaModal)
            } else if is_alt_o(key, alt) {
                LibraryKeyOutcome::Dispatch(Action::ToggleBigPictureMode)
            } else if ch == 'v' {
                LibraryKeyOutcome::Dispatch(Action::ToggleViewMode)
            } else if ch == 's' {
                LibraryKeyOutcome::Dispatch(Action::OpenSettingsModal)
            } else if ch == 'p' || ch == 'P' {
                LibraryKeyOutcome::Dispatch(
                    if c.is_big_picture {
                        Action::OpenPlatformSelectorModal
                    } else {
                        Action::ToggleShowAllPlatforms
                    },
                )
            } else if ch == 'r' {
                LibraryKeyOutcome::Dispatch(Action::QuickRescanPlatform)
            } else if ch == 'g' {
                LibraryKeyOutcome::Dispatch(Action::FetchGameMedia)
            } else if ch == 'f' {
                LibraryKeyOutcome::Dispatch(Action::ForceCloseGame)
            } else if ch == ' ' {
                LibraryKeyOutcome::Dispatch(Action::ToggleSelectGame)
            } else {
                LibraryKeyOutcome::Nothing
            },
            Key::Esc => if !c.search_empty {
                LibraryKeyOutcome::ClearSearch
            } else {
                LibraryKeyOutcome::Nothing
            },
            Key::Tab => LibraryKeyOutcome::Dispatch(
                if c.is_big_picture {
                    Action::ToggleBigPictureFocus
                } else {
                    Action::TogglePane
                },
            ),
            Key::BackTab => if c.is_big_picture {
                LibraryKeyOutcome::Dispatch(Action::PrevPlatform)
            } else {
                LibraryKeyOutcome::Nothing
            },
            Key::Right => if c.is_big_picture {
                if c.big_picture_focus == BigPictureFocus::PlatformBar {
                    LibraryKeyOutcome::Dispatch(Action::NextPlatform)
                } else if c.selected_game_idx + 1 < c.game_count {
                    LibraryKeyOutcome::SelectGame((c.selected_game_idx + 1) as usize)
                } else {
                    LibraryKeyOutcome::Nothing
                }
            } else if c.focused_pane == FocusedPane::Platforms {
                LibraryKeyOutcome::FocusPane(FocusedPane::Games)
            } else {
                LibraryKeyOutcome::Nothing
            },
            Key::Left => if c.is_big_picture {
                if c.big_picture_focus == BigPictureFocus::PlatformBar {
                    LibraryKeyOutcome::Dispatch(Action::PrevPlatform)
                } else if c.selected_game_idx > 0 {
                    LibraryKeyOutcome::SelectGame((c.selected_game_idx - 1) as usize)
                } else {
                    LibraryKeyOutcome::Nothing
                }
            } else if c.focused_pane == FocusedPane::Games {
                LibraryKeyOutcome::FocusPane(FocusedPane::Platforms)
            } else {
                LibraryKeyOutcome::Nothing
            },
            Key::Up => if c.is_big_picture {
                LibraryKeyOutcome::FocusBigPicture(BigPictureFocus::PlatformBar)
            } else {
                match c.focused_pane {
                    FocusedPane::Platforms => if c.selected_platform_idx == 0 {
                        LibraryKeyOutcome::FocusPane(FocusedPane::Search)
                    } else {
                        LibraryKeyOutcome::Dispatch(Action::PrevPlatform)
                    },
                    FocusedPane::Games => if c.selected_game_idx == 0 {
                        LibraryKeyOutcome::FocusPane(FocusedPane::Search)
                    } else {
                        LibraryKeyOutcome::Dispatch(Action::PrevGame)
                    },
                    FocusedPane::Search => LibraryKeyOutcome::Nothing,
                }
            },
            Key::Down => if c.is_big_picture {
                LibraryKeyOutcome::FocusBigPicture(BigPictureFocus::Carousel)
            } else {
                match c.focused_pane {
                    FocusedPane::Platforms => LibraryKeyOutcome::Dispatch(Action::NextPlatform),
                    FocusedPane::Games => LibraryKeyOutcome::Dispatch(Action::NextGame),
                    FocusedPane::Search => LibraryKeyOutcome::Nothing,
                }
            },
            Key::Enter => LibraryKeyOutcome::DispatchAndRedraw(
                if c.is_big_picture {
                    Action::OpenGameDetail
                } else {
                    Action::LaunchGame
                },
            ),
            Key::Delete => LibraryKeyOutcome::Dispatch(Action::OpenConfirmDeleteModal),
            _ => LibraryKeyOutcome::Nothing,
        }
    }
}

/// Decide what a key does in the library view.
pub fn library_key(c: LibraryKeyContext, key: Key, alt: bool) -> (r: LibraryKeyOutcome)
    ensures
        r == library_key_spec(c, key, alt),
{
    let big = c.is_big_picture;
    if big && c.in_detail {
        return match key {
            Key::Enter => if c.detail_action_idx == 0 {
                LibraryKeyOutcome::DispatchAndRedraw(Action::LaunchGame)
            } else {
                LibraryKeyOutcome::ComingSoonAndRedraw
            },
            Key::Esc => LibraryKeyOutcome::Dispatch(Action::CloseGameDetail),
            Key::Left => LibraryKeyOutcome::Dispatch(Action::DetailPrevAction),
            Key::Right => LibraryKeyOutcome::Dispatch(Action::DetailNextAction),
            _ => LibraryKeyOutcome::Nothing,
        };
    }
    let in_search = if big {
        c.big_picture_focus == BigPictureFocus::Search
    } else {
        c.focused_pane == FocusedPane::Search
    };
    if in_search {
        return match key {
            Key::Esc => LibraryKeyOutcome::ClearSearchAndLeave,
            Key::Enter | Key::Down => LibraryKeyOutcome::LeaveSearch,
            Key::Backspace => if !c.search_empty {
                LibraryKeyOutcome::SearchBackspace
            } else {
                LibraryKeyOutcome::Nothing
            },
            Key::Tab => LibraryKeyOutcome::Dispatch(
                if big {
                    Action::ToggleBigPictureFocus
                } else {
                    Action::TogglePane
                },
            ),
            Key::Char(ch) => if alt && (ch == 'o' || ch == 'O') {
                LibraryKeyOutcome::Dispatch(Action::ToggleBigPictureMode)
            } else {
                LibraryKeyOutcome::SearchChar(ch)
            },
            _ => LibraryKeyOutcome::Nothing,
        };
    }
    match key {
        Key::Char(ch) => if ch == '/' {
            LibraryKeyOutcome::FocusSearch
        } else if ch == '?' {
            LibraryKeyOutcome::Dispatch(Action::OpenCheatsheetModal)
        } else if ch == 'q' {
            LibraryKeyOutcome::Dispatch(Action::Quit)
        } else if ch == 'a' {
            LibraryKeyOutcome::Dispatch(Action::OpenAddGameModal)
        } else if ch == 'c' {
            LibraryKeyOutcome::Dispatch(Action::OpenWineToolsMenu)
        } else if ch == 'e' {
            LibraryKeyOutcome::Dispatch(
                if c.focused_pane == FocusedPane::Platforms {
                    Action::OpenFolderManagerForPlatform
                } else {
                    Action::OpenEditGameModal
                },
            )
        } else if ch == 'm' {
            LibraryKeyOutcome::Dispatch(Action::OpenManageRunnersModal)
        } else if ch == 'w' {
            LibraryKeyOutcome::Dispatch(Action::OpenVisualMediaModal)
        } else if alt && (ch == 'o' || ch == 'O') {
            LibraryKeyOutcome::Dispatch(Action::ToggleBigPictureMode)
        } else if ch == 'v' {
            LibraryKeyOutcome::Dispatch(Action::ToggleViewMode)
        } else if ch == 's' {
            LibraryKeyOutcome::Dispatch(Action::OpenSettingsModal)
        } else if ch == 'p' || ch == 'P' {
            LibraryKeyOutcome::Dispatch(
                if big {
                    Action::OpenPlatformSelectorModal
                } else {
                    Action::ToggleShowAllPlatforms
                },
            )
        } else if ch == 'r' {
            LibraryKeyOutcome::Dispatch(Action::QuickRescanPlatform)
        } else if ch == 'g' {
            LibraryKeyOutcome::Dispatch(Action::FetchGameMedia)
        } else if ch == 'f' {
            LibraryKeyOutcome::Dispatch(Action::ForceCloseGame)
        } else if ch == ' ' {
            LibraryKeyOutcome::Dispatch(Action::ToggleSelectGame)
        } else {
            LibraryKeyOutcome::Nothing
        },
        Key::Esc => if !c.search_empty {
            LibraryKeyOutcome::ClearSearch
        } else {
            LibraryKeyOutcome::Nothing
        },
        Key::Tab => LibraryKeyOutcome::Dispatch(
            if big {
                Action::ToggleBigPictureFocus
            } else {
                Action::TogglePane
            },
        ),
        Key::BackTab => if big {
            LibraryKeyOutcome::Dispatch(Action::PrevPlatform)
        } else {
            LibraryKeyOutcome::Nothing
        },
        Key::Right => if big {
            if c.big_picture_focus == BigPictureFocus::PlatformBar {
                LibraryKeyOutcome::Dispatch(Action::NextPlatform)
            } else if c.selected_game_idx < c.game_count && c.game_count - c.selected_game_idx > 1 {
                LibraryKeyOutcome::SelectGame(c.selected_game_idx + 1)
            } else {
                LibraryKeyOutcome::Nothing
            }
        } else if c.focused_pane == FocusedPane::Platforms {
            LibraryKeyOutcome::FocusPane(FocusedPane::Games)
        } else {
            LibraryKeyOutcome::Nothing
        },
        Key::Left => if big {
            if c.big_picture_focus == BigPictureFocus::PlatformBar {
                LibraryKeyOutcome::Dispatch(Action::PrevPlatform)
            } else if c.selected_game_idx > 0 {
                LibraryKeyOutcome::SelectGame(c.selected_game_idx - 1)
            } else {
                LibraryKeyOutcome::Nothing
            }
        } else if c.focused_pane == FocusedPane::Games {
            LibraryKeyOutcome::FocusPane(FocusedPane::Platforms)
        } else {
            LibraryKeyOutcome::Nothing
        },
        Key::Up => if big {
            LibraryKeyOutcome::FocusBigPicture(BigPictureFocus::PlatformBar)
        } else {
            match c.focused_pane {
                FocusedPane::Platforms => if c.selected_platform_idx == 0 {
                    LibraryKeyOutcome::FocusPane(FocusedPane::Search)
                } else {
                    LibraryKeyOutcome::Dispatch(Action::PrevPlatform)
                },
                FocusedPane::Games => if c.selected_game_idx == 0 {
                    LibraryKeyOutcome::FocusPane(FocusedPane::Search)
                } else {
                    LibraryKeyOutcome::Dispatch(Action::PrevGame)
                },
                FocusedPane::Search => LibraryKeyOutcome::Nothing,
            }
        },
        Key::Down => if big {
            LibraryKeyOutcome::FocusBigPicture(BigPictureFocus::Carousel)
        } else {
            match c.focused_pane {
                FocusedPane::Platforms => LibraryKeyOutcome::Dispatch(Action::NextPlatform),
                FocusedPane::Games => LibraryKeyOutcome::Dispatch(Action::NextGame),
                FocusedPane::Search => LibraryKeyOutcome::Nothing,
            }
        },
        Key::Enter => LibraryKeyOutcome::DispatchAndRedraw(
            if big {
                Action::OpenGameDetail
            } else {
                Action::LaunchGame
            },
        ),
        Key::Delete => LibraryKeyOutcome::Dispatch(Action::OpenConfirmDeleteModal),
        _ => LibraryKeyOutcome::Nothing,
    }
}

/// In the carousel the arrows never move the selection out of the game
/// list, and nothing a key does in the detail view leaves it but [Esc].
pub proof fn lemma_library_keys_stay_in_range(c: LibraryKeyContext, key: Key, alt: bool)
    requires
        (c.game_count == 0 && c.selected_game_idx == 0) || c.selected_game_idx < c.game_count,
    ensures
        library_key_spec(c, key, alt) matches LibraryKeyOutcome::SelectGame(i) ==> i < c.game_count,
        c.is_big_picture && c.in_detail ==> match library_key_spec(c, key, alt) {
            LibraryKeyOutcome::Dispatch(a) => a is CloseGameDetail || a is DetailPrevAction
                || a is DetailNextAction,
            LibraryKeyOutcome::DispatchAndRedraw(a) => a is LaunchGame,
            LibraryKeyOutcome::ComingSoonAndRedraw => true,
            LibraryKeyOutcome::Nothing => true,
            _ => false,
        },
{
}

/// Outside Big Picture and the search box, the arrows move along the
/// focused pane: [Down] highlights the next game (or platform) and [Up],
/// away from the top, the previous one; the two are the forward and the
/// backward move through the same list.
pub proof fn lemma_arrow_keys_move(c: LibraryKeyContext, n: Navigator, alt: bool)
    requires
        !c.is_big_picture,
        c.focused_pane != FocusedPane::Search,
        !n.game_running,
        !n.modal_open,
        n.game_count == c.game_count,
        n.selected_game_idx == c.selected_game_idx,
        n.selected_platform_idx == c.selected_platform_idx,
    ensures
        c.focused_pane == FocusedPane::Games && n.game_count > 0 ==> (library_key_spec(c, Key::Down, alt)
            matches LibraryKeyOutcome::Dispatch(a) && moves_game_down(n, a)),
        c.focused_pane == FocusedPane::Games && n.game_count > 0 && c.selected_game_idx > 0 ==> (
        library_key_spec(c, Key::Up, alt) matches LibraryKeyOutcome::Dispatch(a) && moves_game_up(n, a)),
        c.focused_pane == FocusedPane::Platforms && n.platform_count > 0 ==> (library_key_spec(
            c,
            Key::Down,
            alt,
        ) matches LibraryKeyOutcome::Dispatch(a) && moves_platform_down(n, a)),
        c.focused_pane == FocusedPane::Platforms && n.platform_count > 0 && c.selected_platform_idx > 0
            ==> (library_key_spec(c, Key::Up, alt) matches LibraryKeyOutcome::Dispatch(a)
            && moves_platform_up(n, a)),
        library_key_spec(c, Key::Down, alt) is Dispatch && library_key_spec(c, Key::Up, alt) is Dispatch
            ==> forward_back_pair(
            library_key_spec(c, Key::Down, alt)->Dispatch_0,
            library_key_spec(c, Key::Up, alt)->Dispatch_0,
        ),
{
}

/// In Big Picture (outside the detail view and the search box), ◀ and ▶ go
/// along the focused row: on the platform bar they move the selected
/// platform back and forward; in the carousel ▶ highlights the next game,
/// when there is one, and ◀ the previous one, so ◀ undoes ▶.
pub proof fn lemma_big_picture_arrows_move(c: LibraryKeyContext, n: Navigator, alt: bool)
    requires
        c.is_big_picture,
        !c.in_detail,
        c.big_picture_focus != BigPictureFocus::Search,
        !n.game_running,
        !n.modal_open,
        n.selected_platform_idx == c.selected_platform_idx,
        n.platform_count > 0,
    ensures
        c.big_picture_focus == BigPictureFocus::PlatformBar ==> (library_key_spec(c, Key::Right, alt)
            is Dispatch && moves_platform_down(n, library_key_spec(c, Key::Right, alt)->Dispatch_0)
            && library_key_spec(c, Key::Left, alt) is Dispatch && moves_platform_up(
            n,
            library_key_spec(c, Key::Left, alt)->Dispatch_0,
        )),
        c.big_picture_focus == BigPictureFocus::Carousel && c.selected_game_idx + 1 < c.game_count ==> (
        library_key_spec(c, Key::Right, alt) is SelectGame && library_key_spec(c, Key::Right, alt)->SelectGame_0
            == c.selected_game_idx + 1 && library_key_spec(
            LibraryKeyContext { selected_game_idx: library_key_spec(c, Key::Right, alt)->SelectGame_0, ..c },
            Key::Left,
            alt,
        ) is SelectGame && library_key_spec(
            LibraryKeyContext { selected_game_idx: library_key_spec(c, Key::Right, alt)->SelectGame_0, ..c },
            Key::Left,
            alt,
        )->SelectGame_0 == c.selected_game_idx),
        c.big_picture_focus == BigPictureFocus::Carousel && c.selected_game_idx > 0 ==> (library_key_spec(
            c,
            Key::Left,
            alt,
        ) is SelectGame && library_key_spec(c, Key::Left, alt)->SelectGame_0 + 1 == c.selected_game_idx),
{
}

} // verus!
