//! Mouse input: what the scroll wheel and a left click do in each screen
//! (library panes, Big Picture mode, and the modals that take clicks),
//! decided from the click position and the screen layout.
use vstd::prelude::*;
use crate::actions::Action;
use crate::launcher::{
    BigPictureFocus, FocusedPane, Navigator, moves_game_down, moves_game_up, moves_platform_down,
    moves_platform_up,
};
use crate::actions::forward_back_pair;
use crate::gamepad_dispatch::{RunnerButton, runner_buttons, runner_buttons_spec, button_action, button_action_spec};

verus! {

/// A screen rectangle in terminal cells.
#[derive(Debug, Clone, Copy, PartialEq, Eq, Structural)]
pub struct Rect {
    pub x: u16,
    pub y: u16,
    pub width: u16,
    pub height: u16,
}

impl Rect {
    /// Whether the cell `(x, y)` lies inside the rectangle.
    pub open spec fn contains_spec(self, x: u16, y: u16) -> bool {
        self.x <= x < self.x + self.width && self.y <= y < self.y + self.height
    }

    pub fn contains(&self, x: u16, y: u16) -> (b: bool)
        ensures
            b == self.contains_spec(x, y),
    {
        x >= self.x && (x as u32) < (self.x as u32) + (self.width as u32) && y >= self.y
            && (y as u32) < (self.y as u32) + (self.height as u32)
    }
}

/// `a - b`, or 0 when `b > a`.
pub open spec fn sat_sub(a: u16, b: u16) -> u16 {
    if a >= b {
        (a - b) as u16
    } else {
        0
    }
}

fn saturating_sub16(a: u16, b: u16) -> (r: u16)
    ensures
        r == sat_sub(a, b),
{
    if a >= b {
        a - b
    } else {
        0
    }
}

/// The action a scroll step triggers (`up` for scrolling up).
pub open spec fn scroll_action_spec(
    up: bool,
    modal_open: bool,
    is_big_picture: bool,
    focus: BigPictureFocus,
    pane: FocusedPane,
) -> Option<Action> {
    if modal_open {
        Some(
            if up {
                Action::ModalSelectPrev
            } else {
                Action::ModalSelectNext
            },
        )
    } else if is_big_picture {
        if focus == BigPictureFocus::PlatformBar {
            Some(
                if up {
                    Action::PrevPlatform
                } else {
                    Action::NextPlatform
                },
            )
        } else {
            Some(
                if up {
                    Action::PrevGame
                } else {
                    Action::NextGame
                },
            )
        }
    } else {
        match pane {
            FocusedPane::Platforms => Some(
                if up {
                    Action::PrevPlatform
                } else {
                    Action::NextPlatform
                },
            ),
            FocusedPane::Games => Some(
                if up {
                    Action::PrevGame
                } else {
                    Action::NextGame
                },
            ),
            FocusedPane::Search => None,
        }
    }
}

/// The scroll wheel goes down and up the same list: scrolling down is the
/// forward move and scrolling up the backward move of the open modal's
/// list, of the platforms, or of the games. On the games (the Games pane,
/// or the Big Picture carousel) a scroll down highlights the next game and a
/// scroll up the previous one; on the platforms (the Platforms pane, or the
/// Big Picture platform bar) likewise for the selected platform.
pub proof fn lemma_scroll_directions(
    modal_open: bool,
    is_big_picture: bool,
    focus: BigPictureFocus,
    pane: FocusedPane,
    n: Navigator,
)
    requires
        !n.game_running,
        !n.modal_open,
    ensures
        ({
            let down = scroll_action_spec(false, modal_open, is_big_picture, focus, pane);
            let up = scroll_action_spec(true, modal_open, is_big_picture, focus, pane);
            &&& down is None <==> up is None
            &&& down is Some ==> (up is Some && forward_back_pair(down->0, up->0))
            &&& modal_open ==> down == Some(Action::ModalSelectNext) && up == Some(Action::ModalSelectPrev)
            &&& (!modal_open && ((!is_big_picture && pane == FocusedPane::Games) || (is_big_picture && focus
                != BigPictureFocus::PlatformBar)) && n.game_count > 0) ==> (down is Some
                && moves_game_down(n, down->0) && up is Some && moves_game_up(n, up->0))
            &&& (!modal_open && ((!is_big_picture && pane == FocusedPane::Platforms) || (is_big_picture
                && focus == BigPictureFocus::PlatformBar)) && n.platform_count > 0) ==> (down is Some
                && moves_platform_down(n, down->0) && up is Some && moves_platform_up(n, up->0))
        }),
{
}

/// The scroll wheel moves through the open modal's list, the Big Picture
/// platform bar or carousel, or the focused library pane.
pub fn scroll_action(
    up: bool,
    modal_open: bool,
    is_big_picture: bool,
    focus: BigPictureFocus,
    pane: FocusedPane,
) -> (r: Option<Action>)
    ensures
        r == scroll_action_spec(up, modal_open, is_big_picture, focus, pane),
{
    if modal_open {
        Some(
            if up {
                Action::ModalSelectPrev
            } else {
                Action::ModalSelectNext
            },
        )
    } else if is_big_picture {
        if focus == BigPictureFocus::PlatformBar {
            Some(
                if up {
                    Action::PrevPlatform
                } else {
                    Action::NextPlatform
                },
            )
        } else {
            Some(
                if up {
                    Action::PrevGame
                } else {
                    Action::NextGame
                },
            )
        }
    } else {
        match pane {
            FocusedPane::Platforms => Some(
                if up {
                    Action::PrevPlatform
                } else {
                    Action::NextPlatform
                },
            ),
            FocusedPane::Games => Some(
                if up {
                    Action::PrevGame
                } else {
                    Action::NextGame
                },
            ),
            FocusedPane::Search => None,
        }
    }
}

/// What a left click does in Big Picture mode.
#[derive(Debug, Clone, Copy, PartialEq, Eq, Structural)]
pub enum BigPictureClick {
    /// Top banner, search box: focus the search.
    FocusSearch,
    /// Top banner, platform bar: focus it and stay.
    FocusPlatformBar,
    /// Top banner, left third of the platform bar: focus it, previous platform.
    PlatformBarPrev,
    /// Top banner, right third of the platform bar: focus it, next platform.
    PlatformBarNext,
    /// Footer: nothing.
    Ignore,
    /// Carousel, left column: focus it, previous game.
    CarouselPrev,
    /// Carousel, right column: focus it, next game.
    CarouselNext,
    /// Carousel, centre: focus it and fetch the centred game's cover.
    CarouselCentre,
}

pub open spec fn big_picture_click_spec(x: u16, y: u16, width: u16, height: u16) -> BigPictureClick {
    if y < 3 {
        let search_w = (width * 30) / 100;
        if x < search_w {
            BigPictureClick::FocusSearch
        } else if x < search_w + (width - search_w) / 3 {
            BigPictureClick::PlatformBarPrev
        } else if x > search_w + ((width - search_w) * 2) / 3 {
            BigPictureClick::PlatformBarNext
        } else {
            BigPictureClick::FocusPlatformBar
        }
    } else if y >= sat_sub(height, 3) {
        BigPictureClick::Ignore
    } else {
        let col_w = width / 3;
        if x < col_w {
            BigPictureClick::CarouselPrev
        } else if x > col_w * 2 {
            BigPictureClick::CarouselNext
        } else {
            BigPictureClick::CarouselCentre
        }
    }
}

/// A left click at `(x, y)` in Big Picture mode on a `width` x `height`
/// screen: a 3-row top banner (30% search box, then the platform bar), a
/// 3-row footer, and the three-column carousel in between.
pub fn big_picture_click(x: u16, y: u16, width: u16, height: u16) -> (r: BigPictureClick)
    requires
        width * 30 <= u16::MAX,
    ensures
        r == big_picture_click_spec(x, y, width, height),
{
    if y < 3 {
        let search_w = (width * 30) / 100;
        if x < search_w {
            BigPictureClick::FocusSearch
        } else if (x as u32) < (search_w as u32) + ((width - search_w) / 3) as u32 {
            BigPictureClick::PlatformBarPrev
        } else if (x as u32) > (search_w as u32) + (((width - search_w) * 2) / 3) as u32 {
            BigPictureClick::PlatformBarNext
        } else {
            BigPictureClick::FocusPlatformBar
        }
    } else if y >= saturating_sub16(height, 3) {
        BigPictureClick::Ignore
    } else {
        let col_w = width / 3;
        if x < col_w {
            BigPictureClick::CarouselPrev
        } else if x > col_w * 2 {
            BigPictureClick::CarouselNext
        } else {
            BigPictureClick::CarouselCentre
        }
    }
}

/// What a left click does in the library view.
#[derive(Debug, Clone, Copy, PartialEq, Eq, Structural)]
pub enum LibraryClick {
    /// Header: focus the search box.
    FocusSearch,
    /// Status bar or footer: nothing.
    Ignore,
    /// Platforms pane: focus it (no row under the click).
    FocusPlatforms,
    /// Platforms pane: focus it and select this platform.
    SelectPlatform(usize),
    /// Games pane: focus it (no row under the click).
    FocusGames,
    /// Games pane: focus it and select this game.
    SelectGame(usize),
}

pub open spec fn library_click_spec(
    x: u16,
    y: u16,
    width: u16,
    height: u16,
    platform_count: usize,
    game_count: usize,
) -> LibraryClick {
    if y < 3 {
        LibraryClick::FocusSearch
    } else if y >= sat_sub(height, 6) {
        LibraryClick::Ignore
    } else if x < (width * 25) / 100 {
        if y >= 4 && ((y - 4) as usize) < platform_count {
            LibraryClick::SelectPlatform((y - 4) as usize)
        } else {
            LibraryClick::FocusPlatforms
        }
    } else if y >= 4 && ((y - 4) as usize) < game_count {
        LibraryClick::SelectGame((y - 4) as usize)
    } else {
        LibraryClick::FocusGames
    }
}

/// A left click at `(x, y)` in the library view: a 3-row header (search), a
/// 3-row status bar and 3-row footer at the bottom, the platforms pane on
/// the left 25% and the games pane on the rest; list rows start one row
/// below the header.
pub fn library_click(
    x: u16,
    y: u16,
    width: u16,
    height: u16,
    platform_count: usize,
    game_count: usize,
) -> (r: LibraryClick)
    requires
        width * 25 <= u16::MAX,
    ensures
        r == library_click_spec(x, y, width, height, platform_count, game_count),
{
    if y < 3 {
        return LibraryClick::FocusSearch;
    }
    if y >= saturating_sub16(height, 6) {
        return LibraryClick::Ignore;
    }
    let left_w = (width * 25) / 100;
    let content_y: u16 = 4;
    if x < left_w {
        if y >= content_y {
            let clicked_idx = (y - content_y) as usize;
            if clicked_idx < platform_count {
                return LibraryClick::SelectPlatform(clicked_idx);
            }
        }
        LibraryClick::FocusPlatforms
    } else {
        if y >= content_y {
            let clicked_idx = (y - content_y) as usize;
            if clicked_idx < game_count {
                return LibraryClick::SelectGame(clicked_idx);
            }
        }
        LibraryClick::FocusGames
    }
}

/// What a click does in the welcome wizard.
#[derive(Debug, Clone, Copy, PartialEq, Eq, Structural)]
pub enum WizardClick {
    /// Go to this step.
    GoTo(usize),
    /// Complete the wizard (with the API key it holds).
    Finish,
    Nothing,
}

pub open spec fn wizard_click_spec(step: usize, x: u16, y: u16, area: Rect) -> WizardClick {
    let footer_y = area.y + sat_sub(area.height, 4);
    if y >= footer_y {
        if x < area.x + area.width / 3 {
            if step > 0 {
                WizardClick::GoTo((step - 1) as usize)
            } else {
                WizardClick::Nothing
            }
        } else if x > area.x + (area.width * 2) / 3 {
            if step < 3 {
                WizardClick::GoTo((step + 1) as usize)
            } else {
                WizardClick::Finish
            }
        } else {
            WizardClick::Nothing
        }
    } else if step == 3 {
        WizardClick::Finish
    } else {
        WizardClick::Nothing
    }
}

/// A click in the welcome wizard: the footer's left third goes back a step,
/// its right third forward (finishing after the last step); a click above
/// the footer on the last step finishes.
pub fn wizard_click(step: usize, x: u16, y: u16, area: Rect) -> (r: WizardClick)
    requires
        area.y + sat_sub(area.height, 4) <= u16::MAX,
        area.x + area.width <= u16::MAX,
        area.width * 2 <= u16::MAX,
    ensures
        r == wizard_click_spec(step, x, y, area),
{
    let footer_y = area.y + saturating_sub16(area.height, 4);
    if y >= footer_y {
        if x < area.x + area.width / 3 {
            if step > 0 {
                WizardClick::GoTo(step - 1)
            } else {
                WizardClick::Nothing
            }
        } else if x > area.x + (area.width * 2) / 3 {
            if step < 3 {
                WizardClick::GoTo(step + 1)
            } else {
                WizardClick::Finish
            }
        } else {
            WizardClick::Nothing
        }
    } else if step == 3 {
        WizardClick::Finish
    } else {
        WizardClick::Nothing
    }
}

/// What a click on a row of the settings modal does.
#[derive(Debug, Clone, Copy, PartialEq, Eq, Structural)]
pub enum SettingsClick {
    /// API key row: select it and toggle editing.
    ToggleApiKeyEdit,
    /// Welcome-wizard row: select it and open the wizard.
    OpenWizard,
    /// Save row: select it and save the settings.
    Save,
}

/// The settings row under a click `rel_y` rows below the popup's top border.
pub fn settings_click(rel_y: u16) -> (r: SettingsClick)
    ensures
        rel_y <= 2 ==> r == SettingsClick::ToggleApiKeyEdit,
        (rel_y == 3 || rel_y == 4) ==> r == SettingsClick::OpenWizard,
        rel_y >= 5 ==> r == SettingsClick::Save,
{
    if rel_y <= 2 {
        SettingsClick::ToggleApiKeyEdit
    } else if rel_y == 3 || rel_y == 4 {
        SettingsClick::OpenWizard
    } else {
        SettingsClick::Save
    }
}

/// What a click inside the emulator options popup does.
#[derive(Debug)]
pub enum RunnerPopupClick {
    /// Select the executable path row.
    SelectPathRow,
    /// Select option row `row` and cycle option `option` forward.
    CycleOption { row: usize, option: usize },
    /// Select the custom arguments row and open its editor.
    EditCustomArgs { row: usize },
    /// Select the buttons row and the button at `button`, then dispatch.
    Press { row: usize, button: usize, action: Action },
    /// A gap between rows: nothing.
    Nothing,
}

pub open spec fn runner_popup_click_spec(
    n: usize,
    rel_in: u16,
    rel_x: u16,
    inner_w: u16,
    has_download_url: bool,
    has_executable: bool,
) -> RunnerPopupClick {
    let custom_line: int = if n == 0 {
        5
    } else {
        6 + n
    };
    let buttons_line = custom_line + 2;
    if rel_in <= 3 {
        RunnerPopupClick::SelectPathRow
    } else if n > 0 && rel_in >= 6 && rel_in < 6 + n {
        let opt = (rel_in - 5) as usize;
        RunnerPopupClick::CycleOption { row: (opt + 1) as usize, option: opt }
    } else if rel_in == custom_line {
        RunnerPopupClick::EditCustomArgs { row: (n + 1) as usize }
    } else if rel_in >= buttons_line {
        let buttons = runner_buttons_spec(has_download_url, has_executable);
        let step_w = inner_w / (buttons.len() as u16);
        let sw = if step_w >= 1 {
            step_w
        } else {
            1
        };
        let raw = (rel_x / sw) as int;
        let clicked = if raw < buttons.len() - 1 {
            raw
        } else {
            buttons.len() - 1
        };
        RunnerPopupClick::Press {
            row: (n + 2) as usize,
            button: clicked as usize,
            action: button_action_spec(buttons[clicked]),
        }
    } else {
        RunnerPopupClick::Nothing
    }
}

/// A click inside the emulator options popup with `n` options, `rel_in`
/// rows below the top border and `rel_x` columns right of the inner margin;
/// the buttons share the `inner_w` columns equally.
pub fn runner_popup_click(
    n: usize,
    rel_in: u16,
    rel_x: u16,
    inner_w: u16,
    has_download_url: bool,
    has_executable: bool,
) -> (r: RunnerPopupClick)
    requires
        n + 8 <= usize::MAX,
    ensures
        r == runner_popup_click_spec(n, rel_in, rel_x, inner_w, has_download_url, has_executable),
{
    let custom_line: usize = if n == 0 {
        5
    } else {
        6 + n
    };
    let buttons_line = custom_line + 2;
    let rel = rel_in as usize;
    if rel_in <= 3 {
        RunnerPopupClick::SelectPathRow
    } else if n > 0 && rel_in >= 6 && rel < 6 + n {
        let opt = rel - 5;
        RunnerPopupClick::CycleOption { row: opt + 1, option: opt }
    } else if rel == custom_line {
        RunnerPopupClick::EditCustomArgs { row: n + 1 }
    } else if rel >= buttons_line {
        let buttons = runner_buttons(has_download_url, has_executable);
        let count = buttons.len() as u16;
        let step_w = inner_w / count;
        let sw = if step_w >= 1 {
            step_w
        } else {
            1
        };
        let raw = (rel_x / sw) as usize;
        let clicked = if raw < buttons.len() - 1 {
            raw
        } else {
            buttons.len() - 1
        };
        let b: RunnerButton = buttons[clicked];
        RunnerPopupClick::Press { row: n + 2, button: clicked, action: button_action(b) }
    } else {
        RunnerPopupClick::Nothing
    }
}

/// What a click in the platform selector does.
#[derive(Debug, Clone, Copy, PartialEq, Eq, Structural)]
pub enum PlatformSelectorClick {
    /// Click on the selected platform: confirm it.
    Confirm,
    /// Click on another platform: select it.
    Select(usize),
    /// Inside the popup but on no platform row: nothing.
    Nothing,
    /// Outside the popup: close the selector.
    Close,
}

/// The size of the platform selector popup: wide enough for the longest
/// platform name (42 to 60 columns, within the screen), tall enough for the
/// list (4 to 16 rows, within the screen).
pub fn platform_selector_size(max_name_len: usize, platform_count: usize, width: u16, height: u16) -> (r: (u16, u16))
    requires
        (max_name_len % 65536) + 26 <= u16::MAX,
        (platform_count % 65536) + 2 <= u16::MAX,
    ensures
        ({
            let nw = ((max_name_len % 65536) + 26) as int;
            let w = if nw < 42 {
                42
            } else if nw > 60 {
                60
            } else {
                nw
            };
            let nh = ((platform_count % 65536) + 2) as int;
            let h = if nh < 4 {
                4
            } else if nh > 16 {
                16
            } else {
                nh
            };
            &&& r.0 == if w <= sat_sub(width, 4) {
                w
            } else {
                sat_sub(width, 4) as int
            }
            &&& r.1 == if h <= sat_sub(height, 2) {
                h
            } else {
                sat_sub(height, 2) as int
            }
        }),
{
    let nw: u16 = (max_name_len % 65536) as u16 + 26;
    let w: u16 = if nw < 42 {
        42
    } else if nw > 60 {
        60
    } else {
        nw
    };
    let nh: u16 = (platform_count % 65536) as u16 + 2;
    let h: u16 = if nh < 4 {
        4
    } else if nh > 16 {
        16
    } else {
        nh
    };
    let mw = saturating_sub16(width, 4);
    let mh = saturating_sub16(height, 2);
    (if w <= mw {
        w
    } else {
        mw
    }, if h <= mh {
        h
    } else {
        mh
    })
}

/// A click at `(x, y)` on the platform selector drawn in `popup`: rows
/// start below the top border.
pub fn platform_selector_click(
    x: u16,
    y: u16,
    popup: Rect,
    platform_count: usize,
    selected_idx: usize,
) -> (r: PlatformSelectorClick)
    ensures
        !popup.contains_spec(x, y) ==> r == PlatformSelectorClick::Close,
        popup.contains_spec(x, y) ==> r == if y >= popup.y + 1 && ((y - popup.y - 1) as usize)
            < platform_count {
            if (y - popup.y - 1) as usize == selected_idx {
                PlatformSelectorClick::Confirm
            } else {
                PlatformSelectorClick::Select((y - popup.y - 1) as usize)
            }
        } else {
            PlatformSelectorClick::Nothing
        },
{
    if popup.contains(x, y) {
        let content_y = popup.y as u32 + 1;
        if (y as u32) >= content_y {
            let clicked_idx = (y as u32 - content_y) as usize;
            if clicked_idx < platform_count {
                if clicked_idx == selected_idx {
                    return PlatformSelectorClick::Confirm;
                } else {
                    return PlatformSelectorClick::Select(clicked_idx);
                }
            }
        }
        PlatformSelectorClick::Nothing
    } else {
        PlatformSelectorClick::Close
    }
}

} // verus!
