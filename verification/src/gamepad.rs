//! Gamepad input: the events the gamepad thread reports, the mapping from
//! buttons to launcher actions, the choice of the held direction, and the
//! auto-repeat of held directions.
use vstd::prelude::*;

verus! {

/// What the gamepad thread reports to the TUI.
#[derive(Debug, Clone, PartialEq, Eq)]
pub enum GamepadEvent {
    Connected { name: String },
    Disconnected { name: String },
    Action { action: GamepadAction, name: String },
}

/// Launcher-level meaning of a gamepad input.
#[derive(Debug, Clone, Copy, PartialEq, Eq, Structural)]
pub enum GamepadAction {
    Up,
    Down,
    Left,
    Right,
    /// South (A / Cross)
    Confirm,
    /// East (B / Circle)
    Back,
    /// West (X / Square)
    ToggleViewMode,
    /// North (Y / Triangle)
    ToggleSelectGame,
    /// Right Bumper (RB / R1)
    NextTab,
    /// Left Bumper (LB / L1)
    PrevTab,
    /// Select / Back / View
    ToggleBigPicture,
    /// Start / Menu
    OpenMenu,
    /// Right Thumb (R3)
    DeleteSelected,
}

/// A physical gamepad button (the buttons a standard controller layout names).
#[derive(Debug, Clone, Copy, PartialEq, Eq, Structural)]
pub enum PadButton {
    South,
    East,
    North,
    West,
    C,
    Z,
    LeftTrigger,
    LeftTrigger2,
    RightTrigger,
    RightTrigger2,
    Select,
    Start,
    Mode,
    LeftThumb,
    RightThumb,
    DPadUp,
    DPadDown,
    DPadLeft,
    DPadRight,
    Unknown,
}

pub open spec fn button_action_spec(btn: PadButton) -> Option<GamepadAction> {
    match btn {
        PadButton::South => Some(GamepadAction::Confirm),
        PadButton::East => Some(GamepadAction::Back),
        PadButton::West => Some(GamepadAction::ToggleViewMode),
        PadButton::North => Some(GamepadAction::ToggleSelectGame),
        PadButton::RightThumb => Some(GamepadAction::DeleteSelected),
        PadButton::LeftTrigger | PadButton::LeftTrigger2 => Some(GamepadAction::PrevTab),
        PadButton::RightTrigger | PadButton::RightTrigger2 => Some(GamepadAction::NextTab),
        PadButton::Select => Some(GamepadAction::ToggleBigPicture),
        PadButton::Start => Some(GamepadAction::OpenMenu),
        PadButton::DPadUp => Some(GamepadAction::Up),
        PadButton::DPadDown => Some(GamepadAction::Down),
        PadButton::DPadLeft => Some(GamepadAction::Left),
        PadButton::DPadRight => Some(GamepadAction::Right),
        _ => None,
    }
}

/// The launcher action a pressed button stands for, if any.
pub fn map_button_to_action(btn: PadButton) -> (r: Option<GamepadAction>)
    ensures
        r == button_action_spec(btn),
{
    match btn {
        PadButton::South => Some(GamepadAction::Confirm),
        PadButton::East => Some(GamepadAction::Back),
        PadButton::West => Some(GamepadAction::ToggleViewMode),
        PadButton::North => Some(GamepadAction::ToggleSelectGame),
        PadButton::RightThumb => Some(GamepadAction::DeleteSelected),
        PadButton::LeftTrigger | PadButton::LeftTrigger2 => Some(GamepadAction::PrevTab),
        PadButton::RightTrigger | PadButton::RightTrigger2 => Some(GamepadAction::NextTab),
        PadButton::Select => Some(GamepadAction::ToggleBigPicture),
        PadButton::Start => Some(GamepadAction::OpenMenu),
        PadButton::DPadUp => Some(GamepadAction::Up),
        PadButton::DPadDown => Some(GamepadAction::Down),
        PadButton::DPadLeft => Some(GamepadAction::Left),
        PadButton::DPadRight => Some(GamepadAction::Right),
        _ => None,
    }
}

/// Where an analog stick axis sits relative to the dead-zone threshold.
#[derive(Debug, Clone, Copy, PartialEq, Eq, Structural)]
pub enum AxisZone {
    /// Past the threshold in the positive direction (up / right).
    Positive,
    /// Past the threshold in the negative direction (down / left).
    Negative,
    /// Inside the dead zone, or the axis is not reported.
    Neutral,
}

/// The state of a gamepad's directional inputs.
#[derive(Debug, Clone, Copy, PartialEq, Eq, Structural)]
pub struct DirectionInputs {
    pub dpad_up: bool,
    pub dpad_down: bool,
    pub dpad_left: bool,
    pub dpad_right: bool,
    pub stick_y: AxisZone,
    pub stick_x: AxisZone,
}

pub open spec fn direction_spec(d: DirectionInputs) -> Option<GamepadAction> {
    if d.dpad_up {
        Some(GamepadAction::Up)
    } else if d.dpad_down {
        Some(GamepadAction::Down)
    } else if d.dpad_left {
        Some(GamepadAction::Left)
    } else if d.dpad_right {
        Some(GamepadAction::Right)
    } else if d.stick_y == AxisZone::Positive {
        Some(GamepadAction::Up)
    } else if d.stick_y == AxisZone::Negative {
        Some(GamepadAction::Down)
    } else if d.stick_x == AxisZone::Positive {
        Some(GamepadAction::Right)
    } else if d.stick_x == AxisZone::Negative {
        Some(GamepadAction::Left)
    } else {
        None
    }
}

/// The direction a gamepad holds: the D-pad first (up, down, left, right),
/// then the left stick's vertical axis, then its horizontal axis.
pub fn held_direction(d: DirectionInputs) -> (r: Option<GamepadAction>)
    ensures
        r == direction_spec(d),
{
    let mut current_dir: Option<GamepadAction> = None;
    if d.dpad_up {
        current_dir = Some(GamepadAction::Up);
    } else if d.dpad_down {
        current_dir = Some(GamepadAction::Down);
    } else if d.dpad_left {
        current_dir = Some(GamepadAction::Left);
    } else if d.dpad_right {
        current_dir = Some(GamepadAction::Right);
    } else if d.stick_y == AxisZone::Positive {
        current_dir = Some(GamepadAction::Up);
    } else if d.stick_y == AxisZone::Negative {
        current_dir = Some(GamepadAction::Down);
    }
    if current_dir.is_none() {
        if d.stick_x == AxisZone::Positive {
            current_dir = Some(GamepadAction::Right);
        } else if d.stick_x == AxisZone::Negative {
            current_dir = Some(GamepadAction::Left);
        }
    }
    current_dir
}

/// The inputs with only the D-pad button `btn` pressed and the stick at rest.
pub open spec fn lone_press(btn: PadButton) -> DirectionInputs {
    DirectionInputs {
        dpad_up: btn == PadButton::DPadUp,
        dpad_down: btn == PadButton::DPadDown,
        dpad_left: btn == PadButton::DPadLeft,
        dpad_right: btn == PadButton::DPadRight,
        stick_y: AxisZone::Neutral,
        stick_x: AxisZone::Neutral,
    }
}

/// The stick pushed one way and otherwise at rest, with no D-pad button.
pub open spec fn stick_push(y: AxisZone, x: AxisZone) -> DirectionInputs {
    DirectionInputs {
        dpad_up: false,
        dpad_down: false,
        dpad_left: false,
        dpad_right: false,
        stick_y: y,
        stick_x: x,
    }
}

/// A D-pad button press and the same button held mean the same direction,
/// which is the direction the stick gives when pushed that way: up and down
/// on the vertical axis, right and left on the horizontal one. So the four
/// D-pad buttons give four different directions, each its own.
pub proof fn lemma_dpad_buttons_match_directions(btn: PadButton)
    requires
        btn == PadButton::DPadUp || btn == PadButton::DPadDown || btn == PadButton::DPadLeft || btn
            == PadButton::DPadRight,
    ensures
        button_action_spec(btn) == direction_spec(lone_press(btn)),
        button_action_spec(PadButton::DPadUp) == direction_spec(stick_push(AxisZone::Positive, AxisZone::Neutral)),
        button_action_spec(PadButton::DPadDown) == direction_spec(stick_push(AxisZone::Negative, AxisZone::Neutral)),
        button_action_spec(PadButton::DPadRight) == direction_spec(stick_push(AxisZone::Neutral, AxisZone::Positive)),
        button_action_spec(PadButton::DPadLeft) == direction_spec(stick_push(AxisZone::Neutral, AxisZone::Negative)),
        button_action_spec(PadButton::DPadUp) == Some(GamepadAction::Up),
        button_action_spec(PadButton::DPadDown) == Some(GamepadAction::Down),
        button_action_spec(PadButton::DPadLeft) == Some(GamepadAction::Left),
        button_action_spec(PadButton::DPadRight) == Some(GamepadAction::Right),
{
}

/// Delay (ms) before a held direction repeats for the first time.
pub const REPEAT_INITIAL_DELAY_MS: u64 = 250;

/// Delay (ms) between later repeats of a held direction.
pub const REPEAT_INTERVAL_MS: u64 = 100;

/// Auto-repeat state of the held direction. Times are milliseconds of a
/// monotonic clock.
#[derive(Debug, Clone, Copy, PartialEq, Eq, Structural)]
pub struct AxisRepeatState {
    pub last_action: Option<GamepadAction>,
    pub last_trigger_ms: u64,
    pub initial_fired: bool,
}

/// Time elapsed from `since` to `now`, zero if the clock reads earlier.
pub open spec fn elapsed_ms(now: u64, since: u64) -> u64 {
    if now >= since {
        (now - since) as u64
    } else {
        0
    }
}

/// One auto-repeat step: the state after feeding `current` at time `now`,
/// and the action fired.
pub open spec fn repeat_step(s: AxisRepeatState, current: Option<GamepadAction>, now: u64) -> (
    AxisRepeatState,
    Option<GamepadAction>,
) {
    match (s.last_action, current) {
        (None, Some(act)) => (
            AxisRepeatState { last_action: Some(act), last_trigger_ms: now, initial_fired: false },
            Some(act),
        ),
        (Some(prev), Some(curr)) => if prev == curr {
            let delay = if s.initial_fired {
                REPEAT_INTERVAL_MS
            } else {
                REPEAT_INITIAL_DELAY_MS
            };
            if elapsed_ms(now, s.last_trigger_ms) >= delay {
                (
                    AxisRepeatState { last_action: Some(curr), last_trigger_ms: now, initial_fired: true },
                    Some(curr),
                )
            } else {
                (s, None)
            }
        } else {
            (
                AxisRepeatState { last_action: Some(curr), last_trigger_ms: now, initial_fired: false },
                Some(curr),
            )
        },
        (_, None) => (
            AxisRepeatState { last_action: None, last_trigger_ms: now, initial_fired: false },
            None,
        ),
    }
}

impl AxisRepeatState {
    /// Nothing held yet, at time `now_ms`.
    pub fn new(now_ms: u64) -> (s: Self)
        ensures
            s.last_action is None,
            s.last_trigger_ms == now_ms,
            !s.initial_fired,
    {
        AxisRepeatState { last_action: None, last_trigger_ms: now_ms, initial_fired: false }
    }

    /// Feed the direction held at time `now_ms`; returns the action to fire.
    /// A newly held direction fires at once; a direction still held fires
    /// again after 250 ms the first time and every 100 ms afterwards; a
    /// release or a change resets the repeat.
    pub fn update(&mut self, current_action: Option<GamepadAction>, now_ms: u64) -> (r: Option<
        GamepadAction,
    >)
        ensures
            (*final(self), r) == repeat_step(*old(self), current_action, now_ms),
    {
        match (self.last_action, current_action) {
            (None, Some(act)) => {
                self.last_action = Some(act);
                self.last_trigger_ms = now_ms;
                self.initial_fired = false;
                Some(act)
            },
            (Some(prev), Some(curr)) if prev == curr => {
                let delay = if self.initial_fired {
                    REPEAT_INTERVAL_MS
                } else {
                    REPEAT_INITIAL_DELAY_MS
                };
                let elapsed = if now_ms >= self.last_trigger_ms {
                    now_ms - self.last_trigger_ms
                } else {
                    0
                };
                if elapsed >= delay {
                    self.last_trigger_ms = now_ms;
                    self.initial_fired = true;
                    Some(curr)
                } else {
                    None
                }
            },
            _ => {
                self.last_action = current_action;
                self.last_trigger_ms = now_ms;
                self.initial_fired = false;
                current_action
            },
        }
    }
}

/// A newly held direction fires at once; a direction that keeps being held
/// never fires twice less than the repeat interval apart, and the first
/// repeat waits for the initial delay; releasing fires nothing.
pub proof fn lemma_repeat_is_rate_limited(
    s: AxisRepeatState,
    act: GamepadAction,
    t1: u64,
    t2: u64,
)
    requires
        s.last_action != Some(act),
        t1 <= t2,
    ensures
        repeat_step(s, Some(act), t1).1 == Some(act),
        repeat_step(repeat_step(s, Some(act), t1).0, Some(act), t2).1 is Some ==> t2 - t1
            >= REPEAT_INITIAL_DELAY_MS,
        ({
            let s1 = repeat_step(s, Some(act), t1).0;
            let s2 = repeat_step(s1, Some(act), t2);
            s2.1 is Some ==> forall|t3: u64|
                t2 <= t3 < t2 + REPEAT_INTERVAL_MS ==> (#[trigger] repeat_step(s2.0, Some(act), t3)).1
                    is None
        }),
        repeat_step(s, None, t1).1 is None,
{
}

/// The gamepad thread's gate for an event read from the controller: while
/// a game has focus (`suspended`) nothing is forwarded to the TUI; otherwise
/// the event is.
pub fn gate_pad_event(suspended: bool, event: GamepadEvent) -> (r: Option<GamepadEvent>)
    ensures
        suspended ==> r is None,
        !suspended ==> r == Some(event),
{
    if suspended {
        None
    } else {
        Some(event)
    }
}

/// The gamepad thread's poll of the held direction `held` at time `now_ms`:
/// while a game has focus the auto-repeat starts over and nothing fires;
/// otherwise the auto-repeat steps as usual.
pub fn poll_held_direction(
    state: &mut AxisRepeatState,
    suspended: bool,
    held: Option<GamepadAction>,
    now_ms: u64,
) -> (r: Option<GamepadAction>)
    ensures
        suspended ==> r is None && *final(state) == (AxisRepeatState {
            last_action: None,
            last_trigger_ms: now_ms,
            initial_fired: false,
        }),
        !suspended ==> (*final(state), r) == repeat_step(*old(state), held, now_ms),
{
    if suspended {
        *state = AxisRepeatState::new(now_ms);
        None
    } else {
        state.update(held, now_ms)
    }
}

} // verus!
