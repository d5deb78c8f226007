use tui_game_station::gamepad::{gate_pad_event, poll_held_direction};
use tui_game_station::gamepad::{
    held_direction, map_button_to_action, AxisRepeatState, AxisZone, DirectionInputs,
    GamepadAction, GamepadEvent, PadButton, REPEAT_INITIAL_DELAY_MS, REPEAT_INTERVAL_MS,
};
use tui_game_station::launcher::InputSource;
use tui_game_station::session::{apply_gamepad_event, ControllerOutcome, ControllerState};

fn idle() -> DirectionInputs {
    DirectionInputs {
        dpad_up: false,
        dpad_down: false,
        dpad_left: false,
        dpad_right: false,
        stick_y: AxisZone::Neutral,
        stick_x: AxisZone::Neutral,
    }
}

#[test]
fn buttons_map_to_launcher_actions() {
    assert_eq!(map_button_to_action(PadButton::South), Some(GamepadAction::Confirm));
    assert_eq!(map_button_to_action(PadButton::East), Some(GamepadAction::Back));
    assert_eq!(map_button_to_action(PadButton::West), Some(GamepadAction::ToggleViewMode));
    assert_eq!(map_button_to_action(PadButton::North), Some(GamepadAction::ToggleSelectGame));
    assert_eq!(map_button_to_action(PadButton::LeftTrigger2), Some(GamepadAction::PrevTab));
    assert_eq!(map_button_to_action(PadButton::RightTrigger), Some(GamepadAction::NextTab));
    assert_eq!(map_button_to_action(PadButton::Select), Some(GamepadAction::ToggleBigPicture));
    assert_eq!(map_button_to_action(PadButton::Start), Some(GamepadAction::OpenMenu));
    assert_eq!(map_button_to_action(PadButton::RightThumb), Some(GamepadAction::DeleteSelected));
    assert_eq!(map_button_to_action(PadButton::DPadLeft), Some(GamepadAction::Left));
    assert_eq!(map_button_to_action(PadButton::Mode), None);
    assert_eq!(map_button_to_action(PadButton::LeftThumb), None);
    assert_eq!(map_button_to_action(PadButton::Unknown), None);
}

#[test]
fn dpad_takes_priority_over_the_stick() {
    assert_eq!(held_direction(idle()), None);
    let mut d = idle();
    d.stick_y = AxisZone::Negative;
    d.dpad_left = true;
    assert_eq!(held_direction(d), Some(GamepadAction::Left));
    d.dpad_left = false;
    assert_eq!(held_direction(d), Some(GamepadAction::Down));
    d.stick_y = AxisZone::Neutral;
    d.stick_x = AxisZone::Positive;
    assert_eq!(held_direction(d), Some(GamepadAction::Right));
    d.dpad_up = true;
    d.dpad_down = true;
    assert_eq!(held_direction(d), Some(GamepadAction::Up));
}

#[test]
fn held_direction_repeats_after_initial_delay_then_interval() {
    let mut s = AxisRepeatState::new(0);
    assert_eq!(s.update(Some(GamepadAction::Down), 1000), Some(GamepadAction::Down));
    assert_eq!(s.update(Some(GamepadAction::Down), 1100), None);
    assert_eq!(s.update(Some(GamepadAction::Down), 1000 + REPEAT_INITIAL_DELAY_MS - 1), None);
    assert_eq!(
        s.update(Some(GamepadAction::Down), 1000 + REPEAT_INITIAL_DELAY_MS),
        Some(GamepadAction::Down)
    );
    let t = 1000 + REPEAT_INITIAL_DELAY_MS;
    assert_eq!(s.update(Some(GamepadAction::Down), t + REPEAT_INTERVAL_MS - 1), None);
    assert_eq!(s.update(Some(GamepadAction::Down), t + REPEAT_INTERVAL_MS), Some(GamepadAction::Down));
    // A change of direction fires at once and resets the delay.
    assert_eq!(s.update(Some(GamepadAction::Up), t + REPEAT_INTERVAL_MS + 1), Some(GamepadAction::Up));
    assert!(!s.initial_fired);
    // Releasing fires nothing.
    assert_eq!(s.update(None, t + 500), None);
    assert_eq!(s.last_action, None);
}

#[test]
fn controller_events_switch_the_input_source() {
    let mut st = ControllerState {
        active_gamepad_name: None,
        active_input_source: InputSource::Keyboard,
        log_next_input: true,
    };
    match apply_gamepad_event(&mut st, GamepadEvent::Connected { name: "Pad".to_string() }) {
        ControllerOutcome::Toast(t) => assert_eq!(t, "[Controller] Connected: Pad"),
        _ => panic!("expected a toast"),
    }
    assert_eq!(st.active_input_source, InputSource::Gamepad("Pad".to_string()));
    match apply_gamepad_event(
        &mut st,
        GamepadEvent::Action { action: GamepadAction::Confirm, name: "Pad".to_string() },
    ) {
        ControllerOutcome::Forward { action, log_first } => {
            assert_eq!(action, GamepadAction::Confirm);
            assert!(log_first);
        }
        _ => panic!("expected a forwarded action"),
    }
    assert!(!st.log_next_input);
    // Another controller disconnecting keeps the active one.
    apply_gamepad_event(&mut st, GamepadEvent::Disconnected { name: "Other".to_string() });
    assert_eq!(st.active_gamepad_name.as_deref(), Some("Pad"));
    match apply_gamepad_event(&mut st, GamepadEvent::Disconnected { name: "Pad".to_string() }) {
        ControllerOutcome::Toast(t) => assert_eq!(t, "[Controller] Disconnected: Pad"),
        _ => panic!("expected a toast"),
    }
    assert_eq!(st.active_gamepad_name, None);
    assert_eq!(st.active_input_source, InputSource::Keyboard);
}

#[test]
fn suspended_gamepad_forwards_nothing_and_resets_repeat() {
    let ev = GamepadEvent::Action { action: GamepadAction::Confirm, name: "Pad".to_string() };
    assert_eq!(gate_pad_event(true, ev.clone()), None);
    assert_eq!(gate_pad_event(false, ev.clone()), Some(ev));

    let mut st = AxisRepeatState::new(0);
    assert_eq!(poll_held_direction(&mut st, false, Some(GamepadAction::Up), 10), Some(GamepadAction::Up));
    assert_eq!(poll_held_direction(&mut st, true, Some(GamepadAction::Up), 20), None);
    assert_eq!(st, AxisRepeatState::new(20));
    // After the game, a held direction fires at once again.
    assert_eq!(poll_held_direction(&mut st, false, Some(GamepadAction::Up), 30), Some(GamepadAction::Up));
    assert_eq!(poll_held_direction(&mut st, false, Some(GamepadAction::Up), 40), None);
}
