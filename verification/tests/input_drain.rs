use tui_game_station::actions::InputSafeMode;
use tui_game_station::input_drain::{InputDrain, INPUT_DRAIN_MAX_MS, INPUT_DRAIN_QUIET_MS};

#[test]
fn drain_ends_after_quiet_period() {
    let mut d = InputDrain::new();
    assert!(!d.is_in_input_grace());
    assert!(!d.drain_stale_input(10, 5, 10));
    d.resume_input_after_game(1000);
    assert!(d.is_in_input_grace());
    assert!(d.log_next_input);
    assert!(d.drain_stale_input(1100, 0, 1100));
    assert!(!d.drain_stale_input(1000 + INPUT_DRAIN_QUIET_MS, 0, 1000 + INPUT_DRAIN_QUIET_MS));
    assert_eq!(d.input_safe_mode, InputSafeMode::Active);
    assert_eq!(d.input_drain_started_at, None);
}

#[test]
fn late_events_extend_the_drain() {
    let mut d = InputDrain::new();
    d.resume_input_after_game(0);
    assert!(d.drain_stale_input(200, 3, 250));
    assert_eq!(d.input_drain_last_event_at, Some(250));
    // 300 ms after start but only 50 ms after the last stale event.
    assert!(d.drain_stale_input(300, 0, 300));
    assert!(!d.drain_stale_input(250 + INPUT_DRAIN_QUIET_MS, 0, 550));
}

#[test]
fn drain_is_bounded_even_with_constant_input() {
    let mut d = InputDrain::new();
    d.resume_input_after_game(0);
    let mut t = 0;
    while t < INPUT_DRAIN_MAX_MS {
        assert!(d.drain_stale_input(t, 1, t));
        t += 100;
    }
    assert!(!d.drain_stale_input(INPUT_DRAIN_MAX_MS, 1, INPUT_DRAIN_MAX_MS));
    assert!(!d.is_in_input_grace());
}
