use tui_game_station::options::{
    cycle_runner_option, next_option_value, EmulatorOption, EmulatorOptionKind, RunnerOptions,
};

fn choices(v: &[&str]) -> EmulatorOptionKind {
    EmulatorOptionKind::Choice(v.iter().map(|s| s.to_string()).collect())
}

#[test]
fn toggles_flip_and_choices_wrap() {
    assert_eq!(next_option_value(&EmulatorOptionKind::Toggle, "1", false), "0");
    assert_eq!(next_option_value(&EmulatorOptionKind::Toggle, "0", true), "1");
    assert_eq!(next_option_value(&EmulatorOptionKind::Toggle, "yes", false), "1");
    let k = choices(&["1x", "2x", "4x"]);
    assert_eq!(next_option_value(&k, "2x", false), "4x");
    assert_eq!(next_option_value(&k, "4x", false), "1x");
    assert_eq!(next_option_value(&k, "1x", true), "4x");
    assert_eq!(next_option_value(&k, "8x", false), "2x");
    assert_eq!(next_option_value(&choices(&[]), "keep", false), "keep");
}

#[test]
fn runner_options_read_back_what_was_written() {
    let mut o = RunnerOptions::new();
    assert_eq!(o.get("scale"), None);
    o.insert("scale".to_string(), "2x".to_string());
    o.insert("vsync".to_string(), "1".to_string());
    o.insert("scale".to_string(), "4x".to_string());
    assert_eq!(o.get("scale").as_deref(), Some("4x"));
    assert_eq!(o.get("vsync").as_deref(), Some("1"));
}

#[test]
fn cycling_starts_from_the_default() {
    let opts = vec![
        EmulatorOption { key: "vsync".to_string(), default: "1".to_string(), kind: EmulatorOptionKind::Toggle },
        EmulatorOption { key: "scale".to_string(), default: "1x".to_string(), kind: choices(&["1x", "2x"]) },
    ];
    let mut o = RunnerOptions::new();
    cycle_runner_option(&opts, &mut o, 0, false);
    assert_eq!(o.get("vsync").as_deref(), Some("0"));
    cycle_runner_option(&opts, &mut o, 0, false);
    assert_eq!(o.get("vsync").as_deref(), Some("1"));
    cycle_runner_option(&opts, &mut o, 1, true);
    assert_eq!(o.get("scale").as_deref(), Some("2x"));
    cycle_runner_option(&opts, &mut o, 5, true);
    assert_eq!(o.get("scale").as_deref(), Some("2x"));
}
