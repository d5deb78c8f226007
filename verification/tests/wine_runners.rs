use tui_game_station::wine_runners::{
    cycle_wine_runner, nav_wine_runner, no_wine_runner_status, selected_runner_status,
    wine_runner_command, WineRunner, WineRunnerKind, picked_runner_status, runner_removed_status};

fn runners() -> Vec<WineRunner> {
    vec![
        WineRunner {
            name: "GE-Proton9-1".to_string(),
            binary_path: "/c/ge/proton".to_string(),
            location: "Steam".to_string(),
            kind: WineRunnerKind::Proton,
        },
        WineRunner {
            name: "wine-8.0".to_string(),
            binary_path: "/usr/bin/wine".to_string(),
            location: "System".to_string(),
            kind: WineRunnerKind::Wine,
        },
    ]
}

#[test]
fn runner_commands() {
    let rs = runners();
    assert_eq!(wine_runner_command(&rs[0]), "\"/c/ge/proton\" run \"{file_path}\"");
    assert_eq!(wine_runner_command(&rs[1]), "\"/usr/bin/wine\" \"{file_path}\"");
    assert_eq!(selected_runner_status(&rs[1]), "Selected Runner: wine-8.0 (System)");
    assert!(no_wine_runner_status().starts_with("[Warning] No installed Wine/Proton runners"));
}

#[test]
fn arrows_move_from_the_runner_the_command_uses() {
    let rs = runners();
    let cmd0 = wine_runner_command(&rs[0]);
    let cmd1 = wine_runner_command(&rs[1]);
    assert_eq!(nav_wine_runner(&rs, &cmd0, true), Some(cmd1.clone()));
    assert_eq!(nav_wine_runner(&rs, &cmd1, true), Some(cmd0.clone()));
    assert_eq!(nav_wine_runner(&rs, "custom wine-8.0 flags", false), Some(cmd0.clone()));
    // A command naming no runner counts as the first.
    assert_eq!(nav_wine_runner(&rs, "", false), Some(cmd1.clone()));
    assert_eq!(nav_wine_runner(&[], "", true), None);
}

#[test]
fn runner_shortcut_steps_from_the_named_runner() {
    let rs = runners();
    assert_eq!(cycle_wine_runner(&rs, "\"/usr/bin/wine\" \"{file_path}\"", 1), Some(0));
    assert_eq!(cycle_wine_runner(&rs, "GE-Proton9-1", -1), Some(1));
    assert_eq!(cycle_wine_runner(&rs, "GE-Proton9-1", 1), Some(1));
    assert_eq!(cycle_wine_runner(&rs, "", 1), Some(0));
    assert_eq!(cycle_wine_runner(&rs, "nothing", -1), Some(0));
    assert_eq!(cycle_wine_runner(&[], "x", 1), None);
}

#[test]
fn picked_and_removed_runner_lines() {
    assert_eq!(picked_runner_status("GE-Proton9-20", "Steam"), "[OK] Selected runner 'GE-Proton9-20' (Steam)!");
    assert_eq!(runner_removed_status("GE-Proton9-20"), "[OK] Removed runner 'GE-Proton9-20' from disk.");
}
