use tui_game_station::input_drain::InputDrain;
use tui_game_station::actions::InputSafeMode;
use tui_game_station::session::{finish_game_session, start_game_session, GameSession};
use tui_game_station::session::{
    database_path, emulator_launch_ready, game_exit_status, launch_flags_from_env,
    launch_decision, lock_file_path, trimmed_path, GameExit, LaunchDecision, LOCK_FILE_NAME,
};
use tui_game_station::runners::Runner;

#[test]
fn emulator_launch_readiness() {
    assert!(!emulator_launch_ready(&None, true));
    assert!(!emulator_launch_ready(&Some("   ".to_string()), true));
    assert!(emulator_launch_ready(&Some("flatpak run org.ppsspp.PPSSPP".to_string()), false));
    assert!(emulator_launch_ready(&Some("/usr/bin/emu --fullscreen".to_string()), false));
    assert!(!emulator_launch_ready(&Some("  /opt/emu  ".to_string()), false));
    assert!(emulator_launch_ready(&Some("  /opt/emu  ".to_string()), true));
    assert_eq!(trimmed_path("  /opt/emu \n"), "/opt/emu");
}

#[test]
fn game_exit_status_lines() {
    assert_eq!(game_exit_status(&GameExit::Exited(Some(0))), "Game exited with code: 0");
    assert_eq!(game_exit_status(&GameExit::Exited(Some(-9))), "Game exited with code: -9");
    assert_eq!(game_exit_status(&GameExit::Exited(Some(137))), "Game exited with code: 137");
    assert_eq!(game_exit_status(&GameExit::Exited(None)), "Game exited (terminated by signal)");
    assert_eq!(game_exit_status(&GameExit::Failed("no such file".to_string())), "[Error] no such file");
}

#[test]
fn launch_flags_are_read_from_the_environment() {
    let f = launch_flags_from_env("GAMEMODE=1 WINEFSYNC=1 VKD3D_CONFIG=enable_async");
    assert!(f.gamemode && f.fsync && f.vkd3d);
    assert!(!f.mangohud && !f.gamescope && !f.esync && !f.dxvk);
    let f = launch_flags_from_env("MANGOHUD=0");
    assert!(!f.mangohud);
}

#[test]
fn lock_and_database_paths() {
    assert_eq!(LOCK_FILE_NAME, "tui_game_station.lock");
    assert_eq!(
        lock_file_path(&Some("/home/u/.cache".to_string())),
        "/home/u/.cache/tui_game_station/tui_game_station.lock"
    );
    assert_eq!(lock_file_path(&None), ".cache/tui_game_station/tui_game_station.lock");
    assert_eq!(
        database_path(&Some("/data/".to_string())),
        "/data/tui_game_station/game_station.db"
    );
    assert_eq!(database_path(&None), "~/.local/share/tui_game_station/game_station.db");
}

fn emu(name: &str, exe: Option<&str>) -> Option<Runner> {
    Some(Runner {
        id: 1,
        name: name.to_string(),
        runner_type: "appimage".to_string(),
        is_active: true,
        executable_path: exe.map(String::from),
        has_default_core: false,
    })
}

#[test]
fn launch_decisions() {
    match launch_decision(0, false, "Tetris", false, &None, false) {
        LaunchDecision::Refused(m) => assert_eq!(m, "No games available to launch."),
        other => panic!("{other:?}"),
    }
    match launch_decision(3, true, "Tetris", false, &None, false) {
        LaunchDecision::Refused(m) => assert_eq!(
            m,
            "Un juego ya est\u{e1} en ejecuci\u{f3}n. Ci\u{e9}rralo o presiona [F] para forzar su cierre."
        ),
        other => panic!("{other:?}"),
    }
    match launch_decision(3, false, "Zelda", true, &emu("Ryujinx", None), false) {
        LaunchDecision::EmulatorNotConfigured { status, toast } => {
            assert_eq!(status, "Configure emulator 'Ryujinx' [m]");
            assert_eq!(toast, "Emulator 'Ryujinx' not configured. Press [m] to set up.");
        }
        other => panic!("{other:?}"),
    }
    match launch_decision(3, false, "Zelda", true, &None, true) {
        LaunchDecision::EmulatorNotConfigured { status, .. } => {
            assert_eq!(status, "Configure emulator 'emulator' [m]")
        }
        other => panic!("{other:?}"),
    }
    match launch_decision(3, false, "Zelda", true, &emu("Ryujinx", Some(" /opt/ryujinx ")), true) {
        LaunchDecision::Launch(m) => assert_eq!(m, "Launching Zelda..."),
        other => panic!("{other:?}"),
    }
    match launch_decision(3, false, "Fallout 3", false, &None, false) {
        LaunchDecision::Launch(m) => assert_eq!(m, "Launching Fallout 3..."),
        other => panic!("{other:?}"),
    }
}

#[test]
fn game_session_start_and_exit() {
    let mut s = GameSession {
        running_title: None,
        awaiting_exit: false,
        gamepad_suspended: false,
        needs_terminal_clear: false,
        status: "ready".to_string(),
    };
    start_game_session(&mut s, "Celeste");
    assert_eq!(s.running_title.as_deref(), Some("Celeste"));
    assert!(s.awaiting_exit && s.gamepad_suspended);
    assert_eq!(s.status, "ready");

    let mut drain = InputDrain::new();
    finish_game_session(&mut s, &mut drain, &GameExit::Exited(Some(3)), 500);
    assert_eq!(s.running_title, None);
    assert!(!s.awaiting_exit && !s.gamepad_suspended);
    assert!(s.needs_terminal_clear);
    assert_eq!(s.status, "Game exited with code: 3");
    assert_eq!(drain.input_safe_mode, InputSafeMode::Locked);
    assert_eq!(drain.input_drain_started_at, Some(500));

    start_game_session(&mut s, "Hades");
    finish_game_session(&mut s, &mut drain, &GameExit::Failed("boom".to_string()), 900);
    assert_eq!(s.status, "[Error] boom");
    start_game_session(&mut s, "Hades");
    finish_game_session(&mut s, &mut drain, &GameExit::Exited(None), 901);
    assert_eq!(s.status, "Game exited (terminated by signal)");
}
