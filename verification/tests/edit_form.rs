use tui_game_station::edit_form::open_edit_form;
use tui_game_station::game_record::{build_edited_game, env_vars_from_flags, EditedGameFields};
use tui_game_station::session::LaunchFlags;

fn flags(gamemode: bool, esync: bool, vkd3d: bool) -> LaunchFlags {
    LaunchFlags { gamemode, mangohud: false, gamescope: false, esync, fsync: false, dxvk: false, vkd3d }
}

fn fallout() -> EditedGameFields {
    EditedGameFields {
        title: "Fallout 3".to_string(),
        file_path: Some("/games/windows/fallout3/Fallout3.exe".to_string()),
        working_dir: Some("/games/windows/fallout3".to_string()),
        custom_command: None,
        wine_prefix: Some("/games/windows/fallout3/prefix".to_string()),
        steam_appid: Some(22300),
        env_vars: env_vars_from_flags(flags(true, true, true)),
    }
}

#[test]
fn edit_form_shows_the_stored_game() {
    let g = fallout();
    let (form, f) = open_edit_form(&g);
    assert_eq!(form.title, "Fallout 3");
    assert_eq!(form.cursor_pos, 9);
    assert_eq!(form.file_path, "/games/windows/fallout3/Fallout3.exe");
    assert_eq!(form.path_cursor, form.file_path.len());
    assert_eq!(form.custom_command, "");
    assert_eq!(form.cmd_cursor, 0);
    assert_eq!(form.steam_appid, "22300");
    assert_eq!(f, flags(true, true, true));
}

#[test]
fn saving_an_unchanged_edit_form_keeps_the_record() {
    let records = vec![
        fallout(),
        EditedGameFields {
            title: "Tetris".to_string(),
            file_path: Some("/roms/tetris.gb".to_string()),
            working_dir: None,
            custom_command: Some("--fullscreen".to_string()),
            wine_prefix: None,
            steam_appid: Some(-42),
            env_vars: None,
        },
        EditedGameFields {
            title: "Portal".to_string(),
            file_path: None,
            working_dir: None,
            custom_command: None,
            wine_prefix: None,
            steam_appid: None,
            env_vars: env_vars_from_flags(flags(false, false, true)),
        },
    ];
    for g in records {
        let (form, f) = open_edit_form(&g);
        assert_eq!(build_edited_game(&form, f), Ok(g.clone()));
    }
}
