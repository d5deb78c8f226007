use tui_game_station::wine_tools::{
    menu_tool, wine_only_warning, wine_tool_command, wine_tool_prefix, WineTool,
};

fn s(x: &str) -> Option<String> {
    Some(x.to_string())
}

#[test]
fn tool_prefix_falls_back_to_working_dir_then_data_dir() {
    assert_eq!(wine_tool_prefix(&s("/pfx/game"), &s("/games/a"), &s("/data"), 7), "/pfx/game");
    assert_eq!(wine_tool_prefix(&None, &s("/games/fallout3"), &s("/data"), 7), "/games/fallout3/prefix");
    assert_eq!(wine_tool_prefix(&None, &s("/games/fallout3/"), &None, 7), "/games/fallout3/prefix");
    assert_eq!(
        wine_tool_prefix(&None, &s("   "), &s("/home/u/.local/share"), 42),
        "/home/u/.local/share/tui_game_station/wineprefixes/p_42"
    );
    assert_eq!(
        wine_tool_prefix(&None, &None, &None, 3),
        "~/.local/share/tui_game_station/wineprefixes/p_3"
    );
}

#[test]
fn menu_entries_run_their_tools() {
    assert_eq!(menu_tool(0), Some(WineTool::Winecfg));
    assert_eq!(menu_tool(3), Some(WineTool::OpenPrefixFolder));
    assert_eq!(menu_tool(4), None);

    let (cmd, status) = wine_tool_command(WineTool::Winecfg, "/p");
    assert_eq!(cmd.exe, "winecfg");
    assert!(cmd.args.is_empty());
    assert_eq!(cmd.envs, vec![("WINEPREFIX".to_string(), "/p".to_string())]);
    assert_eq!(status, "Opening winecfg for prefix: /p...");

    let (cmd, status) = wine_tool_command(WineTool::KillProcesses, "/p");
    assert_eq!(cmd.exe, "wineserver");
    assert_eq!(cmd.args, vec!["-k".to_string()]);
    assert_eq!(status, "Killing Wine processes for prefix: /p...");

    let (cmd, status) = wine_tool_command(WineTool::OpenPrefixFolder, "/p");
    assert_eq!(cmd.exe, "xdg-open");
    assert_eq!(cmd.args, vec!["/p".to_string()]);
    assert_eq!(status, "Opening prefix folder: /p...");

    let (cmd, status) = wine_tool_command(WineTool::Winetricks, "/q");
    assert_eq!(cmd.exe, "winetricks");
    assert_eq!(status, "Opening winetricks for prefix: /q...");
}

#[test]
fn tools_warn_on_other_games() {
    assert_eq!(
        wine_only_warning(Some(WineTool::Winecfg)),
        "[Warning] winecfg is only applicable to Wine/Windows games."
    );
    assert_eq!(
        wine_only_warning(Some(WineTool::KillProcesses)),
        "[Warning] Kill Wine is only applicable to Wine/Windows games."
    );
    assert_eq!(
        wine_only_warning(None),
        "[Warning] Wine tools are only available for Wine/Windows games."
    );
}
