use tui_game_station::runners::installed_cores;
use tui_game_station::runners::{
    active_emulator_step, add_scan_core_source, add_scan_emulator_label, configured_runners,
    find_core_position, folder_has_core, is_retroarch_runner, next_add_folder_core,
    next_add_folder_emulator, refresh_add_core, resolve_runner, revalidation_target,
    scan_folder_platform_has_retroarch, ActiveEmulatorStep, CoreSource, Runner,
    next_folder_core, folder_assignment_status, no_folder_emulator_status,
    core_download_runner, core_download_labels, active_step_status, active_emulator_error_status,
    active_core_status,
};

fn runner(id: i64, name: &str, rtype: &str, active: bool, exe: Option<&str>) -> Runner {
    Runner {
        id,
        name: name.to_string(),
        runner_type: rtype.to_string(),
        is_active: active,
        executable_path: exe.map(|s| s.to_string()),
        has_default_core: false,
    }
}

fn switch_runners() -> Vec<Runner> {
    vec![
        runner(1, "Ryujinx", "appimage", true, None),
        runner(2, "Citron", "appimage", false, None),
    ]
}

fn platform_runner_name(runners: &[Runner]) -> Option<String> {
    resolve_runner(runners, None).map(|i| runners[i].name.clone())
}

#[test]
fn add_scan_emulator_label_omits_default_for_first_folder() {
    let runners = switch_runners();

    // First folder: nothing to inherit -> the effective emulator, not "Default".
    let label = add_scan_emulator_label(None, &runners, false, platform_runner_name(&runners));
    assert_eq!(label, "Ryujinx");

    // With a folder already registered, "Default" (inherit) is valid.
    let label = add_scan_emulator_label(None, &runners, true, platform_runner_name(&runners));
    assert_eq!(label, "Default");

    // Explicit emulator -> its name.
    let ryujinx = runners.iter().find(|r| r.name == "Ryujinx").unwrap();
    let label = add_scan_emulator_label(Some(ryujinx.id), &runners, true, platform_runner_name(&runners));
    assert_eq!(label, "Ryujinx");
}

#[test]
fn emulator_label_for_unknown_id_or_no_platform_runner_is_default() {
    let runners = switch_runners();
    assert_eq!(add_scan_emulator_label(Some(42), &runners, false, None), "Default");
    assert_eq!(add_scan_emulator_label(None, &runners, false, None), "Default");
    assert_eq!(add_scan_emulator_label(Some(2), &runners, false, None), "Citron");
}

#[test]
fn resolve_runner_prefers_assigned_id_then_active() {
    let runners = vec![
        runner(1, "A", "x", false, None),
        runner(2, "B", "x", true, None),
        runner(3, "C", "x", true, None),
    ];
    assert_eq!(resolve_runner(&runners, None), Some(1));
    assert_eq!(resolve_runner(&runners, Some(3)), Some(2));
    assert_eq!(resolve_runner(&runners, Some(9)), None);
    let inactive = vec![runner(1, "A", "x", false, None)];
    assert_eq!(resolve_runner(&inactive, None), None);
}

#[test]
fn retroarch_is_recognised_by_name_or_type() {
    assert!(is_retroarch_runner(&runner(1, "RetroArch", "appimage", true, None)));
    assert!(is_retroarch_runner(&runner(1, "RA", "retroarch", true, None)));
    assert!(!is_retroarch_runner(&runner(1, "retroarch", "appimage", true, None)));
    let rs = vec![runner(1, "melonDS", "appimage", true, None), runner(2, "RetroArch", "x", false, None)];
    assert!(scan_folder_platform_has_retroarch(&rs));
    assert!(!scan_folder_platform_has_retroarch(&rs[..1]));
}

#[test]
fn folder_core_row_follows_the_resolved_runner() {
    let mut core_emu = runner(3, "mGBA", "appimage", false, None);
    core_emu.has_default_core = true;
    let rs = vec![
        runner(1, "melonDS", "appimage", true, None),
        runner(2, "RetroArch", "retroarch", false, None),
        core_emu,
    ];
    assert!(!folder_has_core(&rs, None));
    assert!(folder_has_core(&rs, Some(2)));
    assert!(folder_has_core(&rs, Some(3)));
    assert!(!folder_has_core(&rs, Some(77)));

    assert_eq!(add_scan_core_source(&rs, Some(2)), CoreSource::RetroArch(1));
    assert_eq!(add_scan_core_source(&rs, Some(3)), CoreSource::Catalog(2));
    assert_eq!(add_scan_core_source(&rs, None), CoreSource::NoCores);
    // An unknown id falls back to the active runner.
    assert_eq!(add_scan_core_source(&rs, Some(77)), CoreSource::NoCores);
}

#[test]
fn configured_runners_keep_only_non_blank_paths_in_order() {
    let rs = vec![
        runner(1, "A", "x", true, Some("/a")),
        runner(2, "B", "x", false, Some("   ")),
        runner(3, "C", "x", false, None),
        runner(4, "D", "x", false, Some("/d")),
    ];
    let c = configured_runners(&rs);
    let ids: Vec<i64> = c.iter().map(|r| r.id).collect();
    assert_eq!(ids, vec![1, 4]);
    assert_eq!(c[1].name, "D");
}

#[test]
fn add_folder_emulator_selector_skips_default_for_first_folder() {
    let rs = vec![
        runner(1, "Ryujinx", "x", true, Some("/r")),
        runner(2, "Citron", "x", false, Some("/c")),
    ];
    // No folders yet: forward from nothing picks the first, wraps without "Default".
    assert_eq!(next_add_folder_emulator(&rs, None, false, false), Some(Some(1)));
    assert_eq!(next_add_folder_emulator(&rs, Some(1), false, false), Some(Some(2)));
    assert_eq!(next_add_folder_emulator(&rs, Some(2), false, false), Some(Some(1)));
    assert_eq!(next_add_folder_emulator(&rs, Some(1), false, true), Some(Some(2)));
    assert_eq!(next_add_folder_emulator(&rs, None, false, true), Some(Some(2)));
    // Once a folder exists, "Default" is reachable past either end.
    assert_eq!(next_add_folder_emulator(&rs, Some(2), true, false), Some(None));
    assert_eq!(next_add_folder_emulator(&rs, Some(1), true, true), Some(None));
    // No configured emulator: nothing changes.
    assert_eq!(next_add_folder_emulator(&[], Some(1), true, false), None);
}

fn cores() -> Vec<(String, String)> {
    vec![
        ("melondsds".to_string(), "melonDS DS".to_string()),
        ("desmume".to_string(), "DeSmuME".to_string()),
    ]
}

#[test]
fn add_folder_core_is_refreshed_and_cycled() {
    let av = cores();
    assert_eq!(find_core_position(&av, "desmume"), Some(1));
    assert_eq!(find_core_position(&av, "none"), None);

    assert_eq!(refresh_add_core(true, Some("desmume".to_string()), &av).as_deref(), Some("desmume"));
    assert_eq!(refresh_add_core(true, Some("gone".to_string()), &av).as_deref(), Some("melondsds"));
    assert_eq!(refresh_add_core(true, None, &av).as_deref(), Some("melondsds"));
    assert_eq!(refresh_add_core(true, None, &[]), None);
    assert_eq!(refresh_add_core(false, Some("desmume".to_string()), &av), None);

    assert_eq!(next_add_folder_core(&av, &Some("melondsds".to_string()), false).as_deref(), Some("desmume"));
    assert_eq!(next_add_folder_core(&av, &Some("desmume".to_string()), false).as_deref(), Some("melondsds"));
    assert_eq!(next_add_folder_core(&av, &None, true).as_deref(), Some("desmume"));
    assert_eq!(next_add_folder_core(&[], &None, false), None);
}

#[test]
fn active_emulator_selector_steps() {
    assert_eq!(active_emulator_step(None, 0, false), ActiveEmulatorStep::NoneConfigured);
    assert_eq!(active_emulator_step(Some(0), 1, false), ActiveEmulatorStep::OnlyOne);
    assert_eq!(active_emulator_step(Some(0), 3, false), ActiveEmulatorStep::SwitchTo(1));
    assert_eq!(active_emulator_step(Some(0), 3, true), ActiveEmulatorStep::SwitchTo(2));
    assert_eq!(active_emulator_step(Some(2), 3, false), ActiveEmulatorStep::SwitchTo(0));
    assert_eq!(active_emulator_step(None, 3, true), ActiveEmulatorStep::SwitchTo(0));
    assert_eq!(active_emulator_step(Some(0), 2, false), ActiveEmulatorStep::SwitchTo(1));
}

#[test]
fn revalidation_picks_first_other_usable_runner() {
    let rs = vec![
        runner(1, "A", "x", true, Some("/a")),
        runner(2, "B", "x", false, Some("/b")),
        runner(3, "C", "x", false, Some("/c")),
    ];
    assert_eq!(revalidation_target(true, 1, &rs, &[true, true, true]), None);
    assert_eq!(revalidation_target(false, 1, &rs, &[true, false, true]), Some(2));
    assert_eq!(revalidation_target(false, 1, &rs, &[true, true, true]), Some(1));
    assert_eq!(revalidation_target(false, 1, &rs, &[true, false, false]), None);
}

#[test]
fn add_scan_emulator_selector_skips_default_when_no_folders_exist() {
    // Ryujinx and Citron are configured for Switch.
    let ryujinx = 1;
    let citron = 2;
    let rs = vec![
        runner(ryujinx, "Ryujinx", "appimage", true, Some("/fake/ryujinx")),
        runner(citron, "Citron", "appimage", false, Some("/fake/citron")),
    ];
    let configured = configured_runners(&rs);
    let step = |emu: Option<i64>, has_folder: bool, backward: bool| -> Option<i64> {
        next_add_folder_emulator(&configured, emu, has_folder, backward).expect("configured emulators")
    };
    // No folder yet: the arrows go round the real emulators, never "Default".
    let emu = step(None, false, false);
    assert_eq!(emu, Some(ryujinx), "forward picks the first emulator");
    let emu = step(emu, false, false);
    assert_eq!(emu, Some(citron), "forward reaches the last emulator");
    let emu = step(emu, false, false);
    assert_eq!(emu, Some(ryujinx), "forward wraps, never lands on None");
    let emu = step(emu, false, true);
    assert_eq!(emu, Some(citron), "backward wraps, never lands on None");
    // Once a folder is registered, "Default" (None) is reachable again.
    let emu = step(emu, true, true);
    assert_eq!(emu, Some(ryujinx), "backward to first emulator");
    let emu = step(emu, true, true);
    assert_eq!(emu, None, "backward reaches Default once a folder exists");
}

#[test]
fn folder_core_selector_goes_through_default() {
    let av = cores();
    let some = |k: &str| Some(k.to_string());
    // Default -> first core -> second core -> Default.
    assert_eq!(next_folder_core(&av, &None, false), Some(some("melondsds")));
    assert_eq!(next_folder_core(&av, &some("melondsds"), false), Some(some("desmume")));
    assert_eq!(next_folder_core(&av, &some("desmume"), false), Some(None));
    // Backward: Default -> last core -> first core -> Default.
    assert_eq!(next_folder_core(&av, &None, true), Some(some("desmume")));
    assert_eq!(next_folder_core(&av, &some("melondsds"), true), Some(None));
    // An unknown current core counts as Default.
    assert_eq!(next_folder_core(&av, &some("gone"), false), Some(some("melondsds")));
    // No core available: nothing changes.
    assert_eq!(next_folder_core(&[], &None, false), None);
}

#[test]
fn folder_selectors_step_back_to_where_they_were() {
    let av = cores();
    for cur in [None, Some("melondsds".to_string()), Some("desmume".to_string())] {
        for backward in [false, true] {
            let next = next_folder_core(&av, &cur, backward).unwrap();
            assert_eq!(next_folder_core(&av, &next, !backward), Some(cur.clone()));
        }
    }
    let rs = vec![
        runner(1, "Ryujinx", "x", true, Some("/r")),
        runner(2, "Citron", "x", false, Some("/c")),
    ];
    for cur in [None, Some(1), Some(2)] {
        for backward in [false, true] {
            let next = next_add_folder_emulator(&rs, cur, true, backward).unwrap();
            assert_eq!(next_add_folder_emulator(&rs, next, true, !backward), Some(cur));
        }
    }
}

#[test]
fn folder_assignment_status_lines() {
    assert_eq!(folder_assignment_status("/roms/switch", "Citron"), "Carpeta /roms/switch \u{2192} Citron");
    assert_eq!(folder_assignment_status("/roms/switch", "Default"), "Carpeta /roms/switch \u{2192} Default");
    assert_eq!(
        no_folder_emulator_status("Nintendo Switch"),
        "No hay emulador configurado para Nintendo Switch. Presiona [m] para configurar uno."
    );
}

#[test]
fn core_download_uses_retroarch_when_the_active_emulator_is_not() {
    // NDS: melonDS active, RetroArch configured beside it.
    let nds = vec![runner(1, "melonDS", "appimage", true, None), runner(2, "RetroArch", "appimage", false, None)];
    assert_eq!(core_download_runner(&nds, None), Some(1));
    // The form's emulator wins when one is chosen.
    assert_eq!(core_download_runner(&nds, Some(1)), Some(0));
    assert_eq!(core_download_runner(&nds, Some(9)), None);
    // An active RetroArch is used directly.
    let ra = vec![runner(5, "RetroArch", "x", true, None), runner(6, "Other", "retroarch", false, None)];
    assert_eq!(core_download_runner(&ra, None), Some(0));
    // No RetroArch at all: nothing.
    let switch = vec![runner(3, "Ryujinx", "appimage", true, None)];
    assert_eq!(core_download_runner(&switch, None), None);
    let (label, status) = core_download_labels("melonDS DS");
    assert_eq!(label, "Core: melonDS DS");
    assert_eq!(status, "Downloading core melonDS DS...");
}

#[test]
fn active_emulator_status_lines() {
    let names = vec!["Ryujinx".to_string(), "Citron".to_string()];
    assert_eq!(
        active_step_status(ActiveEmulatorStep::NoneConfigured, "Nintendo Switch", &[]).as_deref(),
        Some("No emulator configured for Nintendo Switch. Press [m] to configure one.")
    );
    assert_eq!(
        active_step_status(ActiveEmulatorStep::OnlyOne, "Nintendo Switch", &names[..1]).as_deref(),
        Some("Nintendo Switch has only one configured emulator: Ryujinx.")
    );
    assert_eq!(active_step_status(ActiveEmulatorStep::Unchanged, "Nintendo Switch", &names), None);
    assert_eq!(
        active_step_status(ActiveEmulatorStep::SwitchTo(1), "Nintendo Switch", &names).as_deref(),
        Some("Active emulator for Nintendo Switch: Citron")
    );
    assert_eq!(active_emulator_error_status("db locked"), "Error changing active emulator: db locked");
    assert_eq!(active_core_status("RetroArch", "Snes9x"), "Core for RetroArch: Snes9x");
}

#[test]
fn retroarch_offers_installed_catalogue_cores_in_order() {
    let catalog = vec![
        ("desmume".to_string(), "DeSmuME".to_string()),
        ("melonds".to_string(), "melonDS".to_string()),
        ("melondsds".to_string(), "melonDS DS".to_string()),
    ];
    let keys: Vec<String> = installed_cores(&catalog, &[true, false, true]).into_iter().map(|c| c.0).collect();
    assert_eq!(keys, vec!["desmume", "melondsds"]);
    assert!(installed_cores(&catalog, &[false, false, false]).is_empty());
    assert_eq!(installed_cores(&catalog, &[false, true, false]), vec![("melonds".to_string(), "melonDS".to_string())]);
}
