use tui_game_station::edit_game_details::{core_assigned_status, emulator_assigned_status, EditGameFormHelper};
use tui_game_station::runners::Runner;

fn runner(id: i64, name: &str, active: bool, exe: Option<&str>) -> Runner {
    Runner {
        id,
        name: name.to_string(),
        runner_type: "appimage".to_string(),
        is_active: active,
        executable_path: exe.map(|s| s.to_string()),
        has_default_core: false,
    }
}

#[test]
fn test_get_emulator_choices_labels() {
    let ryujinx = runner(1, "Ryujinx", true, Some("/fake/ryujinx"));
    let citron = runner(2, "Citron", false, Some("/fake/citron"));
    let runners = vec![ryujinx, citron];

    // 1. Inherited from platform
    let choices = EditGameFormHelper::get_emulator_choices(&runners);
    assert_eq!(choices[0].display_label, "Default");

    // 2. Inherited from folder
    let choices = EditGameFormHelper::get_emulator_choices(&runners);
    assert_eq!(choices[0].display_label, "Default");
    assert_eq!(choices.len(), 3); // Default, Ryujinx, Citron

    // 3. Cycle choices
    let curr = EditGameFormHelper::cycle_choice(&choices, None, false);
    assert_eq!(curr, Some(runners[0].id));
    let curr = EditGameFormHelper::cycle_choice(&choices, curr, false);
    assert_eq!(curr, Some(runners[1].id));
    let curr = EditGameFormHelper::cycle_choice(&choices, curr, false);
    assert_eq!(curr, None); // Back to inherited
}

#[test]
fn emulator_choices_skip_runners_without_executable() {
    let runners = vec![
        runner(1, "Ryujinx", true, Some("/fake/ryujinx")),
        runner(2, "Citron", false, None),
        runner(3, "Eden", false, Some("/fake/eden")),
    ];
    let choices = EditGameFormHelper::get_emulator_choices(&runners);
    let labels: Vec<&str> = choices.iter().map(|c| c.display_label.as_str()).collect();
    assert_eq!(labels, vec!["Default", "Ryujinx", "Eden"]);
    assert_eq!(choices[0].runner_id, None);
    assert_eq!(choices[2].runner_id, Some(3));
}

#[test]
fn cycle_choice_backward_wraps_and_unknown_override_counts_as_default() {
    let runners = vec![
        runner(1, "Ryujinx", true, Some("/fake/ryujinx")),
        runner(2, "Citron", false, Some("/fake/citron")),
    ];
    let choices = EditGameFormHelper::get_emulator_choices(&runners);
    assert_eq!(EditGameFormHelper::cycle_choice(&choices, None, true), Some(2));
    assert_eq!(EditGameFormHelper::cycle_choice(&choices, Some(1), true), None);
    assert_eq!(EditGameFormHelper::cycle_choice(&choices, Some(99), false), Some(1));
    assert_eq!(EditGameFormHelper::get_current_choice_idx(&choices, Some(2)), 2);
    assert_eq!(EditGameFormHelper::get_current_choice_idx(&choices, Some(99)), 0);
    assert_eq!(EditGameFormHelper::get_current_choice_idx(&choices, None), 0);
    assert_eq!(EditGameFormHelper::cycle_choice(&[], Some(1), false), None);
}

#[test]
fn core_choices_start_with_default_and_cycle_through_keys() {
    let cores = vec![
        ("melondsds".to_string(), "melonDS DS".to_string()),
        ("desmume".to_string(), "DeSmuME".to_string()),
    ];
    let choices = EditGameFormHelper::get_core_choices(cores);
    assert_eq!(choices.len(), 3);
    assert_eq!(choices[0].core_key, None);
    assert_eq!(choices[0].display_label, "Default");
    assert_eq!(choices[1].core_key.as_deref(), Some("melondsds"));
    assert_eq!(choices[2].display_label, "DeSmuME");

    let next = EditGameFormHelper::cycle_core_choice(&choices, None, false);
    assert_eq!(next.as_deref(), Some("melondsds"));
    let next = EditGameFormHelper::cycle_core_choice(&choices, Some("desmume"), false);
    assert_eq!(next, None);
    let prev = EditGameFormHelper::cycle_core_choice(&choices, None, true);
    assert_eq!(prev.as_deref(), Some("desmume"));
    let unknown = EditGameFormHelper::cycle_core_choice(&choices, Some("nope"), false);
    assert_eq!(unknown.as_deref(), Some("melondsds"));
}

#[test]
fn assignment_status_lines_name_the_choice() {
    let runners = vec![
        runner(1, "Ryujinx", true, Some("/fake/ryujinx")),
        runner(2, "Citron", false, Some("/fake/citron")),
    ];
    let choices = EditGameFormHelper::get_emulator_choices(&runners);
    assert_eq!(emulator_assigned_status(&choices, Some(2)), "Emulator assigned to game: Citron");
    assert_eq!(emulator_assigned_status(&choices, None), "Emulator assigned to game: Default");
    assert_eq!(emulator_assigned_status(&choices, Some(77)), "Emulator assigned to game: Default");

    let cores = EditGameFormHelper::get_core_choices(vec![
        ("snes9x".to_string(), "Snes9x".to_string()),
        ("bsnes".to_string(), "bsnes".to_string()),
    ]);
    assert_eq!(core_assigned_status(&cores, &Some("bsnes".to_string())), "Core assigned to game: bsnes");
    assert_eq!(core_assigned_status(&cores, &None), "Core assigned to game: Default");
    assert_eq!(core_assigned_status(&cores, &Some("gone".to_string())), "Core assigned to game: Default");
}

#[test]
fn emulator_override_forward_then_back_returns() {
    let runners = vec![
        runner(3, "mGBA", false, Some("/usr/bin/mgba")),
        runner(8, "VBA-M", true, Some("/usr/bin/vbam")),
    ];
    let choices = EditGameFormHelper::get_emulator_choices(&runners);
    for start in [None, Some(3), Some(8)] {
        for prev in [false, true] {
            let once = EditGameFormHelper::cycle_choice(&choices, start, prev);
            assert_eq!(EditGameFormHelper::cycle_choice(&choices, once, !prev), start);
        }
    }
}
