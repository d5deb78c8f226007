use tui_game_station::media_picker::{preview_event_applies, update_preview};
use tui_game_station::media_picker::{
    apply_media_status, candidate_status_lines, candidates_found_status, initial_query,
    load_candidate_media, media_key, searching_status, MediaKey, MediaPicker,
    preview_step, preview_target, ImageRef, PreviewStep,
};

fn picker() -> MediaPicker {
    MediaPicker {
        active_tab: 0,
        focused_section: 0,
        cursor_pos: 0,
        query_len: 5,
        candidate_count: 3,
        selected_candidate_idx: 0,
        cover_count: 4,
        selected_cover_idx: 0,
        chosen_cover_idx: None,
        banner_count: 0,
        selected_banner_idx: 0,
        chosen_banner_idx: None,
        icon_count: 2,
        selected_icon_idx: 0,
        chosen_icon_idx: None,
    }
}

#[test]
fn sections_and_tabs() {
    let mut p = picker();
    media_key(&mut p, MediaKey::Down);
    assert_eq!(p.focused_section, 1);
    media_key(&mut p, MediaKey::Right);
    assert_eq!(p.cursor_pos, 1);
    media_key(&mut p, MediaKey::Down);
    assert_eq!(p.focused_section, 2);
    media_key(&mut p, MediaKey::Down);
    assert_eq!(p.selected_candidate_idx, 1);
    media_key(&mut p, MediaKey::Up);
    assert_eq!(p.selected_candidate_idx, 0);
    media_key(&mut p, MediaKey::Up);
    assert_eq!(p.focused_section, 1);
    media_key(&mut p, MediaKey::Up);
    assert_eq!(p.focused_section, 0);
    media_key(&mut p, MediaKey::Left);
    assert_eq!(p.active_tab, 3);
    media_key(&mut p, MediaKey::Down);
    assert_eq!(p.focused_section, 2);
    media_key(&mut p, MediaKey::Up);
    assert_eq!(p.focused_section, 0);
    media_key(&mut p, MediaKey::SetTab(6));
    assert_eq!(p.active_tab, 2);
    media_key(&mut p, MediaKey::NextTab);
    media_key(&mut p, MediaKey::PrevTab);
    assert_eq!(p.active_tab, 2);
}

#[test]
fn lists_wrap_and_choices_toggle() {
    let mut p = picker();
    p.active_tab = 1;
    p.focused_section = 2;
    for _ in 0..4 {
        media_key(&mut p, MediaKey::Right);
    }
    assert_eq!(p.selected_cover_idx, 0);
    media_key(&mut p, MediaKey::SelectPrev);
    assert_eq!(p.selected_cover_idx, 3);
    media_key(&mut p, MediaKey::Toggle);
    assert_eq!(p.chosen_cover_idx, Some(3));
    media_key(&mut p, MediaKey::Toggle);
    assert_eq!(p.chosen_cover_idx, None);
    media_key(&mut p, MediaKey::Left);
    assert_eq!(p.selected_cover_idx, 2);
    p.active_tab = 2;
    media_key(&mut p, MediaKey::SelectNext);
    assert_eq!(p.selected_banner_idx, 0);
    p.active_tab = 0;
    media_key(&mut p, MediaKey::Toggle);
    assert_eq!(p.chosen_cover_idx, None);
}

#[test]
fn picking_a_result_preselects_the_first_images() {
    let mut p = picker();
    load_candidate_media(&mut p, 5, 0, 2);
    assert_eq!(p.active_tab, 1);
    assert_eq!((p.cover_count, p.chosen_cover_idx), (5, Some(0)));
    assert_eq!((p.banner_count, p.chosen_banner_idx), (0, None));
    assert_eq!((p.icon_count, p.chosen_icon_idx), (2, Some(0)));
    assert_eq!(initial_query("Zelda (USA)", "Zelda"), "Zelda");
    assert_eq!(initial_query("(USA)", ""), "(USA)");
    assert_eq!(searching_status("Zelda"), "Searching SteamGridDB for 'Zelda'...");
    assert_eq!(candidates_found_status(3), "[OK] Found 3 candidate(s) on SteamGridDB.");
    let (loading, done) = candidate_status_lines("The Legend of Zelda");
    assert_eq!(loading, "Loading media options for 'The Legend of Zelda'...");
    assert_eq!(
        done,
        "[OK] Selected candidate 'The Legend of Zelda'. Cover, Banner & Icon pre-selected. Press [Enter] to apply all."
    );
}

#[test]
fn applying_reports_the_images_and_title() {
    let mut p = picker();
    load_candidate_media(&mut p, 5, 0, 2);
    let name = Some("Zelda".to_string());
    assert_eq!(apply_media_status(&p, &name, &name), "[OK] Applied media (Cover, Icon) & updated title to 'Zelda'!");
    assert_eq!(apply_media_status(&p, &name, &None), "[OK] Applied media (Cover, Icon)!");
    load_candidate_media(&mut p, 0, 1, 0);
    assert_eq!(apply_media_status(&p, &None, &None), "[OK] Applied media (Banner)!");
    load_candidate_media(&mut p, 0, 0, 0);
    assert_eq!(apply_media_status(&p, &name, &name), "[OK] Updated title to 'Zelda'!");
    assert_eq!(apply_media_status(&p, &None, &None), "[OK] Updated title to ''!");
    load_candidate_media(&mut p, 1, 1, 1);
    assert_eq!(apply_media_status(&p, &None, &None), "[OK] Applied media (Cover, Banner, Icon)!");
}

fn img(url: &str, thumb: Option<&str>) -> ImageRef {
    ImageRef { url: url.to_string(), thumb: thumb.map(String::from) }
}

#[test]
fn preview_follows_the_highlighted_image() {
    let covers = vec![img("c0", Some("t0")), img("c1", None)];
    let banners = vec![img("b0", None)];
    let icons: Vec<ImageRef> = Vec::new();
    assert_eq!(preview_target(1, &covers, 0, &banners, 0, &icons, 0).as_deref(), Some("t0"));
    assert_eq!(preview_target(1, &covers, 1, &banners, 0, &icons, 0).as_deref(), Some("c1"));
    assert_eq!(preview_target(2, &covers, 1, &banners, 0, &icons, 0).as_deref(), Some("b0"));
    assert_eq!(preview_target(3, &covers, 1, &banners, 0, &icons, 0), None);
    assert_eq!(preview_target(0, &covers, 1, &banners, 0, &icons, 0), None);

    assert_eq!(preview_step(&Some("t0".to_string()), Some("t0".to_string())), PreviewStep::Keep);
    assert_eq!(preview_step(&Some("t0".to_string()), Some("c1".to_string())), PreviewStep::Load("c1".to_string()));
    assert_eq!(preview_step(&None, Some("c1".to_string())), PreviewStep::Load("c1".to_string()));
    assert_eq!(preview_step(&Some("t0".to_string()), None), PreviewStep::Clear);
}

#[test]
fn preview_moves_once_and_ignores_other_urls() {
    let mut current: Option<String> = None;
    assert_eq!(update_preview(&mut current, Some("u1".to_string())), PreviewStep::Load("u1".to_string()));
    assert_eq!(current.as_deref(), Some("u1"));
    assert_eq!(update_preview(&mut current, Some("u1".to_string())), PreviewStep::Keep);
    assert_eq!(current.as_deref(), Some("u1"));
    assert!(preview_event_applies(&current, "u1"));
    assert!(!preview_event_applies(&current, "u2"));
    assert!(!preview_event_applies(&None, "u1"));
    assert_eq!(update_preview(&mut current, None), PreviewStep::Clear);
    assert_eq!(current, None);
    assert_eq!(update_preview(&mut current, None), PreviewStep::Clear);
}
