//! Keyboard and controller navigation of the cover/banner/icon picker: its
//! tab bar, search box and result lists, and choosing the highlighted image.
use vstd::prelude::*;
use crate::text::{copy_opt_string, copy_string, decimal_spec, opt_view, push_decimal, push_str, str_eq, string_from_chars};

verus! {

/// The navigation state of the media picker. Sections: 0 the tab bar, 1 the
/// search box, 2 the list of the active tab. Tabs: 0 search results, 1
/// covers, 2 banners, 3 icons.
#[derive(Debug, Clone, Copy, PartialEq, Eq, Structural)]
pub struct MediaPicker {
    pub active_tab: usize,
    pub focused_section: usize,
    /// Cursor in the search text (a byte offset).
    pub cursor_pos: usize,
    /// Byte length of the search text.
    pub query_len: usize,
    pub candidate_count: usize,
    pub selected_candidate_idx: usize,
    pub cover_count: usize,
    pub selected_cover_idx: usize,
    pub chosen_cover_idx: Option<usize>,
    pub banner_count: usize,
    pub selected_banner_idx: usize,
    pub chosen_banner_idx: Option<usize>,
    pub icon_count: usize,
    pub selected_icon_idx: usize,
    pub chosen_icon_idx: Option<usize>,
}

/// A navigation key of the media picker.
#[derive(Debug, Clone, Copy, PartialEq, Eq, Structural)]
pub enum MediaKey {
    Up,
    Down,
    Left,
    Right,
    /// The next tab ([Tab] or the right bumper).
    NextTab,
    /// The previous tab.
    PrevTab,
    /// Jump to a tab (taken modulo the four tabs).
    SetTab(usize),
    /// The next item of the active list (the generic ▼ of the modals).
    SelectNext,
    /// The previous item of the active list.
    SelectPrev,
    /// Choose the highlighted image of the active tab, or un-choose it.
    Toggle,
}

/// A selection inside its list (or 0 for an empty list).
pub open spec fn sel_ok(sel: usize, count: usize) -> bool {
    sel < count || sel == 0
}

impl MediaPicker {
    /// The counters leave room for one more step (a machine limit).
    pub open spec fn fits(self) -> bool {
        &&& self.active_tab + 3 <= usize::MAX
        &&& self.selected_candidate_idx < usize::MAX
        &&& self.selected_cover_idx < usize::MAX
        &&& self.selected_banner_idx < usize::MAX
        &&& self.selected_icon_idx < usize::MAX
    }

    /// The active tab is one of the four, and each selection is inside its list.
    pub open spec fn wf(self) -> bool {
        &&& self.active_tab < 4
        &&& sel_ok(self.selected_candidate_idx, self.candidate_count)
        &&& sel_ok(self.selected_cover_idx, self.cover_count)
        &&& sel_ok(self.selected_banner_idx, self.banner_count)
        &&& sel_ok(self.selected_icon_idx, self.icon_count)
    }
}

/// One step forward through a list, wrapping; an empty list keeps `sel`.
pub open spec fn next_in(sel: usize, count: usize) -> usize {
    if count > 0 {
        ((sel + 1) % (count as int)) as usize
    } else {
        sel
    }
}

/// One step back through a list, wrapping; an empty list keeps `sel`.
pub open spec fn prev_in(sel: usize, count: usize) -> usize {
    if count > 0 {
        if sel == 0 {
            (count - 1) as usize
        } else {
            (sel - 1) as usize
        }
    } else {
        sel
    }
}

/// One step back, stopping at the first item.
pub open spec fn dec(sel: usize) -> usize {
    if sel > 0 {
        (sel - 1) as usize
    } else {
        0
    }
}

/// The picker after ▼ in the list of the active tab (tab 3 and above: icons).
pub open spec fn list_forward(p: MediaPicker) -> MediaPicker {
    if p.active_tab == 0 {
        MediaPicker { selected_candidate_idx: next_in(p.selected_candidate_idx, p.candidate_count), ..p }
    } else if p.active_tab == 1 {
        MediaPicker { selected_cover_idx: next_in(p.selected_cover_idx, p.cover_count), ..p }
    } else if p.active_tab == 2 {
        MediaPicker { selected_banner_idx: next_in(p.selected_banner_idx, p.banner_count), ..p }
    } else {
        MediaPicker { selected_icon_idx: next_in(p.selected_icon_idx, p.icon_count), ..p }
    }
}

/// The picker after ◀ in the list of the active tab.
pub open spec fn list_back(p: MediaPicker) -> MediaPicker {
    if p.active_tab == 0 {
        MediaPicker { selected_candidate_idx: dec(p.selected_candidate_idx), ..p }
    } else if p.active_tab == 1 {
        MediaPicker { selected_cover_idx: dec(p.selected_cover_idx), ..p }
    } else if p.active_tab == 2 {
        MediaPicker { selected_banner_idx: dec(p.selected_banner_idx), ..p }
    } else {
        MediaPicker { selected_icon_idx: dec(p.selected_icon_idx), ..p }
    }
}

/// The selection of the active tab's list.
pub open spec fn current_selection(p: MediaPicker) -> usize {
    if p.active_tab == 0 {
        p.selected_candidate_idx
    } else if p.active_tab == 1 {
        p.selected_cover_idx
    } else if p.active_tab == 2 {
        p.selected_banner_idx
    } else {
        p.selected_icon_idx
    }
}

/// The image choice after the toggle on `selected`.
pub open spec fn toggled(chosen: Option<usize>, selected: usize) -> Option<usize> {
    if chosen == Some(selected) {
        None
    } else {
        Some(selected)
    }
}

/// The picker after one key.
pub open spec fn media_step(p: MediaPicker, key: MediaKey) -> MediaPicker {
    match key {
        MediaKey::Up => if p.focused_section == 1 {
            MediaPicker { focused_section: 0, ..p }
        } else if p.focused_section == 2 {
            if current_selection(p) == 0 {
                MediaPicker {
                    focused_section: if p.active_tab == 0 {
                        1
                    } else {
                        0
                    },
                    ..p
                }
            } else {
                list_back(p)
            }
        } else {
            p
        },
        MediaKey::Down => if p.focused_section == 0 {
            MediaPicker {
                focused_section: if p.active_tab == 0 {
                    1
                } else {
                    2
                },
                ..p
            }
        } else if p.focused_section == 1 {
            MediaPicker { focused_section: 2, ..p }
        } else if p.focused_section == 2 {
            list_forward(p)
        } else {
            p
        },
        MediaKey::Left => if p.focused_section == 0 {
            MediaPicker { active_tab: ((p.active_tab + 3) % 4) as usize, ..p }
        } else if p.focused_section == 1 {
            MediaPicker { cursor_pos: dec(p.cursor_pos), ..p }
        } else if p.focused_section == 2 {
            list_back(p)
        } else {
            p
        },
        MediaKey::Right => if p.focused_section == 0 {
            MediaPicker { active_tab: ((p.active_tab + 1) % 4) as usize, ..p }
        } else if p.focused_section == 1 {
            MediaPicker {
                cursor_pos: if p.cursor_pos < p.query_len {
                    (p.cursor_pos + 1) as usize
                } else {
                    p.query_len
                },
                ..p
            }
        } else if p.focused_section == 2 {
            list_forward(p)
        } else {
            p
        },
        MediaKey::NextTab => MediaPicker { active_tab: ((p.active_tab + 1) % 4) as usize, ..p },
        MediaKey::PrevTab => MediaPicker { active_tab: ((p.active_tab + 3) % 4) as usize, ..p },
        MediaKey::SetTab(t) => MediaPicker { active_tab: (t % 4) as usize, ..p },
        MediaKey::SelectNext => if p.active_tab == 0 {
            MediaPicker { selected_candidate_idx: next_in(p.selected_candidate_idx, p.candidate_count), ..p }
        } else if p.active_tab == 1 {
            MediaPicker { selected_cover_idx: next_in(p.selected_cover_idx, p.cover_count), ..p }
        } else if p.active_tab == 2 {
            MediaPicker { selected_banner_idx: next_in(p.selected_banner_idx, p.banner_count), ..p }
        } else if p.active_tab == 3 {
            MediaPicker { selected_icon_idx: next_in(p.selected_icon_idx, p.icon_count), ..p }
        } else {
            p
        },
        MediaKey::SelectPrev => if p.active_tab == 0 {
            MediaPicker { selected_candidate_idx: prev_in(p.selected_candidate_idx, p.candidate_count), ..p }
        } else if p.active_tab == 1 {
            MediaPicker { selected_cover_idx: prev_in(p.selected_cover_idx, p.cover_count), ..p }
        } else if p.active_tab == 2 {
            MediaPicker { selected_banner_idx: prev_in(p.selected_banner_idx, p.banner_count), ..p }
        } else if p.active_tab == 3 {
            MediaPicker { selected_icon_idx: prev_in(p.selected_icon_idx, p.icon_count), ..p }
        } else {
            p
        },
        MediaKey::Toggle => if p.active_tab == 1 {
            MediaPicker { chosen_cover_idx: toggled(p.chosen_cover_idx, p.selected_cover_idx), ..p }
        } else if p.active_tab == 2 {
            MediaPicker { chosen_banner_idx: toggled(p.chosen_banner_idx, p.selected_banner_idx), ..p }
        } else if p.active_tab == 3 {
            MediaPicker { chosen_icon_idx: toggled(p.chosen_icon_idx, p.selected_icon_idx), ..p }
        } else {
            p
        },
    }
}

fn next_idx(sel: usize, count: usize) -> (r: usize)
    requires
        sel < usize::MAX,
    ensures
        r == next_in(sel, count),
{
    if count > 0 {
        (sel + 1) % count
    } else {
        sel
    }
}

fn prev_idx(sel: usize, count: usize) -> (r: usize)
    ensures
        r == prev_in(sel, count),
{
    if count > 0 {
        if sel == 0 {
            count - 1
        } else {
            sel - 1
        }
    } else {
        sel
    }
}

fn dec_idx(sel: usize) -> (r: usize)
    ensures
        r == dec(sel),
{
    if sel > 0 {
        sel - 1
    } else {
        0
    }
}

fn toggle_idx(chosen: Option<usize>, selected: usize) -> (r: Option<usize>)
    ensures
        r == toggled(chosen, selected),
{
    match chosen {
        Some(c) => if c == selected {
            None
        } else {
            Some(selected)
        },
        None => Some(selected),
    }
}

/// Apply a navigation key to the media picker.
pub fn media_key(p: &mut MediaPicker, key: MediaKey)
    requires
        old(p).fits(),
    ensures
        *final(p) == media_step(*old(p), key),
        old(p).wf() ==> final(p).wf(),
{
    proof {
        if p.wf() {
            lemma_media_step_keeps_wf(*p, key);
        }
    }
    match key {
        MediaKey::Up => {
            if p.focused_section == 1 {
                p.focused_section = 0;
            } else if p.focused_section == 2 {
                let cur = if p.active_tab == 0 {
                    p.selected_candidate_idx
                } else if p.active_tab == 1 {
                    p.selected_cover_idx
                } else if p.active_tab == 2 {
                    p.selected_banner_idx
                } else {
                    p.selected_icon_idx
                };
                if cur == 0 {
                    p.focused_section = if p.active_tab == 0 {
                        1
                    } else {
                        0
                    };
                } else {
                    list_back_exec(p);
                }
            }
        },
        MediaKey::Down => {
            if p.focused_section == 0 {
                p.focused_section = if p.active_tab == 0 {
                    1
                } else {
                    2
                };
            } else if p.focused_section == 1 {
                p.focused_section = 2;
            } else if p.focused_section == 2 {
                list_forward_exec(p);
            }
        },
        MediaKey::Left => {
            if p.focused_section == 0 {
                p.active_tab = (p.active_tab + 3) % 4;
            } else if p.focused_section == 1 {
                p.cursor_pos = dec_idx(p.cursor_pos);
            } else if p.focused_section == 2 {
                list_back_exec(p);
            }
        },
        MediaKey::Right => {
            if p.focused_section == 0 {
                p.active_tab = (p.active_tab + 1) % 4;
            } else if p.focused_section == 1 {
                p.cursor_pos = if p.cursor_pos < p.query_len {
                    p.cursor_pos + 1
                } else {
                    p.query_len
                };
            } else if p.focused_section == 2 {
                list_forward_exec(p);
            }
        },
        MediaKey::NextTab => {
            p.active_tab = (p.active_tab + 1) % 4;
        },
        MediaKey::PrevTab => {
            p.active_tab = (p.active_tab + 3) % 4;
        },
        MediaKey::SetTab(t) => {
            p.active_tab = t % 4;
        },
        MediaKey::SelectNext => {
            if p.active_tab == 0 {
                p.selected_candidate_idx = next_idx(p.selected_candidate_idx, p.candidate_count);
            } else if p.active_tab == 1 {
                p.selected_cover_idx = next_idx(p.selected_cover_idx, p.cover_count);
            } else if p.active_tab == 2 {
                p.selected_banner_idx = next_idx(p.selected_banner_idx, p.banner_count);
            } else if p.active_tab == 3 {
                p.selected_icon_idx = next_idx(p.selected_icon_idx, p.icon_count);
            }
        },
        MediaKey::SelectPrev => {
            if p.active_tab == 0 {
                p.selected_candidate_idx = prev_idx(p.selected_candidate_idx, p.candidate_count);
            } else if p.active_tab == 1 {
                p.selected_cover_idx = prev_idx(p.selected_cover_idx, p.cover_count);
            } else if p.active_tab == 2 {
                p.selected_banner_idx = prev_idx(p.selected_banner_idx, p.banner_count);
            } else if p.active_tab == 3 {
                p.selected_icon_idx = prev_idx(p.selected_icon_idx, p.icon_count);
            }
        },
        MediaKey::Toggle => {
            if p.active_tab == 1 {
                p.chosen_cover_idx = toggle_idx(p.chosen_cover_idx, p.selected_cover_idx);
            } else if p.active_tab == 2 {
                p.chosen_banner_idx = toggle_idx(p.chosen_banner_idx, p.selected_banner_idx);
            } else if p.active_tab == 3 {
                p.chosen_icon_idx = toggle_idx(p.chosen_icon_idx, p.selected_icon_idx);
            }
        },
    }
}

fn list_forward_exec(p: &mut MediaPicker)
    requires
        old(p).fits(),
    ensures
        *final(p) == list_forward(*old(p)),
{
    if p.active_tab == 0 {
        p.selected_candidate_idx = next_idx(p.selected_candidate_idx, p.candidate_count);
    } else if p.active_tab == 1 {
        p.selected_cover_idx = next_idx(p.selected_cover_idx, p.cover_count);
    } else if p.active_tab == 2 {
        p.selected_banner_idx = next_idx(p.selected_banner_idx, p.banner_count);
    } else {
        p.selected_icon_idx = next_idx(p.selected_icon_idx, p.icon_count);
    }
}

fn list_back_exec(p: &mut MediaPicker)
    ensures
        *final(p) == list_back(*old(p)),
{
    if p.active_tab == 0 {
        p.selected_candidate_idx = dec_idx(p.selected_candidate_idx);
    } else if p.active_tab == 1 {
        p.selected_cover_idx = dec_idx(p.selected_cover_idx);
    } else if p.active_tab == 2 {
        p.selected_banner_idx = dec_idx(p.selected_banner_idx);
    } else {
        p.selected_icon_idx = dec_idx(p.selected_icon_idx);
    }
}

/// Every key keeps the active tab one of the four and each selection inside
/// its list.
pub proof fn lemma_media_step_keeps_wf(p: MediaPicker, key: MediaKey)
    requires
        p.wf(),
    ensures
        media_step(p, key).wf(),
{
}

/// The next tab and then the previous one (or the other way round) return
/// to the same tab, and four steps go all the way round.
pub proof fn lemma_tabs_round_trip(p: MediaPicker)
    requires
        p.wf(),
    ensures
        media_step(media_step(p, MediaKey::NextTab), MediaKey::PrevTab) == p,
        media_step(media_step(p, MediaKey::PrevTab), MediaKey::NextTab) == p,
        media_step(
            media_step(media_step(media_step(p, MediaKey::NextTab), MediaKey::NextTab), MediaKey::NextTab),
            MediaKey::NextTab,
        ) == p,
{
}

/// Pressing the choose key twice on the highlighted image restores the
/// choice when it was that image or nothing, and the key never moves the tab.
pub proof fn lemma_toggle_twice(p: MediaPicker)
    ensures
        ({
            let q = media_step(media_step(p, MediaKey::Toggle), MediaKey::Toggle);
            &&& q.active_tab == p.active_tab
            &&& p.active_tab == 1 ==> q.chosen_cover_idx == (if p.chosen_cover_idx == Some(
                p.selected_cover_idx,
            ) {
                Some(p.selected_cover_idx)
            } else {
                None
            })
            &&& p.active_tab == 2 ==> q.chosen_banner_idx == (if p.chosen_banner_idx == Some(
                p.selected_banner_idx,
            ) {
                Some(p.selected_banner_idx)
            } else {
                None
            })
            &&& p.active_tab == 3 ==> q.chosen_icon_idx == (if p.chosen_icon_idx == Some(
                p.selected_icon_idx,
            ) {
                Some(p.selected_icon_idx)
            } else {
                None
            })
        }),
{
}

/// The first image of a non-empty list, none of an empty one.
pub open spec fn first_choice(count: usize) -> Option<usize> {
    if count > 0 {
        Some(0)
    } else {
        None
    }
}

/// A search result was picked and its images loaded: the lists take their
/// new lengths, the first image of each is chosen, and the covers tab opens.
pub fn load_candidate_media(p: &mut MediaPicker, cover_count: usize, banner_count: usize, icon_count: usize)
    ensures
        *final(p) == (MediaPicker {
            cover_count,
            chosen_cover_idx: first_choice(cover_count),
            banner_count,
            chosen_banner_idx: first_choice(banner_count),
            icon_count,
            chosen_icon_idx: first_choice(icon_count),
            active_tab: 1,
            ..*old(p)
        }),
{
    p.cover_count = cover_count;
    p.chosen_cover_idx = if cover_count > 0 {
        Some(0)
    } else {
        None
    };
    p.banner_count = banner_count;
    p.chosen_banner_idx = if banner_count > 0 {
        Some(0)
    } else {
        None
    };
    p.icon_count = icon_count;
    p.chosen_icon_idx = if icon_count > 0 {
        Some(0)
    } else {
        None
    };
    p.active_tab = 1;
}

/// The search text the picker opens with: the cleaned-up title, or the
/// title itself when cleaning leaves nothing.
pub fn initial_query(title: &str, cleaned: &str) -> (q: String)
    ensures
        q@ == if cleaned@.len() == 0 {
            title@
        } else {
            cleaned@
        },
{
    if cleaned.is_empty() {
        copy_string(title)
    } else {
        copy_string(cleaned)
    }
}

/// The status line while SteamGridDB is searched for `query`.
pub fn searching_status(query: &str) -> (s: String)
    ensures
        s@ == "Searching SteamGridDB for '"@ + query@ + "'..."@,
{
    let mut t: Vec<char> = Vec::new();
    push_str(&mut t, "Searching SteamGridDB for '");
    push_str(&mut t, query);
    push_str(&mut t, "'...");
    string_from_chars(&t)
}

/// The status line when a search found `n` results.
pub fn candidates_found_status(n: usize) -> (s: String)
    ensures
        s@ == "[OK] Found "@ + decimal_spec(n as nat) + " candidate(s) on SteamGridDB."@,
{
    let mut t: Vec<char> = Vec::new();
    push_str(&mut t, "[OK] Found ");
    push_decimal(&mut t, n);
    push_str(&mut t, " candidate(s) on SteamGridDB.");
    string_from_chars(&t)
}

/// The status lines while the images of result `name` load, and once they
/// have.
pub fn candidate_status_lines(name: &str) -> (r: (String, String))
    ensures
        r.0@ == "Loading media options for '"@ + name@ + "'..."@,
        r.1@ == "[OK] Selected candidate '"@ + name@
            + "'. Cover, Banner & Icon pre-selected. Press [Enter] to apply all."@,
{
    let mut a: Vec<char> = Vec::new();
    push_str(&mut a, "Loading media options for '");
    push_str(&mut a, name);
    push_str(&mut a, "'...");
    let mut b: Vec<char> = Vec::new();
    push_str(&mut b, "[OK] Selected candidate '");
    push_str(&mut b, name);
    push_str(&mut b, "'. Cover, Banner & Icon pre-selected. Press [Enter] to apply all.");
    (string_from_chars(&a), string_from_chars(&b))
}

/// A chosen image position that names an image of its list.
pub open spec fn applies(chosen: Option<usize>, count: usize) -> bool {
    chosen matches Some(i) && i < count
}

/// The kinds of image an [Enter] applies, in order: Cover, Banner, Icon.
pub open spec fn applied_kinds(p: MediaPicker) -> Seq<Seq<char>> {
    let a = if applies(p.chosen_cover_idx, p.cover_count) {
        seq!["Cover"@]
    } else {
        Seq::empty()
    };
    let b = if applies(p.chosen_banner_idx, p.banner_count) {
        a.push("Banner"@)
    } else {
        a
    };
    if applies(p.chosen_icon_idx, p.icon_count) {
        b.push("Icon"@)
    } else {
        b
    }
}

/// The status line after [Enter] applied the chosen images: the kinds
/// applied, and the new title when the picked result renamed the game
/// (`renamed_to`); with no image applied, only the title update.
pub fn apply_media_status(p: &MediaPicker, candidate_name: &Option<String>, renamed_to: &Option<String>) -> (s: String)
    ensures
        applied_kinds(*p).len() == 0 ==> s@ == "[OK] Updated title to '"@ + (match candidate_name {
            Some(n) => n@,
            None => Seq::<char>::empty(),
        }) + "'!"@,
        applied_kinds(*p).len() > 0 ==> s@ == "[OK] Applied media ("@ + crate::text::join_spec(
            applied_kinds(*p),
            ", "@,
        ) + ")"@ + (match renamed_to {
            Some(n) => " & updated title to '"@ + n@ + "'"@,
            None => Seq::<char>::empty(),
        }) + "!"@,
{
    let cover = match p.chosen_cover_idx {
        Some(i) => i < p.cover_count,
        None => false,
    };
    let banner = match p.chosen_banner_idx {
        Some(i) => i < p.banner_count,
        None => false,
    };
    let icon = match p.chosen_icon_idx {
        Some(i) => i < p.icon_count,
        None => false,
    };
    let mut t: Vec<char> = Vec::new();
    if !cover && !banner && !icon {
        push_str(&mut t, "[OK] Updated title to '");
        match candidate_name {
            Some(n) => push_str(&mut t, n.as_str()),
            None => {},
        }
        push_str(&mut t, "'!");
        return string_from_chars(&t);
    }
    push_str(&mut t, "[OK] Applied media (");
    let ghost start = t@;
    let mut first = true;
    if cover {
        push_str(&mut t, "Cover");
        first = false;
    }
    assert(t@ == start + crate::text::join_spec(
        if cover { seq!["Cover"@] } else { Seq::empty() },
        ", "@,
    )) by {
        if cover {
            assert(t@ =~= start + "Cover"@);
        } else {
            assert(t@ =~= start);
        }
    }
    let ghost a = if cover { seq!["Cover"@] } else { Seq::<Seq<char>>::empty() };
    if banner {
        if !first {
            push_str(&mut t, ", ");
        }
        push_str(&mut t, "Banner");
        first = false;
        proof {
            let a2 = a.push("Banner"@);
            assert(a2.drop_last() =~= a);
            if a.len() == 0 {
                assert(t@ =~= start + a2[0]);
            } else {
                assert(t@ =~= start + (crate::text::join_spec(a, ", "@) + ", "@ + a2.last()));
            }
        }
    }
    let ghost b = if banner { a.push("Banner"@) } else { a };
    if icon {
        if !first {
            push_str(&mut t, ", ");
        }
        push_str(&mut t, "Icon");
        proof {
            let b2 = b.push("Icon"@);
            assert(b2.drop_last() =~= b);
            if b.len() == 0 {
                assert(t@ =~= start + b2[0]);
            } else {
                assert(t@ =~= start + (crate::text::join_spec(b, ", "@) + ", "@ + b2.last()));
            }
        }
    }
    push_str(&mut t, ")");
    match renamed_to {
        Some(n) => {
            push_str(&mut t, " & updated title to '");
            push_str(&mut t, n.as_str());
            push_str(&mut t, "'");
        },
        None => {},
    }
    push_str(&mut t, "!");
    string_from_chars(&t)
}

/// An image offered by the picker: its full-size URL and, when the service
/// has one, a thumbnail URL.
#[derive(Debug, Clone)]
pub struct ImageRef {
    pub url: String,
    pub thumb: Option<String>,
}

/// The URL previewed for an image: its thumbnail, else the image itself.
pub open spec fn preview_of(img: ImageRef) -> Seq<char> {
    match img.thumb {
        Some(t) => t@,
        None => img.url@,
    }
}

pub open spec fn preview_in(list: Seq<ImageRef>, sel: usize) -> Option<Seq<char>> {
    if sel < list.len() {
        Some(preview_of(list[sel as int]))
    } else {
        None
    }
}

/// The image previewed for the active tab: the highlighted cover, banner or
/// icon; none on the search results tab or past the end of a list.
pub open spec fn preview_target_spec(
    active_tab: usize,
    covers: Seq<ImageRef>,
    sel_cover: usize,
    banners: Seq<ImageRef>,
    sel_banner: usize,
    icons: Seq<ImageRef>,
    sel_icon: usize,
) -> Option<Seq<char>> {
    if active_tab == 1 {
        preview_in(covers, sel_cover)
    } else if active_tab == 2 {
        preview_in(banners, sel_banner)
    } else if active_tab == 3 {
        preview_in(icons, sel_icon)
    } else {
        None
    }
}

fn preview_in_exec(list: &[ImageRef], sel: usize) -> (r: Option<String>)
    ensures
        opt_view(r) == preview_in(list@, sel),
{
    if sel < list.len() {
        match &list[sel].thumb {
            Some(t) => Some(copy_string(t.as_str())),
            None => Some(copy_string(list[sel].url.as_str())),
        }
    } else {
        None
    }
}

pub fn preview_target(
    active_tab: usize,
    covers: &[ImageRef],
    sel_cover: usize,
    banners: &[ImageRef],
    sel_banner: usize,
    icons: &[ImageRef],
    sel_icon: usize,
) -> (r: Option<String>)
    ensures
        opt_view(r) == preview_target_spec(active_tab, covers@, sel_cover, banners@, sel_banner, icons@, sel_icon),
{
    if active_tab == 1 {
        preview_in_exec(covers, sel_cover)
    } else if active_tab == 2 {
        preview_in_exec(banners, sel_banner)
    } else if active_tab == 3 {
        preview_in_exec(icons, sel_icon)
    } else {
        None
    }
}

/// What the preview pane does when the highlighted image may have changed.
#[derive(Debug, PartialEq, Eq)]
pub enum PreviewStep {
    /// The same image is already previewed: nothing to do.
    Keep,
    /// Preview this URL (from the cache, else downloaded).
    Load(String),
    /// No image is highlighted: clear the preview.
    Clear,
}

pub fn preview_step(current: &Option<String>, target: Option<String>) -> (r: PreviewStep)
    ensures
        match target {
            Some(t) => if opt_view(*current) == Some(t@) {
                r == PreviewStep::Keep
            } else {
                r matches PreviewStep::Load(u) && u@ == t@
            },
            None => r == PreviewStep::Clear,
        },
{
    match target {
        Some(t) => {
            let same = match current {
                Some(c) => str_eq(c.as_str(), t.as_str()),
                None => false,
            };
            if same {
                PreviewStep::Keep
            } else {
                PreviewStep::Load(t)
            }
        },
        None => PreviewStep::Clear,
    }
}

/// What a preview step does, as plain values.
pub enum PreviewStepView {
    Keep,
    Load(Seq<char>),
    Clear,
}

/// A preview step as plain values.
pub open spec fn step_view(r: PreviewStep) -> PreviewStepView {
    match r {
        PreviewStep::Keep => PreviewStepView::Keep,
        PreviewStep::Load(u) => PreviewStepView::Load(u@),
        PreviewStep::Clear => PreviewStepView::Clear,
    }
}

/// The preview step from the previewed URL `current` to the highlighted
/// image `target`: nothing when it is already previewed, a load of a new
/// image, or clearing when nothing is highlighted.
pub open spec fn preview_step_spec(current: Option<Seq<char>>, target: Option<Seq<char>>) -> PreviewStepView {
    match target {
        Some(t) => if current == Some(t) {
            PreviewStepView::Keep
        } else {
            PreviewStepView::Load(t)
        },
        None => PreviewStepView::Clear,
    }
}

/// The previewed URL after moving the preview to `target`.
pub open spec fn preview_after(current: Option<Seq<char>>, target: Option<Seq<char>>) -> Option<Seq<char>> {
    target
}

/// Moving the preview to the highlighted image `target`: the previewed URL
/// becomes `target` and the step says what to do for it (nothing when it
/// was already previewed).
pub fn update_preview(current: &mut Option<String>, target: Option<String>) -> (r: PreviewStep)
    ensures
        opt_view(*final(current)) == preview_after(opt_view(*old(current)), opt_view(target)),
        step_view(r) == preview_step_spec(opt_view(*old(current)), opt_view(target)),
{
    let r = preview_step(current, copy_opt_string(&target));
    match &r {
        PreviewStep::Keep => {},
        PreviewStep::Load(u) => {
            *current = Some(copy_string(u.as_str()));
        },
        PreviewStep::Clear => {
            *current = None;
        },
    }
    r
}

/// Moving the preview to the same image twice acts like once: the second
/// move leaves the previewed URL as the first left it and starts no new
/// load; where an image is highlighted it does nothing, and where none is
/// it clears again what is already clear.
pub proof fn lemma_preview_twice(current: Option<Seq<char>>, target: Option<Seq<char>>)
    ensures
        preview_after(preview_after(current, target), target) == preview_after(current, target),
        !(preview_step_spec(preview_after(current, target), target) is Load),
        target is Some ==> preview_step_spec(preview_after(current, target), target) == PreviewStepView::Keep,
        target is None ==> preview_step_spec(preview_after(current, target), target) == preview_step_spec(
            current,
            target,
        ),
{
}

/// Whether an image loaded for the preview pane is shown: only when it is
/// for the URL previewed now (a late image of another URL is dropped).
pub fn preview_event_applies(current: &Option<String>, url: &str) -> (b: bool)
    ensures
        b == (opt_view(*current) == Some(url@)),
{
    match current {
        Some(c) => str_eq(c.as_str(), url),
        None => false,
    }
}

} // verus!
