//! Platform lists and library search: which platforms each manager offers,
//! picking a platform by name, filtering games by title, and keeping the
//! platform selection in step with the selected game.
use vstd::prelude::*;
use crate::scan_form::PlatformType;
use crate::runners::Runner;
use crate::text::{contains_ignoring_case, contains_lowercase, is_blank, is_blank_spec, str_eq};

verus! {

/// A platform (console, PC runtime or store) of the library.
pub struct Platform {
    pub id: i64,
    pub name: String,
    pub slug: String,
    pub platform_type: PlatformType,
}

/// A game of the library, with what the search and selection logic reads.
pub struct GameEntry {
    pub id: i64,
    pub platform_id: i64,
    pub title: String,
}

/// Whether the Runner Manager lists a platform: all but Linux Native and Steam.
pub open spec fn runner_platform(p: Platform) -> bool {
    p.slug@ != "linux"@ && p.slug@ != "steam"@
}

/// Positions of the platforms listed by the Runner Manager, in order.
pub fn get_runner_platforms(platforms: &[Platform]) -> (r: Vec<usize>)
    ensures
        forall|k: int| 0 <= k < r@.len() ==> r@[k] < platforms@.len() && runner_platform(
            platforms@[r@[k] as int],
        ),
        forall|i: int|
            0 <= i < platforms@.len() && runner_platform(platforms@[i]) ==> r@.contains(i as usize),
        forall|a: int, b: int| 0 <= a < b < r@.len() ==> r@[a] < r@[b],
{
    let mut out: Vec<usize> = Vec::new();
    let mut i: usize = 0;
    while i < platforms.len()
        invariant
            i <= platforms.len(),
            forall|k: int| 0 <= k < out@.len() ==> out@[k] < i && runner_platform(
                platforms@[out@[k] as int],
            ),
            forall|j: int| 0 <= j < i && runner_platform(platforms@[j]) ==> out@.contains(j as usize),
            forall|a: int, b: int| 0 <= a < b < out@.len() ==> out@[a] < out@[b],
        decreases platforms.len() - i,
    {
        let p = &platforms[i];
        if !str_eq(p.slug.as_str(), "linux") && !str_eq(p.slug.as_str(), "steam") {
            let ghost before = out@;
            out.push(i);
            assert forall|j: int|
                0 <= j < i + 1 && runner_platform(platforms@[j]) implies out@.contains(j as usize) by {
                if j < i {
                    let k = choose|k: int| 0 <= k < before.len() && before[k] == j as usize;
                    assert(out@[k] == j as usize);
                } else {
                    assert(out@[before.len() as int] == i);
                }
            }
        }
        i = i + 1;
    }
    out
}

/// Whether a platform is offered by the scan-folder flow: an emulator
/// platform where ANY of its runners has an executable path.
pub open spec fn configured_emulator_platform(p: Platform, runners: Seq<Runner>) -> bool {
    p.platform_type == PlatformType::Emulator && exists|j: int|
        0 <= j < runners.len() && (#[trigger] runners[j]).executable_path is Some
}

/// Positions of the platforms listed by the scan-folder flow, in order;
/// `runners[i]` are the runners of `platforms[i]`.
pub fn get_configured_emulator_platforms(platforms: &[Platform], runners: &[Vec<Runner>]) -> (r: Vec<usize>)
    requires
        runners@.len() == platforms@.len(),
    ensures
        forall|k: int| 0 <= k < r@.len() ==> r@[k] < platforms@.len()
            && configured_emulator_platform(platforms@[r@[k] as int], runners@[r@[k] as int]@),
        forall|i: int|
            0 <= i < platforms@.len() && configured_emulator_platform(platforms@[i], runners@[i]@)
                ==> r@.contains(i as usize),
        forall|a: int, b: int| 0 <= a < b < r@.len() ==> r@[a] < r@[b],
{
    let mut out: Vec<usize> = Vec::new();
    let mut i: usize = 0;
    while i < platforms.len()
        invariant
            i <= platforms.len(),
            runners@.len() == platforms@.len(),
            forall|k: int| 0 <= k < out@.len() ==> out@[k] < i && configured_emulator_platform(
                platforms@[out@[k] as int],
                runners@[out@[k] as int]@,
            ),
            forall|j: int|
                0 <= j < i && configured_emulator_platform(platforms@[j], runners@[j]@)
                    ==> out@.contains(j as usize),
            forall|a: int, b: int| 0 <= a < b < out@.len() ==> out@[a] < out@[b],
        decreases platforms.len() - i,
    {
        let rs = &runners[i];
        let mut any = false;
        let mut j: usize = 0;
        while j < rs.len()
            invariant
                j <= rs.len(),
                any == exists|m: int| 0 <= m < j && (#[trigger] rs@[m]).executable_path is Some,
            decreases rs.len() - j,
        {
            if rs[j].executable_path.is_some() {
                any = true;
            }
            j = j + 1;
        }
        let ok = platforms[i].platform_type == PlatformType::Emulator && any;
        if ok {
            let ghost before = out@;
            out.push(i);
            assert forall|m: int|
                0 <= m < i + 1 && configured_emulator_platform(platforms@[m], runners@[m]@)
                    implies out@.contains(m as usize) by {
                if m < i {
                    let k = choose|k: int| 0 <= k < before.len() && before[k] == m as usize;
                    assert(out@[k] == m as usize);
                } else {
                    assert(out@[before.len() as int] == i);
                }
            }
        } else {
            assert(!configured_emulator_platform(platforms@[i as int], runners@[i as int]@));
        }
        i = i + 1;
    }
    out
}

/// The platform a `--platform` argument picks: the first whose name
/// contains the argument, ignoring case.
pub fn find_platform_by_name(platforms: &[Platform], target: &str) -> (r: Option<usize>)
    ensures
        match r {
            Some(i) => i < platforms@.len() && contains_ignoring_case(platforms@[i as int].name@, target@)
                && forall|j: int| 0 <= j < i ==> !contains_ignoring_case(platforms@[j].name@, target@),
            None => forall|j: int|
                0 <= j < platforms@.len() ==> !contains_ignoring_case(platforms@[j].name@, target@),
        },
{
    let mut i: usize = 0;
    while i < platforms.len()
        invariant
            i <= platforms.len(),
            forall|j: int| 0 <= j < i ==> !contains_ignoring_case(platforms@[j].name@, target@),
        decreases platforms.len() - i,
    {
        if contains_lowercase(platforms[i].name.as_str(), target) {
            return Some(i);
        }
        i = i + 1;
    }
    None
}

/// The outcome of the library search.
#[derive(Debug)]
pub enum SearchOutcome {
    /// The query is blank: searching stops and the selected platform's games
    /// are shown again.
    Inactive,
    /// Positions of the games whose title contains the query, ignoring case.
    Matches(Vec<usize>),
}

/// Filter the games by the search query: a blank query ends the search;
/// otherwise every game whose title contains the query (ignoring case) is
/// kept, in order.
pub fn filter_games_by_search(games: &[GameEntry], query: &str) -> (r: SearchOutcome)
    ensures
        is_blank_spec(query@) <==> r is Inactive,
        r matches SearchOutcome::Matches(m) ==> {
            &&& forall|k: int| 0 <= k < m@.len() ==> m@[k] < games@.len() && contains_ignoring_case(
                games@[m@[k] as int].title@,
                query@,
            )
            &&& forall|i: int|
                0 <= i < games@.len() && contains_ignoring_case(games@[i].title@, query@)
                    ==> m@.contains(i as usize)
            &&& forall|a: int, b: int| 0 <= a < b < m@.len() ==> m@[a] < m@[b]
        },
{
    if is_blank(query) {
        return SearchOutcome::Inactive;
    }
    let mut out: Vec<usize> = Vec::new();
    let mut i: usize = 0;
    while i < games.len()
        invariant
            i <= games.len(),
            forall|k: int| 0 <= k < out@.len() ==> out@[k] < i && contains_ignoring_case(
                games@[out@[k] as int].title@,
                query@,
            ),
            forall|j: int|
                0 <= j < i && contains_ignoring_case(games@[j].title@, query@) ==> out@.contains(
                    j as usize,
                ),
            forall|a: int, b: int| 0 <= a < b < out@.len() ==> out@[a] < out@[b],
        decreases games.len() - i,
    {
        if contains_lowercase(games[i].title.as_str(), query) {
            let ghost before = out@;
            out.push(i);
            assert forall|j: int|
                0 <= j < i + 1 && contains_ignoring_case(games@[j].title@, query@)
                    implies out@.contains(j as usize) by {
                if j < i {
                    let k = choose|k: int| 0 <= k < before.len() && before[k] == j as usize;
                    assert(out@[k] == j as usize);
                } else {
                    assert(out@[before.len() as int] == i);
                }
            }
        }
        i = i + 1;
    }
    SearchOutcome::Matches(out)
}

/// While searching, the platform selection follows the selected game: the
/// first platform with the game's platform id becomes selected. Otherwise
/// (or when no platform matches) the selection stays.
pub fn sync_platform_selection_with_game(
    is_search_active: bool,
    games: &[GameEntry],
    selected_game_idx: usize,
    platforms: &[Platform],
    selected_platform_idx: usize,
) -> (r: usize)
    ensures
        !(is_search_active && selected_game_idx < games@.len()) ==> r == selected_platform_idx,
        is_search_active && selected_game_idx < games@.len() ==> {
            let pid = games@[selected_game_idx as int].platform_id;
            if exists|i: int| 0 <= i < platforms@.len() && platforms@[i].id == pid {
                r < platforms@.len() && platforms@[r as int].id == pid && forall|j: int|
                    0 <= j < r ==> platforms@[j].id != pid
            } else {
                r == selected_platform_idx
            }
        },
{
    if is_search_active && games.len() > 0 && selected_game_idx < games.len() {
        let pid = games[selected_game_idx].platform_id;
        let mut i: usize = 0;
        while i < platforms.len()
            invariant
                i <= platforms.len(),
                is_search_active,
                selected_game_idx < games@.len(),
                pid == games@[selected_game_idx as int].platform_id,
                forall|j: int| 0 <= j < i ==> platforms@[j].id != pid,
            decreases platforms.len() - i,
        {
            if platforms[i].id == pid {
                return i;
            }
            i = i + 1;
        }
    }
    selected_platform_idx
}

/// The platform selection after the platform list was reloaded with
/// `platform_count` entries: kept when still in range, else the first.
pub fn clamp_platform_selection(selected_platform_idx: usize, platform_count: usize) -> (r: usize)
    ensures
        r == if selected_platform_idx >= platform_count {
            0
        } else {
            selected_platform_idx
        },
{
    if selected_platform_idx >= platform_count {
        0
    } else {
        selected_platform_idx
    }
}

} // verus!
