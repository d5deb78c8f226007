//! The games marked with [Space] in the games pane, and what the deletion
//! and media actions act on: the marked games, or else the highlighted one.
use vstd::prelude::*;
use std::collections::HashSet;
use vstd::std_specs::hash::spec_hash_keys_iter;
use vstd::std_specs::iter::IteratorSpec;
use crate::text::{copy_string, decimal_spec, is_blank, is_blank_spec, push_decimal, push_str, string_from_chars};

verus! {

/// A set with `id` taken out when it is in, put in when it is not.
pub open spec fn toggled(s: Set<i64>, id: i64) -> Set<i64> {
    if s.contains(id) {
        s.remove(id)
    } else {
        s.insert(id)
    }
}

/// Marking a game twice leaves the marked games as they were.
pub proof fn lemma_mark_twice_restores(s: Set<i64>, id: i64)
    ensures
        toggled(toggled(s, id), id) == s,
{
    assert(toggled(toggled(s, id), id) =~= s);
}

/// The ids of the marked games.
pub struct GameSelection {
    ids: HashSet<i64>,
}

impl GameSelection {
    /// The marked games.
    pub closed spec fn marked(&self) -> Set<i64> {
        self.ids@
    }

    /// No game is marked.
    pub fn new() -> (s: Self)
        ensures
            s.marked() == Set::<i64>::empty(),
    {
        GameSelection { ids: HashSet::new() }
    }

    /// Whether game `id` is marked.
    pub fn contains(&self, id: i64) -> (b: bool)
        ensures
            b == self.marked().contains(id),
    {
        broadcast use vstd::std_specs::hash::group_hash_axioms;
        self.ids.contains(&id)
    }

    /// The number of marked games.
    pub fn len(&self) -> (n: usize)
        ensures
            n == self.marked().len(),
    {
        broadcast use vstd::std_specs::hash::group_hash_axioms;
        self.ids.len()
    }

    /// Mark game `id`, or unmark it when it is marked.
    pub fn toggle(&mut self, id: i64)
        ensures
            final(self).marked() == toggled(old(self).marked(), id),
    {
        broadcast use vstd::std_specs::hash::group_hash_axioms;
        if self.ids.contains(&id) {
            self.ids.remove(&id);
        } else {
            self.ids.insert(id);
        }
    }

    /// The marked games, each once, in the set's own order.
    pub fn to_vec(&self) -> (v: Vec<i64>)
        ensures
            v@.to_set() == self.marked(),
            v@.no_duplicates(),
            v@.len() == self.marked().len(),
    {
        broadcast use vstd::std_specs::hash::group_hash_axioms;
        let mut v: Vec<i64> = Vec::new();
        let ghost all: Seq<i64> = spec_hash_keys_iter(&self.ids).remaining().unref();
        for x in it: self.ids.iter()
            invariant
                v@ == it.seq().take(it.index() as int).unref(),
                it.seq().unref() == all,
                all.to_set() == self.ids@,
        {
            v.push(*x);
        }
        assert(v@ =~= all);
        v
    }
}

/// The highlighted game after [Space] on the games pane: the next game when
/// there is one, else the same game.
pub fn next_after_mark(selected_idx: usize, game_count: usize) -> (r: usize)
    ensures
        r == if selected_idx + 1 < game_count {
            (selected_idx + 1) as usize
        } else {
            selected_idx
        },
{
    if selected_idx < game_count && game_count - selected_idx > 1 {
        selected_idx + 1
    } else {
        selected_idx
    }
}

/// What the delete confirmation names: the marked games (each once, in
/// the set's own order) as "<n> selected games", else the highlighted game
/// by its title; `None` when the highlighted position is past the list.
pub fn delete_targets(
    marked: &GameSelection,
    game_ids: &[i64],
    game_titles: &[String],
    selected_idx: usize,
) -> (r: Option<(Vec<i64>, String)>)
    requires
        game_ids.len() == game_titles.len(),
    ensures
        marked.marked().len() > 0 ==> (r matches Some((ids, title)) && ids@.to_set() == marked.marked()
            && ids@.no_duplicates() && ids@.len() == marked.marked().len() && title@ == decimal_spec(
            marked.marked().len(),
        ) + " selected games"@),
        marked.marked().len() == 0 && selected_idx < game_ids.len() ==> (r matches Some((ids, title))
            && ids@ == seq![game_ids[selected_idx as int]] && title@ == game_titles@[selected_idx as int]@),
        marked.marked().len() == 0 && selected_idx >= game_ids.len() ==> r is None,
{
    let n = marked.len();
    if n > 0 {
        let ids = marked.to_vec();
        let mut t: Vec<char> = Vec::new();
        push_decimal(&mut t, n);
        push_str(&mut t, " selected games");
        return Some((ids, string_from_chars(&t)));
    }
    if selected_idx < game_ids.len() {
        let mut ids: Vec<i64> = Vec::new();
        ids.push(game_ids[selected_idx]);
        assert(ids@ =~= seq![game_ids[selected_idx as int]]);
        Some((ids, copy_string(game_titles[selected_idx].as_str())))
    } else {
        None
    }
}

/// The status line after games were removed: `count` games for a
/// multi-game deletion (`target_count` > 1), else "game".
pub fn games_removed_status(target_count: usize, count: usize, display_title: &str) -> (s: String)
    ensures
        s@ == "[OK] Removed "@ + (if target_count > 1 {
            decimal_spec(count as nat) + " games"@
        } else {
            "game"@
        }) + " ('"@ + display_title@ + "') from library."@,
{
    let mut t: Vec<char> = Vec::new();
    push_str(&mut t, "[OK] Removed ");
    if target_count > 1 {
        push_decimal(&mut t, count);
        push_str(&mut t, " games");
    } else {
        push_str(&mut t, "game");
    }
    push_str(&mut t, " ('");
    push_str(&mut t, display_title);
    push_str(&mut t, "') from library.");
    string_from_chars(&t)
}

/// A SteamGridDB key is needed: none is set, or it is blank.
pub open spec fn api_key_missing_spec(key: Option<Seq<char>>) -> bool {
    match key {
        Some(k) => is_blank_spec(k),
        None => true,
    }
}

pub fn api_key_missing(key: &Option<String>) -> (b: bool)
    ensures
        b == api_key_missing_spec(match key {
            Some(k) => Some(k@),
            None => None,
        }),
{
    match key {
        Some(k) => is_blank(k.as_str()),
        None => true,
    }
}

/// The games [g] fetches media for: the marked ones among the loaded games,
/// in list order; else the highlighted game; else none.
pub fn media_targets(marked: &GameSelection, game_ids: &[i64], selected_idx: usize) -> (r: Vec<usize>)
    ensures
        marked.marked().len() > 0 ==> {
            &&& forall|k: int| 0 <= k < r@.len() ==> r@[k] < game_ids@.len() && marked.marked().contains(
                game_ids@[r@[k] as int],
            )
            &&& forall|i: int|
                0 <= i < game_ids@.len() && marked.marked().contains(game_ids@[i]) ==> r@.contains(
                    i as usize,
                )
            &&& forall|a: int, b: int| 0 <= a < b < r@.len() ==> r@[a] < r@[b]
        },
        marked.marked().len() == 0 && selected_idx < game_ids.len() ==> r@ == seq![selected_idx],
        marked.marked().len() == 0 && selected_idx >= game_ids.len() ==> r@.len() == 0,
{
    let mut out: Vec<usize> = Vec::new();
    if marked.len() == 0 {
        if selected_idx < game_ids.len() {
            out.push(selected_idx);
            assert(out@ =~= seq![selected_idx]);
        }
        return out;
    }
    let mut i: usize = 0;
    while i < game_ids.len()
        invariant
            i <= game_ids.len(),
            forall|k: int| 0 <= k < out@.len() ==> out@[k] < i && marked.marked().contains(
                game_ids@[out@[k] as int],
            ),
            forall|j: int| 0 <= j < i && marked.marked().contains(game_ids@[j]) ==> out@.contains(
                j as usize,
            ),
            forall|a: int, b: int| 0 <= a < b < out@.len() ==> out@[a] < out@[b],
        decreases game_ids.len() - i,
    {
        if marked.contains(game_ids[i]) {
            let ghost before = out@;
            out.push(i);
            assert forall|j: int|
                0 <= j < i + 1 && marked.marked().contains(game_ids@[j]) implies out@.contains(
                    j as usize,
                ) by {
                if j < i {
                    let k = choose|k: int| 0 <= k < before.len() && before[k] == j as usize;
                    assert(out@[k] == j as usize);
                } else {
                    assert(out@[before.len() as int] == i);
                }
            }
        }
        i = i + 1;
    }
    out
}

/// The status line when a media fetch of `n` games starts.
pub fn media_fetch_status(n: usize) -> (s: String)
    ensures
        s@ == "Fetching SteamGridDB media (Cover, Banner, Icon) for "@ + decimal_spec(n as nat)
            + " game(s)..."@,
{
    let mut t: Vec<char> = Vec::new();
    push_str(&mut t, "Fetching SteamGridDB media (Cover, Banner, Icon) for ");
    push_decimal(&mut t, n);
    push_str(&mut t, " game(s)...");
    string_from_chars(&t)
}

} // verus!
