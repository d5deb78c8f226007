//! The artwork requests under way, and how each way of fetching artwork
//! records them: the bulk fetch of missing covers, the fetch of the
//! selected game's artwork, and the preload of its neighbours' small covers.
use vstd::prelude::*;
use std::collections::HashSet;
use crate::actions::DownloadTick;
use crate::download_events::DownloadProgress;
use crate::media_fetch::{
    MediaCandidate, bulk_fetch_label, bulk_fetch_skipped, bulk_fetch_status, bulk_label_spec,
    bulk_status_spec, is_bulk_plan, needs_media, neighbour_indices, plan_bulk_fetch,
    should_fetch_selected,
};
use crate::text::{decimal_spec, push_decimal, push_str, string_from_chars};

verus! {

/// The games whose artwork is being fetched, by id.
pub struct PendingRequests {
    ids: HashSet<i64>,
}

impl View for PendingRequests {
    type V = Set<i64>;

    closed spec fn view(&self) -> Set<i64> {
        self.ids@
    }
}

impl PendingRequests {
    /// No request under way.
    pub fn new() -> (r: Self)
        ensures
            r@ == Set::<i64>::empty(),
    {
        PendingRequests { ids: HashSet::new() }
    }

    /// Whether a request for the game is under way.
    pub fn contains(&self, id: i64) -> (b: bool)
        ensures
            b == self@.contains(id),
    {
        broadcast use vstd::std_specs::hash::group_hash_axioms;
        self.ids.contains(&id)
    }

    /// Records a request for the game; says whether it was not yet recorded.
    pub fn insert(&mut self, id: i64) -> (added: bool)
        ensures
            final(self)@ == old(self)@.insert(id),
            added == !old(self)@.contains(id),
    {
        broadcast use vstd::std_specs::hash::group_hash_axioms;
        self.ids.insert(id)
    }

    /// Forgets the request for the game (its artwork arrived).
    pub fn remove(&mut self, id: i64)
        ensures
            final(self)@ == old(self)@.remove(id),
    {
        broadcast use vstd::std_specs::hash::group_hash_axioms;
        self.ids.remove(&id);
    }
}

/// The ids of the games at the given positions.
pub open spec fn ids_at(games: Seq<MediaCandidate>, positions: Seq<usize>) -> Set<i64> {
    Set::new(|x: i64| exists|k: int| 0 <= k < positions.len() && #[trigger] games[positions[k] as int].id == x)
}

/// What starting a bulk fetch sets up: the positions of the games fetched,
/// the progress bar, and the status line.
pub struct BulkFetchStart {
    pub targets: Vec<usize>,
    pub progress: DownloadProgress,
    pub status: String,
}

/// The state of a started bulk fetch of the games at `targets`: they are
/// all pending now, the progress bar counts them from 0 and names the first,
/// and the status line says how many there are.
pub open spec fn bulk_start_spec(
    old_pending: Set<i64>,
    new_pending: Set<i64>,
    games: Seq<MediaCandidate>,
    targets: Seq<usize>,
    s: BulkFetchStart,
) -> bool {
    &&& new_pending == old_pending.union(ids_at(games, targets))
    &&& s.targets@ == targets
    &&& s.progress.runner_name@ == bulk_label_spec(0, targets.len(), games[targets[0] as int].title@)
    &&& s.progress.downloaded_bytes == 0
    &&& s.progress.total_bytes == targets.len()
    &&& !s.progress.is_finished
    &&& s.progress.error_msg is None
    &&& s.status@ == bulk_status_spec(targets.len())
}

/// Starts a bulk fetch of the games at `targets` (a plan of
/// `plan_bulk_fetch`): records them as pending and sets up the progress bar
/// and the status line.
pub fn start_bulk_fetch(pending: &mut PendingRequests, games: &[MediaCandidate], targets: Vec<usize>) -> (r: BulkFetchStart)
    requires
        targets@.len() > 0,
        forall|k: int| 0 <= k < targets@.len() ==> targets@[k] < games@.len(),
    ensures
        bulk_start_spec(old(pending)@, final(pending)@, games@, targets@, r),
{
    let ghost start = pending@;
    let mut k: usize = 0;
    while k < targets.len()
        invariant
            k <= targets.len(),
            forall|j: int| 0 <= j < targets@.len() ==> targets@[j] < games@.len(),
            pending@ == start.union(ids_at(games@, targets@.take(k as int))),
        decreases targets.len() - k,
    {
        let g = targets[k];
        pending.insert(games[g].id);
        proof {
            let next = targets@.take(k + 1);
            assert forall|x: i64| ids_at(games@, next).contains(x) <==> (ids_at(
                games@,
                targets@.take(k as int),
            ).contains(x) || x == games@[g as int].id) by {
                if ids_at(games@, next).contains(x) {
                    let j = choose|j: int| 0 <= j < next.len() && #[trigger] games@[next[j] as int].id == x;
                    if j < k {
                        assert(targets@.take(k as int)[j] == next[j]);
                    }
                }
                if ids_at(games@, targets@.take(k as int)).contains(x) {
                    let j = choose|j: int|
                        0 <= j < targets@.take(k as int).len() && #[trigger] games@[targets@.take(
                            k as int,
                        )[j] as int].id == x;
                    assert(next[j] == targets@.take(k as int)[j]);
                }
                if x == games@[g as int].id {
                    assert(next[k as int] == g);
                }
            }
            assert(pending@ =~= start.union(ids_at(games@, next)));
        }
        k = k + 1;
    }
    assert(targets@.take(targets@.len() as int) =~= targets@);
    let n = targets.len();
    let first = targets[0];
    let label = bulk_fetch_label(0, n, games[first].title.as_str());
    let status = bulk_fetch_status(n);
    BulkFetchStart {
        targets,
        progress: DownloadProgress {
            runner_name: label,
            downloaded_bytes: 0,
            total_bytes: n as u64,
            is_finished: false,
            error_msg: None,
        },
        status,
    }
}

/// The bulk fetch of missing covers: when it is not skipped and some game
/// needs media, every such game becomes pending and the progress bar and
/// status line are set up for them; otherwise nothing changes. The
/// candidates' `pending` flags are read from `pending`.
pub fn auto_bulk_fetch(
    pending: &mut PendingRequests,
    games: &[MediaCandidate],
    download_busy: bool,
    api_key: &Option<String>,
) -> (r: Option<BulkFetchStart>)
    requires
        forall|i: int| 0 <= i < games@.len() ==> #[trigger] games@[i].pending == old(pending)@.contains(games@[i].id),
    ensures
        r is None <==> (bulk_fetch_skipped(games@, download_busy, *api_key) || forall|i: int|
            0 <= i < games@.len() ==> !needs_media(#[trigger] games@[i])),
        r is None ==> final(pending)@ == old(pending)@,
        r matches Some(s) ==> is_bulk_plan(games@, s.targets@) && bulk_start_spec(
            old(pending)@,
            final(pending)@,
            games@,
            s.targets@,
            s,
        ),
{
    match plan_bulk_fetch(games, download_busy, api_key) {
        None => None,
        Some(t) => {
            let ghost plan = t@;
            let s = start_bulk_fetch(pending, games, t);
            assert(s.targets@ == plan);
            Some(s)
        },
    }
}

/// `"SteamGridDB Media (<n>/<n> Completed)"`.
pub open spec fn bulk_done_spec(n: nat) -> Seq<char> {
    "SteamGridDB Media ("@ + decimal_spec(n) + "/"@ + decimal_spec(n) + " Completed)"@
}

/// The progress report after `done` of the `total` games of a bulk fetch
/// have been fetched, the last of them being `title`.
pub fn bulk_item_tick(done: usize, total: usize, title: &str) -> (t: DownloadTick)
    ensures
        t.downloaded == done,
        t.total == total,
        !t.finished,
        t.error is None,
        t.task_name matches Some(n) && n@ == bulk_label_spec(done as nat, total as nat, title@),
{
    DownloadTick {
        downloaded: done as u64,
        total: total as u64,
        finished: false,
        error: None,
        task_name: Some(bulk_fetch_label(done, total, title)),
    }
}

/// The last progress report of a bulk fetch of `n` games: all done.
pub fn bulk_final_tick(n: usize) -> (t: DownloadTick)
    ensures
        t.downloaded == n,
        t.total == n,
        t.finished,
        t.error is None,
        t.task_name matches Some(s) && s@ == bulk_done_spec(n as nat),
{
    let mut v: Vec<char> = Vec::new();
    push_str(&mut v, "SteamGridDB Media (");
    push_decimal(&mut v, n);
    push_str(&mut v, "/");
    push_decimal(&mut v, n);
    push_str(&mut v, " Completed)");
    DownloadTick {
        downloaded: n as u64,
        total: n as u64,
        finished: true,
        error: None,
        task_name: Some(string_from_chars(&v)),
    }
}

/// The progress reports of a bulk fetch whose downloads finished in the
/// order of `titles`: one per game, counting up, then the one that ends it.
/// Only the last report is finished, and it counts every game.
pub fn bulk_fetch_ticks(titles: &[String]) -> (v: Vec<DownloadTick>)
    requires
        titles@.len() < usize::MAX,
    ensures
        v@.len() == titles@.len() + 1,
        forall|k: int|
            0 <= k < titles@.len() ==> {
                &&& (#[trigger] v@[k]).downloaded == k + 1
                &&& v@[k].total == titles@.len()
                &&& !v@[k].finished
                &&& v@[k].error is None
                &&& v@[k].task_name matches Some(s) && s@ == bulk_label_spec(
                    (k + 1) as nat,
                    titles@.len(),
                    titles@[k]@,
                )
            },
        v@[titles@.len() as int].finished,
        v@[titles@.len() as int].downloaded == titles@.len(),
        v@[titles@.len() as int].total == titles@.len(),
        v@[titles@.len() as int].error is None,
        v@[titles@.len() as int].task_name matches Some(s) && s@ == bulk_done_spec(titles@.len()),
{
    let n = titles.len();
    let mut v: Vec<DownloadTick> = Vec::new();
    let mut k: usize = 0;
    while k < n
        invariant
            n == titles@.len(),
            n < usize::MAX,
            k <= n,
            v@.len() == k,
            forall|j: int|
                0 <= j < k ==> {
                    &&& (#[trigger] v@[j]).downloaded == j + 1
                    &&& v@[j].total == n
                    &&& !v@[j].finished
                    &&& v@[j].error is None
                    &&& v@[j].task_name matches Some(s) && s@ == bulk_label_spec(
                        (j + 1) as nat,
                        n as nat,
                        titles@[j]@,
                    )
                },
        decreases n - k,
    {
        let t = bulk_item_tick(k + 1, n, titles[k].as_str());
        v.push(t);
        k = k + 1;
    }
    v.push(bulk_final_tick(n));
    v
}

/// Fetching the selected game's artwork: when a game is selected, no
/// request for it is under way and no earlier search found nothing (its
/// media status is `status`), the game becomes pending and its id is
/// returned; otherwise nothing changes.
pub fn request_selected_cover(
    pending: &mut PendingRequests,
    game_ids: &[i64],
    selected: usize,
    status: &Option<String>,
) -> (r: Option<i64>)
    ensures
        r is Some <==> (selected < game_ids@.len() && !old(pending)@.contains(game_ids@[selected as int])
            && !(status matches Some(s) && s@ == "not_found"@)),
        r matches Some(id) ==> id == game_ids@[selected as int] && final(pending)@ == old(pending)@.insert(id),
        r is None ==> final(pending)@ == old(pending)@,
{
    if selected >= game_ids.len() {
        return None;
    }
    let id = game_ids[selected];
    let busy = pending.contains(id);
    if should_fetch_selected(game_ids.len(), selected, busy, status) {
        pending.insert(id);
        Some(id)
    } else {
        None
    }
}

/// Whether the small cover of the neighbour at `j` is preloaded, given the
/// requests under way before: it is not loaded yet and not requested.
pub open spec fn wants_preload(pending: Set<i64>, game_ids: Seq<i64>, small_loaded: Seq<bool>, j: int) -> bool {
    !small_loaded[j] && !pending.contains(game_ids[j])
}

/// The ids whose small covers Big Picture mode preloads around `selected`:
/// the game before it, then the game after it, each where it exists, its
/// small cover is not loaded and no request for it is under way (the second
/// not when it is the same game as the first).
pub open spec fn preload_ids_spec(pending: Set<i64>, game_ids: Seq<i64>, small_loaded: Seq<bool>, selected: int) -> Seq<i64> {
    let n = game_ids.len();
    let before = selected > 0 && wants_preload(pending, game_ids, small_loaded, selected - 1);
    let after = selected + 1 < n && wants_preload(pending, game_ids, small_loaded, selected + 1) && !(
    before && game_ids[selected - 1] == game_ids[selected + 1]);
    (if before {
        seq![game_ids[selected - 1]]
    } else {
        Seq::<i64>::empty()
    }) + (if after {
        seq![game_ids[selected + 1]]
    } else {
        Seq::<i64>::empty()
    })
}

/// Preloading the neighbours' small covers: requests the ids of
/// `preload_ids_spec` and records them as pending. `small_loaded[j]` says
/// whether the small cover of the game at `j` is already loaded.
pub fn preload_neighbours(
    pending: &mut PendingRequests,
    game_ids: &[i64],
    small_loaded: &[bool],
    selected: usize,
) -> (r: Vec<i64>)
    requires
        small_loaded@.len() == game_ids@.len(),
        game_ids@.len() == 0 || selected <= game_ids@.len(),
    ensures
        game_ids@.len() > 0 ==> r@ == preload_ids_spec(old(pending)@, game_ids@, small_loaded@, selected as int),
        game_ids@.len() == 0 ==> r@ == Seq::<i64>::empty(),
        final(pending)@ == old(pending)@.union(r@.to_set()),
{
    let mut r: Vec<i64> = Vec::new();
    let n = game_ids.len();
    if n == 0 {
        assert(pending@.union(r@.to_set()) =~= pending@);
        return r;
    }
    let ghost start = pending@;
    let mut first: Option<i64> = None;
    if selected > 0 {
        let j = selected - 1;
        let id = game_ids[j];
        if !small_loaded[j] && !pending.contains(id) {
            pending.insert(id);
            r.push(id);
            first = Some(id);
            assert(r@[0] == id);
            assert forall|x: i64| r@.contains(x) implies x == id by {
                let k = choose|k: int| 0 <= k < r@.len() && r@[k] == x;
            }
        }
    }
    assert(r@.to_set() =~= (match first {
        Some(a) => set![a],
        None => Set::<i64>::empty(),
    }));
    let ghost mid = r@;
    if selected < n - 1 {
        let j = selected + 1;
        let id = game_ids[j];
        if !small_loaded[j] && !pending.contains(id) {
            pending.insert(id);
            r.push(id);
            assert(r@ == mid.push(id));
            assert(r@.to_set() =~= mid.to_set().insert(id)) by {
                assert(r@[mid.len() as int] == id);
                assert forall|x: i64| r@.contains(x) implies mid.contains(x) || x == id by {
                    let k = choose|k: int| 0 <= k < r@.len() && r@[k] == x;
                    if k < mid.len() {
                        assert(mid[k] == x);
                    }
                }
                assert forall|x: i64| mid.contains(x) implies r@.contains(x) by {
                    let k = choose|k: int| 0 <= k < mid.len() && mid[k] == x;
                    assert(r@[k] == x);
                }
            }
        }
    }
    assert(pending@ =~= start.union(r@.to_set()));
    r
}

} // verus!
