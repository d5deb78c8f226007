//! Progress of background ROM scans: how the events of a multi-folder scan
//! are relayed through one stream, and how the UI folds the events it
//! receives into its status line.
use vstd::prelude::*;
use crate::download_events::DownloadProgress;
use crate::text::{decimal_spec, opt_view, push_decimal, push_str, string_from_chars, copy_string};

verus! {

/// One progress report of a folder scan.
pub struct ScanProgress {
    pub current: usize,
    pub total: usize,
    pub current_title: String,
    pub finished: bool,
    pub added_count: usize,
    pub error_msg: Option<String>,
}

/// The text `"Folder {n}/{t} scanned."`.
pub open spec fn folder_scanned_title(n: nat, t: nat) -> Seq<char> {
    "Folder "@ + decimal_spec(n) + "/"@ + decimal_spec(t) + " scanned."@
}

/// The text `"Folder {n}/{t}: {path}"`.
pub open spec fn folder_header_title(n: nat, t: nat, path: Seq<char>) -> Seq<char> {
    "Folder "@ + decimal_spec(n) + "/"@ + decimal_spec(t) + ": "@ + path
}

/// The event announcing that folder `folder_num` of `total_jobs` starts.
pub fn folder_header_event(folder_num: usize, total_jobs: usize, path: &str) -> (e: ScanProgress)
    ensures
        e.current == folder_num,
        e.total == total_jobs,
        e.current_title@ == folder_header_title(folder_num as nat, total_jobs as nat, path@),
        !e.finished,
        e.added_count == 0,
        e.error_msg is None,
{
    let mut t: Vec<char> = Vec::new();
    push_str(&mut t, "Folder ");
    push_decimal(&mut t, folder_num);
    push_str(&mut t, "/");
    push_decimal(&mut t, total_jobs);
    push_str(&mut t, ": ");
    push_str(&mut t, path);
    ScanProgress {
        current: folder_num,
        total: total_jobs,
        current_title: string_from_chars(&t),
        finished: false,
        added_count: 0,
        error_msg: None,
    }
}

/// Relay one event of folder `folder_num` (of `total_jobs`) through the
/// shared progress stream of a multi-folder scan. Only the last folder's
/// final event stays `finished`, carrying the total of imported/updated ROMs
/// over all folders; an earlier folder's final event becomes a "scanned"
/// progress event. `total_added` accumulates the folders' counts.
pub fn relay_scan_event(
    folder_num: usize,
    total_jobs: usize,
    total_added: &mut usize,
    evt: ScanProgress,
) -> (out: ScanProgress)
    requires
        evt.finished ==> *old(total_added) + evt.added_count <= usize::MAX,
    ensures
        (*final(total_added) as nat, out.finished, out.added_count as nat) == relay_count_spec(
            folder_num as nat,
            total_jobs as nat,
            *old(total_added) as nat,
            evt.finished,
            evt.added_count as nat,
        ),
        out.current_title@ == if evt.finished && folder_num != total_jobs {
            folder_scanned_title(folder_num as nat, total_jobs as nat)
        } else {
            evt.current_title@
        },
        out.current == evt.current,
        out.total == evt.total,
        opt_view(out.error_msg) == opt_view(evt.error_msg),
{
    let mut evt = evt;
    if evt.finished {
        *total_added = *total_added + evt.added_count;
        if folder_num == total_jobs {
            evt.added_count = *total_added;
        } else {
            evt.finished = false;
            let mut t: Vec<char> = Vec::new();
            push_str(&mut t, "Folder ");
            push_decimal(&mut t, folder_num);
            push_str(&mut t, "/");
            push_decimal(&mut t, total_jobs);
            push_str(&mut t, " scanned.");
            evt.current_title = string_from_chars(&t);
        }
    }
    evt
}

/// The count a multi-folder scan reports at its end: the sum of what each
/// folder imported.
pub open spec fn sum_counts(counts: Seq<nat>) -> nat
    decreases counts.len(),
{
    if counts.len() == 0 {
        0
    } else {
        sum_counts(counts.drop_last()) + counts.last()
    }
}

/// The counting part of [`relay_scan_event`]: `(new running total, relayed
/// event finished, relayed count)`.
pub open spec fn relay_count_spec(folder_num: nat, total_jobs: nat, total_added: nat, finished: bool, added: nat) -> (nat, bool, nat) {
    let t = if finished {
        total_added + added
    } else {
        total_added
    };
    (t, finished && folder_num == total_jobs, if finished && folder_num == total_jobs {
        t
    } else {
        added
    })
}

/// Relaying the final event of each of `counts.len()` folders in turn, from
/// a running total of 0: no folder but the last reports the scan finished,
/// and the last reports the sum of all folders' counts.
pub proof fn lemma_multi_folder_scan_total(counts: Seq<nat>)
    requires
        counts.len() > 0,
    ensures
        forall|k: int|
            0 <= k < counts.len() - 1 ==> !(#[trigger] relay_count_spec(
                (k + 1) as nat,
                counts.len(),
                sum_counts(counts.take(k)),
                true,
                counts[k],
            )).1,
        relay_count_spec(
            counts.len(),
            counts.len(),
            sum_counts(counts.take(counts.len() - 1)),
            true,
            counts.last(),
        ) == (sum_counts(counts), true, sum_counts(counts)),
        forall|k: int|
            0 <= k < counts.len() ==> (#[trigger] relay_count_spec(
                (k + 1) as nat,
                counts.len(),
                sum_counts(counts.take(k)),
                true,
                counts[k],
            )).0 == sum_counts(counts.take(k + 1)),
{
    assert(counts.take(counts.len() as int) =~= counts);
    assert(counts.take(counts.len() - 1) =~= counts.drop_last());
    assert forall|k: int| 0 <= k < counts.len() implies (#[trigger] relay_count_spec(
        (k + 1) as nat,
        counts.len(),
        sum_counts(counts.take(k)),
        true,
        counts[k],
    )).0 == sum_counts(counts.take(k + 1)) by {
        assert(counts.take(k + 1).drop_last() =~= counts.take(k));
    }
}

/// What the UI learns from the scan events received in one tick.
pub struct ScanTick {
    /// A final event arrived: the scan is over.
    pub done: bool,
    /// The count of the last final event.
    pub added: usize,
    /// The last progress (non-final) event, as `(current, total, title)`.
    pub progress: Option<(usize, usize, String)>,
}

/// Fold the scan events received in one tick: the last final event ends the
/// scan with its count; every other event updates the progress shown.
pub fn fold_scan_events(events: &[ScanProgress]) -> (t: ScanTick)
    ensures
        t.done == exists|i: int| 0 <= i < events@.len() && (#[trigger] events@[i]).finished,
        t.done ==> exists|i: int|
            0 <= i < events@.len() && (#[trigger] events@[i]).finished && t.added
                == events@[i].added_count && forall|j: int|
                i < j < events@.len() ==> !events@[j].finished,
        match t.progress {
            Some((c, tot, title)) => exists|i: int|
                0 <= i < events@.len() && !(#[trigger] events@[i]).finished && c == events@[i].current
                    && tot == events@[i].total && title@ == events@[i].current_title@ && forall|j: int|
                    i < j < events@.len() ==> events@[j].finished,
            None => forall|i: int| 0 <= i < events@.len() ==> (#[trigger] events@[i]).finished,
        },
{
    let mut done = false;
    let mut added: usize = 0;
    let mut progress: Option<(usize, usize, String)> = None;
    let mut last_done: usize = 0;
    let mut last_prog: usize = 0;
    let mut i: usize = 0;
    while i < events.len()
        invariant
            i <= events.len(),
            done == exists|k: int| 0 <= k < i && (#[trigger] events@[k]).finished,
            done ==> last_done < i && events@[last_done as int].finished && added
                == events@[last_done as int].added_count && forall|j: int|
                last_done < j < i ==> !events@[j].finished,
            match progress {
                Some((c, tot, title)) => last_prog < i && !events@[last_prog as int].finished && c
                    == events@[last_prog as int].current && tot == events@[last_prog as int].total
                    && title@ == events@[last_prog as int].current_title@ && forall|j: int|
                    last_prog < j < i ==> events@[j].finished,
                None => forall|k: int| 0 <= k < i ==> (#[trigger] events@[k]).finished,
            },
        decreases events.len() - i,
    {
        let e = &events[i];
        if e.finished {
            done = true;
            added = e.added_count;
            last_done = i;
        } else {
            progress = Some((e.current, e.total, copy_string(e.current_title.as_str())));
            last_prog = i;
        }
        i = i + 1;
    }
    ScanTick { done, added, progress }
}

/// Status line while identifying: `"[Identifying {current}/{total}] {title}"`.
pub open spec fn identifying_status_spec(current: nat, total: nat, title: Seq<char>) -> Seq<char> {
    "[Identifying "@ + decimal_spec(current) + "/"@ + decimal_spec(total) + "] "@ + title
}

pub fn identifying_status(current: usize, total: usize, title: &str) -> (s: String)
    ensures
        s@ == identifying_status_spec(current as nat, total as nat, title@),
{
    let mut t: Vec<char> = Vec::new();
    push_str(&mut t, "[Identifying ");
    push_decimal(&mut t, current);
    push_str(&mut t, "/");
    push_decimal(&mut t, total);
    push_str(&mut t, "] ");
    push_str(&mut t, title);
    string_from_chars(&t)
}

/// Status line when a scan is over: `"[OK] Scan completed: {n} ROMs imported/updated."`.
pub open spec fn scan_completed_status_spec(n: nat) -> Seq<char> {
    "[OK] Scan completed: "@ + decimal_spec(n) + " ROMs imported/updated."@
}

pub fn scan_completed_status(n: usize) -> (s: String)
    ensures
        s@ == scan_completed_status_spec(n as nat),
{
    let mut t: Vec<char> = Vec::new();
    push_str(&mut t, "[OK] Scan completed: ");
    push_decimal(&mut t, n);
    push_str(&mut t, " ROMs imported/updated.");
    string_from_chars(&t)
}


/// The status line after a Steam library scan found `added` games.
pub fn steam_scan_status(added: usize) -> (s: String)
    ensures
        s@ == "Steam scan completed: "@ + decimal_spec(added as nat) + " game(s) in library."@,
{
    let mut t: Vec<char> = Vec::new();
    push_str(&mut t, "Steam scan completed: ");
    push_decimal(&mut t, added);
    push_str(&mut t, " game(s) in library.");
    string_from_chars(&t)
}

/// The status line when the Steam library could not be scanned.
pub fn steam_scan_error_status(err: &str) -> (s: String)
    ensures
        s@ == "Error detecting Steam: "@ + err@,
{
    let mut t: Vec<char> = Vec::new();
    push_str(&mut t, "Error detecting Steam: ");
    push_str(&mut t, err);
    string_from_chars(&t)
}

/// `""` for one item, `"s"` otherwise.
pub open spec fn plural_s(n: nat) -> Seq<char> {
    if n == 1 {
        ""@
    } else {
        "s"@
    }
}

fn push_plural_s(t: &mut Vec<char>, n: usize)
    ensures
        final(t)@ == old(t)@ + plural_s(n as nat),
{
    proof {
        reveal_strlit("s");
        reveal_strlit("");
    }
    if n != 1 {
        t.push('s');
        assert(t@ =~= old(t)@ + "s"@);
    } else {
        assert(old(t)@ + ""@ =~= old(t)@);
    }
}

/// The progress bar label while the ROMs of platform `name` are scanned.
pub fn scanning_label(name: &str) -> (s: String)
    ensures
        s@ == "Scanning ROMs: "@ + name@,
{
    let mut t: Vec<char> = Vec::new();
    push_str(&mut t, "Scanning ROMs: ");
    push_str(&mut t, name);
    string_from_chars(&t)
}

/// Status line when a scan of one folder of platform `name` starts.
pub fn scan_start_status(name: &str) -> (s: String)
    ensures
        s@ == "Scanning & Identifying ROMs for "@ + name@ + "..."@,
{
    let mut t: Vec<char> = Vec::new();
    push_str(&mut t, "Scanning & Identifying ROMs for ");
    push_str(&mut t, name);
    push_str(&mut t, "...");
    string_from_chars(&t)
}

/// Status line when a scan of `n` folders of platform `name` starts.
pub fn scan_many_start_status(name: &str, n: usize) -> (s: String)
    ensures
        s@ == scan_many_start_status_spec(name@, n as nat),
{
    let mut t: Vec<char> = Vec::new();
    push_str(&mut t, "Scanning & Identifying ROMs for ");
    push_str(&mut t, name);
    push_str(&mut t, " (");
    push_decimal(&mut t, n);
    push_str(&mut t, " folder");
    push_plural_s(&mut t, n);
    push_str(&mut t, ")...");
    string_from_chars(&t)
}

/// Status line when the folder to scan does not exist.
pub fn missing_folder_status(path: &str) -> (s: String)
    ensures
        s@ == "[Error] Folder path does not exist: '"@ + path@ + "'"@,
{
    let mut t: Vec<char> = Vec::new();
    push_str(&mut t, "[Error] Folder path does not exist: '");
    push_str(&mut t, path);
    push_str(&mut t, "'");
    string_from_chars(&t)
}

/// [Enter] on a folder row of the folder manager: re-scan it only when it
/// holds new game files (`has_new`); otherwise report the `count` games it
/// already has. Returns whether to re-scan, and the status line.
pub fn folder_enter_decision(has_new: bool, count: usize, path: &str) -> (r: (bool, String))
    ensures
        r.0 == has_new,
        has_new ==> r.1@ == "Scanning '"@ + path@ + "' for new games..."@,
        !has_new ==> r.1@ == "Folder up to date ("@ + decimal_spec(count as nat) + " game"@
            + plural_s(count as nat) + "). Press [R] to force a full rescan."@,
{
    let mut t: Vec<char> = Vec::new();
    if has_new {
        push_str(&mut t, "Scanning '");
        push_str(&mut t, path);
        push_str(&mut t, "' for new games...");
    } else {
        push_str(&mut t, "Folder up to date (");
        push_decimal(&mut t, count);
        push_str(&mut t, " game");
        push_plural_s(&mut t, count);
        push_str(&mut t, "). Press [R] to force a full rescan.");
    }
    (has_new, string_from_chars(&t))
}

/// What the launcher shows of a ROM scan.
pub struct ScanUi {
    /// Scan events are awaited.
    pub scanning: bool,
    /// The progress bar.
    pub progress: Option<DownloadProgress>,
    /// A modal is open.
    pub modal_open: bool,
    pub status: String,
}

/// `"Scanning & Identifying ROMs for <name> (<n> folder[s])..."`.
pub open spec fn scan_many_start_status_spec(name: Seq<char>, n: nat) -> Seq<char> {
    "Scanning & Identifying ROMs for "@ + name + " ("@ + decimal_spec(n) + " folder"@ + plural_s(n) + ")..."@
}

/// Starting a scan of `job_count` folders of platform `platform_name`: with
/// no folder nothing changes and no scan starts; otherwise scan events are
/// awaited, the progress bar names the platform at 0 of 1, the modal is
/// closed and the status line counts the folders. Returns whether the scan
/// starts.
pub fn begin_scan_many(ui: &mut ScanUi, job_count: usize, platform_name: &str) -> (started: bool)
    ensures
        started == (job_count > 0),
        !started ==> {
            &&& final(ui).scanning == old(ui).scanning
            &&& final(ui).progress == old(ui).progress
            &&& final(ui).modal_open == old(ui).modal_open
            &&& final(ui).status == old(ui).status
        },
        started ==> {
            &&& final(ui).scanning
            &&& final(ui).progress matches Some(p) && p.runner_name@ == "Scanning ROMs: "@ + platform_name@
                && p.downloaded_bytes == 0 && p.total_bytes == 1 && !p.is_finished && p.error_msg is None
            &&& !final(ui).modal_open
            &&& final(ui).status@ == scan_many_start_status_spec(platform_name@, job_count as nat)
        },
{
    if job_count == 0 {
        return false;
    }
    ui.scanning = true;
    ui.progress = Some(
        DownloadProgress {
            runner_name: scanning_label(platform_name),
            downloaded_bytes: 0,
            total_bytes: 1,
            is_finished: false,
            error_msg: None,
        },
    );
    ui.modal_open = false;
    ui.status = scan_many_start_status(platform_name, job_count);
    true
}

/// Applying the scan events of one tick (folded by `fold_scan_events`):
/// when the scan is over, scan events are no longer awaited, the progress
/// bar goes and the status line gives the count, and the platforms are
/// reloaded (the result says so); otherwise the last progress event, if
/// any, is shown on the progress bar and the status line.
pub fn apply_scan_tick(ui: &mut ScanUi, tick: &ScanTick) -> (reload: bool)
    ensures
        reload == tick.done,
        final(ui).modal_open == old(ui).modal_open,
        tick.done ==> {
            &&& !final(ui).scanning
            &&& final(ui).progress is None
            &&& final(ui).status@ == scan_completed_status_spec(tick.added as nat)
        },
        !tick.done ==> final(ui).scanning == old(ui).scanning,
        !tick.done && tick.progress is None ==> final(ui).progress == old(ui).progress && final(ui).status
            == old(ui).status,
        !tick.done ==> (tick.progress matches Some((c, t, title)) ==> {
            &&& final(ui).progress matches Some(p) && p.runner_name@ == "Scanning: "@ + title@
                && p.downloaded_bytes == c && p.total_bytes == t && !p.is_finished && p.error_msg is None
            &&& final(ui).status@ == identifying_status_spec(c as nat, t as nat, title@)
        }),
{
    if tick.done {
        ui.scanning = false;
        ui.progress = None;
        ui.status = scan_completed_status(tick.added);
        return true;
    }
    match &tick.progress {
        Some((c, t, title)) => {
            let mut v: Vec<char> = Vec::new();
            push_str(&mut v, "Scanning: ");
            push_str(&mut v, title.as_str());
            ui.progress = Some(
                DownloadProgress {
                    runner_name: string_from_chars(&v),
                    downloaded_bytes: *c as u64,
                    total_bytes: *t as u64,
                    is_finished: false,
                    error_msg: None,
                },
            );
            ui.status = identifying_status(*c, *t, title.as_str());
        },
        None => {},
    }
    false
}

} // verus!
