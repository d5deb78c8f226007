//! Progress reports of background downloads (emulators, runners, app
//! updates, media): how each report updates the progress shown, and what
//! the launcher does once a download has finished.
use vstd::prelude::*;
use crate::actions::DownloadTick;
use crate::session::{starts_with_chars, starts_with_spec};
use crate::text::{chars_of, copy_string, copy_opt_string, lowercase, opt_view, push_str, str_eq, string_from_chars, to_lowercase};

verus! {

/// The download shown in the status bar.
pub struct DownloadProgress {
    pub runner_name: String,
    pub downloaded_bytes: u64,
    pub total_bytes: u64,
    pub is_finished: bool,
    pub error_msg: Option<String>,
}

/// What the launcher does after a progress report.
#[derive(Debug)]
pub enum DownloadOutcome {
    /// The download goes on.
    InProgress,
    /// An app update failed to install.
    UpdateFailed,
    /// An app update was installed: tell the user and quit.
    UpdateInstalled,
    /// A download failed.
    DownloadFailed,
    /// A download completed: record the runner's AppImage (this file name,
    /// in the emulators directory) when it exists, and reload the library.
    DownloadCompleted { appimage: String },
}

/// The outcome of a report, and the new status line if it changes.
pub struct DownloadUpdate {
    pub outcome: DownloadOutcome,
    pub status: Option<String>,
}

/// The name shown after a report: the report's task name, if it has one.
pub open spec fn reported_name(tick: DownloadTick, current: Seq<char>) -> Seq<char> {
    match tick.task_name {
        Some(n) => n@,
        None => current,
    }
}

/// The AppImage file a downloaded emulator named `name` is saved as.
pub open spec fn appimage_name_spec(name: Seq<char>) -> Seq<char> {
    if name == "melonDS"@ {
        "melonDS-x86_64.AppImage"@
    } else {
        lowercase(name) + ".AppImage"@
    }
}

/// The file name of the AppImage of a downloaded emulator.
pub fn appimage_name(name: &str) -> (s: String)
    ensures
        s@ == appimage_name_spec(name@),
{
    if str_eq(name, "melonDS") {
        return String::from_str("melonDS-x86_64.AppImage");
    }
    let low = to_lowercase(name);
    let mut t: Vec<char> = chars_of(low.as_str());
    push_str(&mut t, ".AppImage");
    string_from_chars(&t)
}

/// Whether `s` starts with `p`.
fn starts_with(s: &str, p: &str) -> (b: bool)
    ensures
        b == starts_with_spec(s@, p@),
{
    starts_with_chars(&chars_of(s), &chars_of(p))
}

/// What a report makes of the download: the kind of outcome, and the
/// status line the launcher shows (`None`: it keeps the current one).
pub open spec fn download_update_ok(tick: DownloadTick, current: Seq<char>, u: DownloadUpdate) -> bool {
    let name = reported_name(tick, current);
    if !tick.finished {
        &&& u.outcome is InProgress
        &&& match tick.task_name {
            Some(n) => opt_view(u.status) == Some("[Media Fetch] "@ + n@),
            None => u.status is None,
        }
    } else if starts_with_spec(name, "Updating to v"@) {
        match tick.error {
            Some(e) => u.outcome is UpdateFailed && opt_view(u.status) == Some(
                "[Updater Error] Update failed: "@ + e@,
            ),
            None => u.outcome is UpdateInstalled && opt_view(u.status) == Some(
                "[OK] Update installed! Please restart app."@,
            ),
        }
    } else {
        match tick.error {
            Some(e) => u.outcome is DownloadFailed && opt_view(u.status) == Some(
                "[Error] Download failed: "@ + e@,
            ),
            None => (u.outcome matches DownloadOutcome::DownloadCompleted { appimage }
                && appimage@ == appimage_name_spec(name)) && opt_view(u.status) == Some(
                "[OK] Download of '"@ + name + "' completed successfully!"@,
            ),
        }
    }
}

fn prefixed(prefix: &str, s: &str) -> (r: String)
    ensures
        r@ == prefix@ + s@,
{
    let mut t: Vec<char> = Vec::new();
    push_str(&mut t, prefix);
    push_str(&mut t, s);
    string_from_chars(&t)
}

/// Apply a progress report to the download shown.
pub fn apply_download_tick(progress: &mut DownloadProgress, tick: &DownloadTick) -> (u: DownloadUpdate)
    ensures
        final(progress).runner_name@ == reported_name(*tick, old(progress).runner_name@),
        final(progress).downloaded_bytes == tick.downloaded,
        final(progress).total_bytes == tick.total,
        final(progress).is_finished == tick.finished,
        opt_view(final(progress).error_msg) == opt_view(tick.error),
        download_update_ok(*tick, old(progress).runner_name@, u),
{
    progress.downloaded_bytes = tick.downloaded;
    progress.total_bytes = tick.total;
    progress.is_finished = tick.finished;
    progress.error_msg = copy_opt_string(&tick.error);
    let mut status: Option<String> = None;
    match &tick.task_name {
        Some(n) => {
            progress.runner_name = copy_string(n.as_str());
            status = Some(prefixed("[Media Fetch] ", n.as_str()));
        },
        None => {},
    }
    if !tick.finished {
        return DownloadUpdate { outcome: DownloadOutcome::InProgress, status };
    }
    let name = copy_string(progress.runner_name.as_str());
    if starts_with(name.as_str(), "Updating to v") {
        match &tick.error {
            Some(e) => DownloadUpdate {
                outcome: DownloadOutcome::UpdateFailed,
                status: Some(prefixed("[Updater Error] Update failed: ", e.as_str())),
            },
            None => DownloadUpdate {
                outcome: DownloadOutcome::UpdateInstalled,
                status: Some(String::from_str("[OK] Update installed! Please restart app.")),
            },
        }
    } else {
        match &tick.error {
            Some(e) => DownloadUpdate {
                outcome: DownloadOutcome::DownloadFailed,
                status: Some(prefixed("[Error] Download failed: ", e.as_str())),
            },
            None => {
                let mut t: Vec<char> = Vec::new();
                push_str(&mut t, "[OK] Download of '");
                push_str(&mut t, name.as_str());
                push_str(&mut t, "' completed successfully!");
                DownloadUpdate {
                    outcome: DownloadOutcome::DownloadCompleted { appimage: appimage_name(name.as_str()) },
                    status: Some(string_from_chars(&t)),
                }
            },
        }
    }
}

/// Status line when an update check found version `v`.
pub fn new_version_status(v: &str) -> (s: String)
    ensures
        s@ == "[Updater] New version: v"@ + v@,
{
    prefixed("[Updater] New version: v", v)
}

/// Status line (and toast) of a manual update check when the running
/// version `v` is the latest: `(status, toast)`.
pub fn up_to_date_messages(v: &str) -> (r: (String, String))
    ensures
        r.0@ == "[OK] App is up to date (v"@ + v@ + ")."@,
        r.1@ == "[OK] Up to date (v"@ + v@ + ")."@,
{
    let mut a: Vec<char> = Vec::new();
    push_str(&mut a, "[OK] App is up to date (v");
    push_str(&mut a, v);
    push_str(&mut a, ").");
    let mut b: Vec<char> = Vec::new();
    push_str(&mut b, "[OK] Up to date (v");
    push_str(&mut b, v);
    push_str(&mut b, ").");
    (string_from_chars(&a), string_from_chars(&b))
}

/// Status line of a manual update check that failed with `err`.
pub fn update_check_failed_status(err: &str) -> (s: String)
    ensures
        s@ == "[Updater Error] Failed to check for updates: "@ + err@,
{
    prefixed("[Updater Error] Failed to check for updates: ", err)
}

} // verus!
