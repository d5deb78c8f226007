//! The three-step Proton/Wine downloader: pick the launcher to install for,
//! then the tool, then a release; [Enter] advances (fetching the releases,
//! then starting the download), [Esc] goes back a step.
use vstd::prelude::*;
use crate::modal_nav::{list_step_spec, select_in_list, lemma_list_step_round_trip};
use crate::text::{decimal_spec, push_decimal, push_str, string_from_chars};

verus! {

/// Where the downloader stands.
#[derive(Debug, Clone, Copy, PartialEq, Eq, Structural)]
pub struct ProtonWizard {
    /// 0: launcher, 1: tool, 2: release.
    pub step: usize,
    pub launcher_idx: usize,
    pub tool_idx: usize,
    pub release_idx: usize,
    /// Number of releases fetched for the chosen tool.
    pub release_count: usize,
    pub is_loading: bool,
}

#[derive(Debug, Clone, Copy, PartialEq, Eq, Structural)]
pub enum ProtonKey {
    Next,
    Prev,
    Back,
    Confirm,
}

/// What the launcher does after a key in the downloader.
#[derive(Debug, Clone, Copy, PartialEq, Eq, Structural)]
pub enum ProtonCommand {
    /// Only the selection (or nothing) changed.
    Idle,
    /// [Esc] on the first step: close the downloader.
    Close,
    /// The tool step opened for the chosen launcher.
    ShowToolStep,
    /// Fetch the releases of tool `tool_idx` (of the chosen launcher).
    FetchReleases { tool_idx: usize },
    /// Download and extract release `release_idx` of tool `tool_idx`.
    StartDownload { tool_idx: usize, release_idx: usize },
    /// A download is already running: nothing starts.
    DownloadBusy,
}

/// The downloader when it opens.
pub fn proton_wizard_new() -> (w: ProtonWizard)
    ensures
        w == (ProtonWizard {
            step: 0,
            launcher_idx: 0,
            tool_idx: 0,
            release_idx: 0,
            release_count: 0,
            is_loading: false,
        }),
{
    ProtonWizard { step: 0, launcher_idx: 0, tool_idx: 0, release_idx: 0, release_count: 0, is_loading: false }
}

/// One key in the downloader, with `launcher_count` launchers, `tool_count`
/// tools for the chosen launcher, and `download_busy` when a download runs.
pub open spec fn proton_step_spec(
    w: ProtonWizard,
    key: ProtonKey,
    launcher_count: usize,
    tool_count: usize,
    download_busy: bool,
) -> (ProtonWizard, ProtonCommand) {
    match key {
        ProtonKey::Next | ProtonKey::Prev => {
            let back = key == ProtonKey::Prev;
            if w.step == 0 {
                (ProtonWizard { launcher_idx: list_step_spec(w.launcher_idx, launcher_count, back), ..w }, ProtonCommand::Idle)
            } else if w.step == 1 {
                (ProtonWizard { tool_idx: list_step_spec(w.tool_idx, tool_count, back), ..w }, ProtonCommand::Idle)
            } else if w.step == 2 {
                (ProtonWizard { release_idx: list_step_spec(w.release_idx, w.release_count, back), ..w }, ProtonCommand::Idle)
            } else {
                (w, ProtonCommand::Idle)
            }
        },
        ProtonKey::Back => if w.step > 0 {
            (ProtonWizard { step: (w.step - 1) as usize, ..w }, ProtonCommand::Idle)
        } else {
            (w, ProtonCommand::Close)
        },
        ProtonKey::Confirm => if w.step == 0 {
            (ProtonWizard { step: 1, tool_idx: 0, ..w }, ProtonCommand::ShowToolStep)
        } else if w.step == 1 {
            if w.tool_idx < tool_count {
                (
                    ProtonWizard { step: 2, is_loading: true, release_count: 0, release_idx: 0, ..w },
                    ProtonCommand::FetchReleases { tool_idx: w.tool_idx },
                )
            } else {
                (w, ProtonCommand::Idle)
            }
        } else if w.step == 2 && w.release_count > 0 {
            if download_busy {
                (w, ProtonCommand::DownloadBusy)
            } else if w.tool_idx < tool_count && w.release_idx < w.release_count {
                (w, ProtonCommand::StartDownload { tool_idx: w.tool_idx, release_idx: w.release_idx })
            } else {
                (w, ProtonCommand::Idle)
            }
        } else {
            (w, ProtonCommand::Idle)
        },
    }
}

/// Apply one key to the downloader.
pub fn proton_wizard_key(
    w: &mut ProtonWizard,
    key: ProtonKey,
    launcher_count: usize,
    tool_count: usize,
    download_busy: bool,
) -> (c: ProtonCommand)
    requires
        old(w).launcher_idx < usize::MAX,
        old(w).tool_idx < usize::MAX,
        old(w).release_idx < usize::MAX,
    ensures
        (*final(w), c) == proton_step_spec(*old(w), key, launcher_count, tool_count, download_busy),
{
    match key {
        ProtonKey::Next | ProtonKey::Prev => {
            let back = match key {
                ProtonKey::Prev => true,
                _ => false,
            };
            if w.step == 0 {
                w.launcher_idx = select_in_list(w.launcher_idx, launcher_count, back);
            } else if w.step == 1 {
                w.tool_idx = select_in_list(w.tool_idx, tool_count, back);
            } else if w.step == 2 {
                w.release_idx = select_in_list(w.release_idx, w.release_count, back);
            }
            ProtonCommand::Idle
        },
        ProtonKey::Back => {
            if w.step > 0 {
                w.step = w.step - 1;
                ProtonCommand::Idle
            } else {
                ProtonCommand::Close
            }
        },
        ProtonKey::Confirm => {
            if w.step == 0 {
                w.step = 1;
                w.tool_idx = 0;
                ProtonCommand::ShowToolStep
            } else if w.step == 1 {
                if w.tool_idx < tool_count {
                    w.step = 2;
                    w.is_loading = true;
                    w.release_count = 0;
                    w.release_idx = 0;
                    ProtonCommand::FetchReleases { tool_idx: w.tool_idx }
                } else {
                    ProtonCommand::Idle
                }
            } else if w.step == 2 && w.release_count > 0 {
                if download_busy {
                    ProtonCommand::DownloadBusy
                } else if w.tool_idx < tool_count && w.release_idx < w.release_count {
                    ProtonCommand::StartDownload { tool_idx: w.tool_idx, release_idx: w.release_idx }
                } else {
                    ProtonCommand::Idle
                }
            } else {
                ProtonCommand::Idle
            }
        },
    }
}

/// The releases of the chosen tool arrived: `count` of them.
pub fn proton_releases_loaded(w: &mut ProtonWizard, count: usize)
    ensures
        *final(w) == (ProtonWizard { release_count: count, is_loading: false, ..*old(w) }),
{
    w.release_count = count;
    w.is_loading = false;
}

/// The downloader never leaves its three steps, and a selection inside its
/// list stays inside it whatever key is pressed (the tool list of a launcher
/// being fixed).
pub proof fn lemma_proton_keeps_selections(
    w: ProtonWizard,
    key: ProtonKey,
    launcher_count: usize,
    tool_count: usize,
    busy: bool,
)
    requires
        w.step <= 2,
        w.launcher_idx < launcher_count,
        w.tool_idx < tool_count,
        w.release_count == 0 || w.release_idx < w.release_count,
    ensures
        ({
            let (w2, _) = proton_step_spec(w, key, launcher_count, tool_count, busy);
            &&& w2.step <= 2
            &&& w2.launcher_idx < launcher_count
            &&& w2.tool_idx < tool_count
            &&& w2.release_count == 0 || w2.release_idx < w2.release_count
        }),
{
    lemma_list_step_round_trip(w.launcher_idx, launcher_count);
    lemma_list_step_round_trip(w.tool_idx, tool_count);
    if w.release_count > 0 {
        lemma_list_step_round_trip(w.release_idx, w.release_count);
    }
}

/// Status line of the first step.
pub fn proton_step1_status() -> (s: String)
    ensures
        s@ == "[ Step 1/3 ] Select Target Launcher with [Up/Down] and press [Enter]."@,
{
    String::from_str("[ Step 1/3 ] Select Target Launcher with [Up/Down] and press [Enter].")
}

/// Status line of the second step, for the launcher named `launcher`.
pub fn proton_step2_status(launcher: &str) -> (s: String)
    ensures
        s@ == "[ Step 2/3 ] "@ + launcher@ + " -> Select Tool/Runner with [Up/Down] and press [Enter]."@,
{
    let mut t: Vec<char> = Vec::new();
    push_str(&mut t, "[ Step 2/3 ] ");
    push_str(&mut t, launcher);
    push_str(&mut t, " -> Select Tool/Runner with [Up/Down] and press [Enter].");
    string_from_chars(&t)
}

/// Status line while the releases of `tool` are fetched.
pub fn proton_fetching_status(tool: &str) -> (s: String)
    ensures
        s@ == "Fetching releases for "@ + tool@ + "..."@,
{
    let mut t: Vec<char> = Vec::new();
    push_str(&mut t, "Fetching releases for ");
    push_str(&mut t, tool);
    push_str(&mut t, "...");
    string_from_chars(&t)
}

/// Status line once `n` releases of `tool` arrived.
pub fn proton_loaded_status(n: usize, tool: &str) -> (s: String)
    ensures
        s@ == "[OK] Loaded "@ + decimal_spec(n as nat) + " release(s) for "@ + tool@ + "."@,
{
    let mut t: Vec<char> = Vec::new();
    push_str(&mut t, "[OK] Loaded ");
    push_decimal(&mut t, n);
    push_str(&mut t, " release(s) for ");
    push_str(&mut t, tool);
    push_str(&mut t, ".");
    string_from_chars(&t)
}

/// Status line when a download starts for the release named `release`.
pub fn proton_downloading_status(release: &str) -> (s: String)
    ensures
        s@ == "Downloading & extracting "@ + release@ + "..."@,
{
    let mut t: Vec<char> = Vec::new();
    push_str(&mut t, "Downloading & extracting ");
    push_str(&mut t, release);
    push_str(&mut t, "...");
    string_from_chars(&t)
}

/// Status line when a download is asked for while one is running.
pub fn download_busy_status() -> (s: String)
    ensures
        s@ == "[Warning] A download/extraction task is already in progress. Please wait for it to complete."@,
{
    String::from_str("[Warning] A download/extraction task is already in progress. Please wait for it to complete.")
}

} // verus!
