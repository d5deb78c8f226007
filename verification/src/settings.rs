//! The settings actions: saving the SteamGridDB key, and the status lines of
//! the About modal and the self-updater.
use vstd::prelude::*;
use crate::actions::DownloadTick;
use crate::download_events::{download_update_ok, reported_name, DownloadUpdate};
use crate::edit_form::opt_text;
use crate::text::{chars_of, copy_string, opt_view, push_str, str_eq, string_from_chars, trim_chars, trim_spec};
use crate::text_edit::{byte_len, field_byte_len};

verus! {

/// The key to store from the API key prompt: its trimmed text, or the error
/// line when it is blank.
pub fn api_key_to_save(input: &str) -> (r: Result<String, String>)
    ensures
        trim_spec(input@).len() == 0 ==> (r matches Err(m) && m@ == "Error: API Key cannot be empty."@),
        trim_spec(input@).len() > 0 ==> (r matches Ok(k) && k@ == trim_spec(input@)),
{
    let t = trim_chars(&chars_of(input));
    if t.len() == 0 {
        Err(String::from_str("Error: API Key cannot be empty."))
    } else {
        Ok(string_from_chars(&t))
    }
}

/// The key stored when the settings modal is saved: the trimmed text, even
/// when blank (which clears the key).
pub fn settings_api_key(input: &str) -> (k: String)
    ensures
        k@ == trim_spec(input@),
{
    string_from_chars(&trim_chars(&chars_of(input)))
}

/// The status line of the About modal for launcher version `version`.
pub fn about_status(version: &str) -> (s: String)
    ensures
        s@ == "[About] TUI Game Station v"@ + version@,
{
    let mut t: Vec<char> = Vec::new();
    push_str(&mut t, "[About] TUI Game Station v");
    push_str(&mut t, version);
    string_from_chars(&t)
}

/// The progress label and the status line when the update to `version`
/// starts downloading.
pub fn update_download_labels(version: &str) -> (r: (String, String))
    ensures
        r.0@ == "Updating to v"@ + version@,
        r.1@ == "[Updater] Downloading v"@ + version@ + "..."@,
{
    let mut a: Vec<char> = Vec::new();
    push_str(&mut a, "Updating to v");
    push_str(&mut a, version);
    let mut b: Vec<char> = Vec::new();
    push_str(&mut b, "[Updater] Downloading v");
    push_str(&mut b, version);
    push_str(&mut b, "...");
    (string_from_chars(&a), string_from_chars(&b))
}

/// When the download shown under an update's progress label finishes, it is
/// reported as the update: installed without an error, failed with one.
pub proof fn lemma_update_label_reports_update(
    version: Seq<char>,
    tick: DownloadTick,
    current: Seq<char>,
    u: DownloadUpdate,
)
    requires
        tick.finished,
        reported_name(tick, current) == "Updating to v"@ + version,
        download_update_ok(tick, current, u),
    ensures
        tick.error is None ==> u.outcome is UpdateInstalled,
        tick.error is Some ==> u.outcome is UpdateFailed,
{
    let name = reported_name(tick, current);
    assert(name.take(("Updating to v"@).len() as int) =~= "Updating to v"@);
}

/// The Welcome Wizard as it opens: at its first step, with the SteamGridDB
/// key field focused, holding the saved key, the cursor at its end.
pub struct WelcomeWizard {
    pub step: usize,
    pub sgdb_api_key: String,
    pub active_field: usize,
    pub cursor_pos: usize,
}

/// The Welcome Wizard opened with the saved key `api_key` (none: empty).
pub fn open_welcome_wizard(api_key: &Option<String>) -> (w: WelcomeWizard)
    requires
        byte_len(opt_text(opt_view(*api_key))) <= usize::MAX,
    ensures
        w.step == 0,
        w.active_field == 0,
        w.sgdb_api_key@ == opt_text(opt_view(*api_key)),
        w.cursor_pos == byte_len(w.sgdb_api_key@),
{
    let key = match api_key {
        Some(k) => copy_string(k.as_str()),
        None => String::new(),
    };
    let cursor_pos = field_byte_len(&key);
    WelcomeWizard { step: 0, sgdb_api_key: key, active_field: 0, cursor_pos }
}

/// What the launcher opens with.
pub enum StartScreen {
    /// The first run: the Welcome Wizard.
    Welcome(WelcomeWizard),
    /// Setup was done before: no modal, and the check for updates starts.
    CheckForUpdates,
}

/// The launcher runs for the first time unless the `first_run_completed`
/// setting reads `"true"`.
pub open spec fn is_first_run(first_run_completed: Option<Seq<char>>) -> bool {
    !(first_run_completed matches Some(v) && v == "true"@)
}

/// The opening screen, from the `first_run_completed` setting and the saved
/// SteamGridDB key.
pub fn start_screen(first_run_completed: &Option<String>, api_key: &Option<String>) -> (r: StartScreen)
    requires
        byte_len(opt_text(opt_view(*api_key))) <= usize::MAX,
    ensures
        is_first_run(opt_view(*first_run_completed)) <==> r is Welcome,
        r matches StartScreen::Welcome(w) ==> {
            &&& w.step == 0
            &&& w.active_field == 0
            &&& w.sgdb_api_key@ == opt_text(opt_view(*api_key))
            &&& w.cursor_pos == byte_len(w.sgdb_api_key@)
        },
{
    let done = match first_run_completed {
        Some(v) => str_eq(v.as_str(), "true"),
        None => false,
    };
    if done {
        StartScreen::CheckForUpdates
    } else {
        StartScreen::Welcome(open_welcome_wizard(api_key))
    }
}

} // verus!
