//! Saving an emulator's configuration: the checks on the executable path,
//! where the executable comes from, and the status lines of the save.
use vstd::prelude::*;
use crate::session::{starts_with_chars, starts_with_spec};
use crate::text::{
    chars_of, contains_chars, contains_spec, copy_string, join_spec, lowercase, push_str,
    str_eq, string_from_chars, to_lowercase, trim_chars, trim_spec,
};

verus! {

/// Where a configured emulator executable comes from.
#[derive(Debug, Clone, Copy, PartialEq, Eq, Structural)]
pub enum RunnerSource {
    Flatpak,
    AppImage,
    System,
}

/// A `flatpak run` command is a Flatpak; a path naming an `.AppImage`
/// (ignoring case) is an AppImage; anything else is a system executable.
pub open spec fn runner_source_spec(path: Seq<char>) -> RunnerSource {
    if starts_with_spec(path, "flatpak run"@) {
        RunnerSource::Flatpak
    } else if contains_spec(lowercase(path), ".appimage"@) {
        RunnerSource::AppImage
    } else {
        RunnerSource::System
    }
}

pub open spec fn runner_source_name_spec(s: RunnerSource) -> Seq<char> {
    match s {
        RunnerSource::Flatpak => "flatpak"@,
        RunnerSource::AppImage => "appimage"@,
        RunnerSource::System => "system"@,
    }
}

/// The name a source is stored under.
pub fn runner_source_name(s: RunnerSource) -> (r: String)
    ensures
        r@ == runner_source_name_spec(s),
{
    match s {
        RunnerSource::Flatpak => String::from_str("flatpak"),
        RunnerSource::AppImage => String::from_str("appimage"),
        RunnerSource::System => String::from_str("system"),
    }
}

/// A command line (holds a space) or a `flatpak run` invocation, rather
/// than a path to a file.
pub open spec fn is_command_spec(path: Seq<char>) -> bool {
    contains_spec(path, seq![' ']) || starts_with_spec(path, "flatpak run"@)
}

/// What saving the emulator options popup does with the typed path.
#[derive(Debug)]
pub enum RunnerSaveCheck {
    /// The path cannot be saved; the status line says why.
    Rejected(String),
    /// Save the trimmed path, which comes from `source`.
    Accepted { path: String, source: RunnerSource },
}

/// Check the executable path typed in the emulator options popup before it
/// is saved. `trimmed_exists` tells whether a file exists at the trimmed
/// path (the caller tests it). A blank path is refused; so is a path that is
/// neither a command nor an existing file.
pub fn check_runner_path(exe_path_input: &str, trimmed_exists: bool) -> (r: RunnerSaveCheck)
    ensures
        trim_spec(exe_path_input@).len() == 0 ==> (r matches RunnerSaveCheck::Rejected(m) && m@
            == "Error: Executable / .AppImage path cannot be empty."@),
        trim_spec(exe_path_input@).len() > 0 && !is_command_spec(trim_spec(exe_path_input@))
            && !trimmed_exists ==> (r matches RunnerSaveCheck::Rejected(m) && m@
            == "Error: File does not exist on system: '"@ + trim_spec(exe_path_input@)
            + "'. Select a valid executable."@),
        trim_spec(exe_path_input@).len() > 0 && (is_command_spec(trim_spec(exe_path_input@))
            || trimmed_exists) ==> (r matches RunnerSaveCheck::Accepted { path, source } && path@
            == trim_spec(exe_path_input@) && source == runner_source_spec(trim_spec(exe_path_input@))),
{
    let v = chars_of(exe_path_input);
    let pt = trim_chars(&v);
    if pt.len() == 0 {
        return RunnerSaveCheck::Rejected(
            String::from_str("Error: Executable / .AppImage path cannot be empty."),
        );
    }
    let mut space: Vec<char> = Vec::new();
    space.push(' ');
    assert(space@ =~= seq![' ']);
    let flatpak = chars_of("flatpak run");
    let is_flatpak = starts_with_chars(&pt, &flatpak);
    let is_command = contains_chars(&pt, &space) || is_flatpak;
    let path = string_from_chars(&pt);
    if !is_command && !trimmed_exists {
        let mut t: Vec<char> = Vec::new();
        push_str(&mut t, "Error: File does not exist on system: '");
        push_str(&mut t, path.as_str());
        push_str(&mut t, "'. Select a valid executable.");
        return RunnerSaveCheck::Rejected(string_from_chars(&t));
    }
    let source = if is_flatpak {
        RunnerSource::Flatpak
    } else {
        let lower = to_lowercase(path.as_str());
        let lv = chars_of(lower.as_str());
        let appimage = chars_of(".appimage");
        if contains_chars(&lv, &appimage) {
            RunnerSource::AppImage
        } else {
            RunnerSource::System
        }
    };
    RunnerSaveCheck::Accepted { path, source }
}

/// Append `keys` joined by ", " to `out`.
fn push_joined(out: &mut Vec<char>, keys: &[String])
    ensures
        final(out)@ == old(out)@ + join_spec(keys@.map_values(|k: String| k@), ", "@),
{
    let ghost start = out@;
    let ghost ks = keys@.map_values(|k: String| k@);
    let mut i: usize = 0;
    assert(ks.take(0) =~= Seq::<Seq<char>>::empty());
    assert(out@ =~= start + join_spec(ks.take(0), ", "@));
    while i < keys.len()
        invariant
            i <= keys.len(),
            ks == keys@.map_values(|k: String| k@),
            out@ == start + join_spec(ks.take(i as int), ", "@),
        decreases keys.len() - i,
    {
        let ghost t = ks.take(i as int + 1);
        assert(t.drop_last() =~= ks.take(i as int));
        assert(t.last() == keys@[i as int]@);
        if i > 0 {
            push_str(out, ", ");
        }
        push_str(out, keys[i].as_str());
        if i == 0 {
            assert(t.len() == 1);
            assert(out@ =~= start + t[0]);
        } else {
            assert(out@ =~= start + (join_spec(t.drop_last(), ", "@) + ", "@ + t.last()));
        }
        i = i + 1;
    }
    assert(ks.take(keys.len() as int) =~= ks);
}

/// The status line after an emulator was saved: a confirmation naming the
/// emulator and its console initials, followed by a warning listing the
/// options that could not be written to the emulator's own config file.
pub fn runner_saved_status(name: &str, initials: &str, failed_keys: &[String]) -> (s: String)
    ensures
        s@ == "[OK] Emulator '"@ + name@ + "' ("@ + initials@ + ") configured successfully!"@ + (
        if failed_keys@.len() == 0 {
            Seq::<char>::empty()
        } else {
            " - Warning: no se pudo aplicar la opcion(es) ["@ + join_spec(
                failed_keys@.map_values(|k: String| k@),
                ", "@,
            ) + "] al archivo de config del emulador."@
        }),
{
    let mut t: Vec<char> = Vec::new();
    push_str(&mut t, "[OK] Emulator '");
    push_str(&mut t, name);
    push_str(&mut t, "' (");
    push_str(&mut t, initials);
    push_str(&mut t, ") configured successfully!");
    let ghost base = t@;
    if failed_keys.len() > 0 {
        push_str(&mut t, " - Warning: no se pudo aplicar la opcion(es) [");
        push_joined(&mut t, failed_keys);
        push_str(&mut t, "] al archivo de config del emulador.");
    }
    assert(t@ =~= base + (if failed_keys@.len() == 0 {
        Seq::<char>::empty()
    } else {
        " - Warning: no se pudo aplicar la opcion(es) ["@ + join_spec(
            failed_keys@.map_values(|k: String| k@),
            ", "@,
        ) + "] al archivo de config del emulador."@
    }));
    string_from_chars(&t)
}

/// The status line when saving the emulator failed with `err`.
pub fn runner_save_error_status(err: &str) -> (s: String)
    ensures
        s@ == "Error saving runner: "@ + err@,
{
    let mut t: Vec<char> = Vec::new();
    push_str(&mut t, "Error saving runner: ");
    push_str(&mut t, err);
    string_from_chars(&t)
}

/// The status line after an emulator was activated or deactivated.
pub fn runner_toggle_status(name: &str, initials: &str, activated: bool) -> (s: String)
    ensures
        s@ == "Emulator '"@ + name@ + "' ("@ + initials@ + ") "@ + (if activated {
            "activated"@
        } else {
            "deactivated"@
        }) + " successfully."@,
{
    let mut t: Vec<char> = Vec::new();
    push_str(&mut t, "Emulator '");
    push_str(&mut t, name);
    push_str(&mut t, "' (");
    push_str(&mut t, initials);
    push_str(&mut t, ") ");
    if activated {
        push_str(&mut t, "activated");
    } else {
        push_str(&mut t, "deactivated");
    }
    push_str(&mut t, " successfully.");
    string_from_chars(&t)
}

/// The status line when changing an emulator's state failed with `err`.
pub fn runner_state_error_status(err: &str) -> (s: String)
    ensures
        s@ == "Error updating runner state: "@ + err@,
{
    let mut t: Vec<char> = Vec::new();
    push_str(&mut t, "Error updating runner state: ");
    push_str(&mut t, err);
    string_from_chars(&t)
}

/// The status line after an emulator's executable was deleted.
pub fn runner_deleted_status(name: &str) -> (s: String)
    ensures
        s@ == "[Deleted] Emulator '"@ + name@ + "' executable deleted from disk."@,
{
    let mut t: Vec<char> = Vec::new();
    push_str(&mut t, "[Deleted] Emulator '");
    push_str(&mut t, name);
    push_str(&mut t, "' executable deleted from disk.");
    string_from_chars(&t)
}

/// The executable the delete confirmation names: the path typed in the
/// popup when it is not blank (trimmed), else the one already configured.
pub fn delete_confirm_path(configured: &Option<String>, exe_path_input: &str) -> (r: Option<String>)
    ensures
        trim_spec(exe_path_input@).len() > 0 ==> (r matches Some(p) && p@ == trim_spec(
            exe_path_input@,
        )),
        trim_spec(exe_path_input@).len() == 0 ==> crate::text::opt_view(r)
            == crate::text::opt_view(*configured),
{
    let v = chars_of(exe_path_input);
    let pt = trim_chars(&v);
    if pt.len() > 0 {
        Some(string_from_chars(&pt))
    } else {
        crate::text::copy_opt_string(configured)
    }
}

/// Whether the emulator can be opened on its own: `Ok` with the trimmed
/// executable, or `Err` with the status line. `usable` tells whether the
/// trimmed path exists on disk or is a command the system can run (the
/// caller tests it).
pub fn standalone_check(name: &str, exe_path_input: &str, usable: bool) -> (r: Result<String, String>)
    ensures
        trim_spec(exe_path_input@).len() == 0 ==> (r matches Err(m) && m@
            == "Configure the executable for '"@ + name@ + "' before opening it."@),
        trim_spec(exe_path_input@).len() > 0 && !usable ==> (r matches Err(m) && m@
            == "Executable/AppImage for '"@ + name@ + "' does not exist on disk ("@ + trim_spec(
            exe_path_input@,
        ) + ")."@),
        trim_spec(exe_path_input@).len() > 0 && usable ==> (r matches Ok(p) && p@ == trim_spec(
            exe_path_input@,
        )),
{
    let v = chars_of(exe_path_input);
    let pt = trim_chars(&v);
    let mut t: Vec<char> = Vec::new();
    if pt.len() == 0 {
        push_str(&mut t, "Configure the executable for '");
        push_str(&mut t, name);
        push_str(&mut t, "' before opening it.");
        return Err(string_from_chars(&t));
    }
    let exe = string_from_chars(&pt);
    if !usable {
        push_str(&mut t, "Executable/AppImage for '");
        push_str(&mut t, name);
        push_str(&mut t, "' does not exist on disk (");
        push_str(&mut t, exe.as_str());
        push_str(&mut t, ").");
        return Err(string_from_chars(&t));
    }
    Ok(exe)
}

/// The status line while an emulator opens on its own.
pub fn opening_status(name: &str) -> (s: String)
    ensures
        s@ == "Opening "@ + name@ + "..."@,
{
    let mut t: Vec<char> = Vec::new();
    push_str(&mut t, "Opening ");
    push_str(&mut t, name);
    push_str(&mut t, "...");
    string_from_chars(&t)
}

/// Whether `s` ends with `p`.
pub open spec fn ends_with_spec(s: Seq<char>, p: Seq<char>) -> bool {
    p.len() <= s.len() && s.subrange(s.len() - p.len(), s.len() as int) == p
}

fn ends_with_chars(s: &Vec<char>, p: &Vec<char>) -> (b: bool)
    ensures
        b == ends_with_spec(s@, p@),
{
    if p.len() > s.len() {
        return false;
    }
    let off = s.len() - p.len();
    let mut i: usize = 0;
    while i < p.len()
        invariant
            i <= p.len(),
            off + p.len() == s.len(),
            forall|k: int| 0 <= k < i ==> s@[off + k] == p@[k],
        decreases p.len() - i,
    {
        if s[off + i] != p[i] {
            assert(s@.subrange(off as int, s.len() as int)[i as int] != p@[i as int]);
            return false;
        }
        i = i + 1;
    }
    assert(s@.subrange(off as int, s.len() as int) =~= p@);
    true
}

/// ASCII case folding of one character, as a code point
/// (`char::to_ascii_lowercase`).
pub open spec fn ascii_fold(c: char) -> u32 {
    let n = c as u32;
    if 65 <= n && n <= 90 {
        (n + 32) as u32
    } else {
        n
    }
}

fn ascii_fold_exec(c: char) -> (r: u32)
    ensures
        r == ascii_fold(c),
{
    let n = c as u32;
    if 65 <= n && n <= 90 {
        n + 32
    } else {
        n
    }
}

/// `str::eq_ignore_ascii_case`: equal once ASCII letters are folded.
pub open spec fn eq_ignore_ascii_case_spec(a: Seq<char>, b: Seq<char>) -> bool {
    a.len() == b.len() && forall|i: int| 0 <= i < a.len() ==> ascii_fold(a[i]) == ascii_fold(b[i])
}

fn eq_ignore_ascii_case(a: &Vec<char>, b: &Vec<char>) -> (r: bool)
    ensures
        r == eq_ignore_ascii_case_spec(a@, b@),
{
    if a.len() != b.len() {
        return false;
    }
    let mut i: usize = 0;
    while i < a.len()
        invariant
            i <= a.len() == b.len(),
            forall|k: int| 0 <= k < i ==> ascii_fold(a@[k]) == ascii_fold(b@[k]),
        decreases a.len() - i,
    {
        if ascii_fold_exec(a[i]) != ascii_fold_exec(b[i]) {
            return false;
        }
        i = i + 1;
    }
    true
}

/// How a downloaded emulator file is unpacked.
#[derive(Debug, Clone, Copy, PartialEq, Eq, Structural)]
pub enum ArchiveKind {
    /// RetroArch's `.7z` bundle, unpacked into its managed directory.
    RetroArch7z,
    /// melonDS's zip, holding its AppImage.
    MelonDsZip,
    /// The file is the executable itself.
    Plain,
}

pub open spec fn archive_kind_spec(name: Seq<char>, filename: Seq<char>) -> ArchiveKind {
    if name == "RetroArch"@ || ends_with_spec(lowercase(filename), ".7z"@) {
        ArchiveKind::RetroArch7z
    } else if name == "melonDS"@ && eq_ignore_ascii_case_spec(
        filename,
        "melonDS-1.1-appimage-x86_64.zip"@,
    ) {
        ArchiveKind::MelonDsZip
    } else {
        ArchiveKind::Plain
    }
}

/// What an emulator download fetches and where its executable lands.
#[derive(Debug)]
pub struct RunnerDownloadPlan {
    pub url: String,
    /// The file the download is saved as, in the emulators directory.
    pub filename: String,
    pub archive: ArchiveKind,
    /// The executable's file name in the emulators directory once unpacked.
    pub executable_name: String,
}

/// Whether an emulator download starts.
#[derive(Debug)]
pub enum RunnerDownloadStart {
    /// Another download is running; the status line says so.
    Busy(String),
    /// The emulator has no download URL; the status line says so.
    NoUrl(String),
    /// Start this download and show the status line.
    Start(RunnerDownloadPlan, String),
}

/// Plan the download of emulator `name` from its `download_url`, saved as
/// `download_filename` or, without one, as its lowercased name with
/// `.AppImage`. Refused while another download runs (`busy`) or without a
/// URL.
pub fn plan_runner_download(
    busy: bool,
    name: &str,
    download_url: &Option<String>,
    download_filename: &Option<String>,
) -> (r: RunnerDownloadStart)
    ensures
        busy ==> (r matches RunnerDownloadStart::Busy(m) && m@
            == "[Warning] A download task is already in progress. Please wait for it to complete."@),
        !busy && !(download_url matches Some(u) && u@.len() > 0) ==> (
        r matches RunnerDownloadStart::NoUrl(m) && m@
            == "[Error] No official download URL configured for '"@ + name@ + "'."@),
        !busy && (download_url matches Some(u) && u@.len() > 0) ==> (
        r matches RunnerDownloadStart::Start(plan, status) && {
            let filename = match download_filename {
                Some(f) => f@,
                None => lowercase(name@) + ".AppImage"@,
            };
            &&& plan.url@ == download_url->0@
            &&& plan.filename@ == filename
            &&& plan.archive == archive_kind_spec(name@, filename)
            &&& plan.executable_name@ == if plan.archive == ArchiveKind::MelonDsZip {
                "melonDS-x86_64.AppImage"@
            } else {
                filename
            }
            &&& status@ == "Downloading "@ + name@ + "..."@
        }),
{
    if busy {
        return RunnerDownloadStart::Busy(
            String::from_str(
                "[Warning] A download task is already in progress. Please wait for it to complete.",
            ),
        );
    }
    let url = match download_url {
        Some(u) => {
            let uv = chars_of(u.as_str());
            if uv.len() == 0 {
                None
            } else {
                Some(copy_string(u.as_str()))
            }
        },
        None => None,
    };
    let url = match url {
        Some(u) => u,
        None => {
            let mut t: Vec<char> = Vec::new();
            push_str(&mut t, "[Error] No official download URL configured for '");
            push_str(&mut t, name);
            push_str(&mut t, "'.");
            return RunnerDownloadStart::NoUrl(string_from_chars(&t));
        },
    };
    let filename = match download_filename {
        Some(f) => copy_string(f.as_str()),
        None => {
            let low = to_lowercase(name);
            let mut t: Vec<char> = chars_of(low.as_str());
            push_str(&mut t, ".AppImage");
            string_from_chars(&t)
        },
    };
    let lower_file = to_lowercase(filename.as_str());
    let lf = chars_of(lower_file.as_str());
    let seven = chars_of(".7z");
    let fv = chars_of(filename.as_str());
    let melon_zip = chars_of("melonDS-1.1-appimage-x86_64.zip");
    let archive = if str_eq(name, "RetroArch") || ends_with_chars(&lf, &seven) {
        ArchiveKind::RetroArch7z
    } else if str_eq(name, "melonDS") && eq_ignore_ascii_case(&fv, &melon_zip) {
        ArchiveKind::MelonDsZip
    } else {
        ArchiveKind::Plain
    };
    let executable_name = match archive {
        ArchiveKind::MelonDsZip => String::from_str("melonDS-x86_64.AppImage"),
        _ => copy_string(filename.as_str()),
    };
    let mut t: Vec<char> = Vec::new();
    push_str(&mut t, "Downloading ");
    push_str(&mut t, name);
    push_str(&mut t, "...");
    RunnerDownloadStart::Start(
        RunnerDownloadPlan { url, filename, archive, executable_name },
        string_from_chars(&t),
    )
}

} // verus!
