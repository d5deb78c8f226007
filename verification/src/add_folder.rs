//! Registering a ROM folder from the add-folder form: the extension list it
//! scans for, the checks before it is saved, the row selected afterwards,
//! and the quick re-scan of a platform's saved folder.
use vstd::prelude::*;
use crate::scan_form::ScanFolderItem;
use crate::text::{chars_of, copy_string, pieces, push_str, split_pieces, str_eq, string_from_chars, trim_chars, trim_spec, views};

verus! {

/// ASCII case folding of one character (`char::to_ascii_lowercase`).
pub open spec fn ascii_lower_char(c: char) -> char {
    if 'A' <= c && c <= 'Z' {
        ((c as u8) + 32) as char
    } else {
        c
    }
}

fn ascii_lower_char_exec(c: char) -> (r: char)
    ensures
        r == ascii_lower_char(c),
{
    if 'A' <= c && c <= 'Z' {
        ((c as u8) + 32) as char
    } else {
        c
    }
}

/// One extension as scanned for: ASCII-lowercased, with a leading dot.
pub open spec fn normalize_ext(e: Seq<char>) -> Seq<char> {
    let l = e.map_values(|c: char| ascii_lower_char(c));
    if l.len() > 0 && l[0] == '.' {
        l
    } else {
        seq!['.'] + l
    }
}

/// The extensions named by comma-separated pieces: each piece trimmed,
/// blank pieces dropped, the rest normalized, in order.
pub open spec fn extensions_of(ps: Seq<Seq<char>>) -> Seq<Seq<char>>
    decreases ps.len(),
{
    if ps.len() == 0 {
        Seq::empty()
    } else {
        let rest = extensions_of(ps.drop_last());
        let t = trim_spec(ps.last());
        if t.len() == 0 {
            rest
        } else {
            rest.push(normalize_ext(t))
        }
    }
}

/// The extensions typed in the form's comma-separated list.
pub open spec fn extensions_spec(input: Seq<char>) -> Seq<Seq<char>> {
    extensions_of(pieces(input, ','))
}

fn normalized(t: &Vec<char>) -> (r: Vec<char>)
    ensures
        r@ == normalize_ext(t@),
{
    let mut l: Vec<char> = Vec::new();
    let mut i: usize = 0;
    while i < t.len()
        invariant
            i <= t.len(),
            l@ == t@.take(i as int).map_values(|c: char| ascii_lower_char(c)),
        decreases t.len() - i,
    {
        l.push(ascii_lower_char_exec(t[i]));
        assert(t@.take(i as int + 1).map_values(|c: char| ascii_lower_char(c)) =~= t@.take(
            i as int,
        ).map_values(|c: char| ascii_lower_char(c)).push(ascii_lower_char(t@[i as int])));
        i = i + 1;
    }
    assert(t@.take(t.len() as int) =~= t@);
    if l.len() > 0 && l[0] == '.' {
        l
    } else {
        let mut out: Vec<char> = Vec::new();
        out.push('.');
        let mut j: usize = 0;
        while j < l.len()
            invariant
                j <= l.len(),
                out@ == seq!['.'] + l@.take(j as int),
            decreases l.len() - j,
        {
            out.push(l[j]);
            assert(seq!['.'] + l@.take(j as int + 1) =~= (seq!['.'] + l@.take(j as int)).push(
                l@[j as int],
            ));
            j = j + 1;
        }
        assert(l@.take(l.len() as int) =~= l@);
        out
    }
}

/// The extensions to scan for, from the form's comma-separated list
/// (`".nes, SFC,,smc "` gives `.nes`, `.sfc`, `.smc`).
pub fn parse_extensions(input: &str) -> (r: Vec<String>)
    ensures
        r@.map_values(|s: String| s@) == extensions_spec(input@),
{
    let v = chars_of(input);
    let ps = split_pieces(&v, ',');
    let ghost pv = views(ps@);
    let mut out: Vec<String> = Vec::new();
    let mut i: usize = 0;
    assert(pv.take(0) =~= Seq::<Seq<char>>::empty());
    while i < ps.len()
        invariant
            i <= ps.len(),
            pv == views(ps@),
            out@.map_values(|s: String| s@) == extensions_of(pv.take(i as int)),
        decreases ps.len() - i,
    {
        let ghost before = out@.map_values(|s: String| s@);
        assert(pv.take(i as int + 1).drop_last() =~= pv.take(i as int));
        assert(pv.take(i as int + 1).last() == ps@[i as int]@);
        let t = trim_chars(&ps[i]);
        if t.len() > 0 {
            let n = normalized(&t);
            out.push(string_from_chars(&n));
            assert(out@.map_values(|s: String| s@) =~= before.push(normalize_ext(t@)));
        }
        i = i + 1;
    }
    assert(pv.take(ps.len() as int) =~= pv);
    out
}

/// What registering the typed folder does.
#[derive(Debug)]
pub enum FolderCheck {
    /// The folder is not registered; the status line says why.
    Rejected(String),
    /// Register the trimmed folder and scan it for these extensions.
    Accepted { path: String, extensions: Vec<String> },
}

/// Check the add-folder form before its folder is registered. `is_dir`
/// tells whether the trimmed path exists and is a directory (the caller
/// tests it).
pub fn check_new_folder(folder_path: &str, is_dir: bool, extensions_input: &str) -> (r: FolderCheck)
    ensures
        trim_spec(folder_path@).len() == 0 ==> (r matches FolderCheck::Rejected(m) && m@
            == "Error: enter a folder path or press [Enter] on Path to browse."@),
        trim_spec(folder_path@).len() > 0 && !is_dir ==> (r matches FolderCheck::Rejected(m) && m@
            == "Error: folder does not exist or is not a directory: '"@ + trim_spec(folder_path@)
            + "'"@),
        trim_spec(folder_path@).len() > 0 && is_dir && extensions_spec(extensions_input@).len()
            == 0 ==> (r matches FolderCheck::Rejected(m) && m@
            == "Error: enter at least one ROM extension to scan."@),
        trim_spec(folder_path@).len() > 0 && is_dir && extensions_spec(extensions_input@).len()
            > 0 ==> (r matches FolderCheck::Accepted { path, extensions } && path@ == trim_spec(
            folder_path@,
        ) && extensions@.map_values(|s: String| s@) == extensions_spec(extensions_input@)),
{
    let pt = trim_chars(&chars_of(folder_path));
    if pt.len() == 0 {
        return FolderCheck::Rejected(
            String::from_str("Error: enter a folder path or press [Enter] on Path to browse."),
        );
    }
    let path = string_from_chars(&pt);
    if !is_dir {
        let mut t: Vec<char> = Vec::new();
        push_str(&mut t, "Error: folder does not exist or is not a directory: '");
        push_str(&mut t, path.as_str());
        push_str(&mut t, "'");
        return FolderCheck::Rejected(string_from_chars(&t));
    }
    let extensions = parse_extensions(extensions_input);
    if extensions.len() == 0 {
        return FolderCheck::Rejected(
            String::from_str("Error: enter at least one ROM extension to scan."),
        );
    }
    FolderCheck::Accepted { path, extensions }
}

/// The status line after a folder was registered.
pub fn folder_registered_status(path: &str) -> (s: String)
    ensures
        s@ == "[OK] Folder registered: '"@ + path@ + "'."@,
{
    let mut t: Vec<char> = Vec::new();
    push_str(&mut t, "[OK] Folder registered: '");
    push_str(&mut t, path);
    push_str(&mut t, "'.");
    string_from_chars(&t)
}

/// The status line when the folder could not be registered.
pub fn folder_register_error_status(err: &str) -> (s: String)
    ensures
        s@ == "Error registering folder: "@ + err@,
{
    let mut t: Vec<char> = Vec::new();
    push_str(&mut t, "Error registering folder: ");
    push_str(&mut t, err);
    string_from_chars(&t)
}

/// The row of the folder manager that shows the emulator of the folder at
/// `path`: the first such row, or 0 when there is none.
pub open spec fn is_row_of(items: Seq<ScanFolderItem>, folder_paths: Seq<Seq<char>>, path: Seq<char>, k: int) -> bool {
    0 <= k < items.len() && (items[k] matches ScanFolderItem::FolderEmulator(i) && i
        < folder_paths.len() && folder_paths[i as int] == path)
}

/// The texts of a list of strings.
pub open spec fn string_views(v: Seq<String>) -> Seq<Seq<char>> {
    v.map_values(|s: String| s@)
}

/// Select the row of the folder just registered in the folder manager.
pub fn new_folder_row(items: &[ScanFolderItem], folder_paths: &[String], path: &str) -> (r: usize)
    ensures
        (exists|k: int| #[trigger] is_row_of(items@, string_views(folder_paths@), path@, k)) ==> {
            &&& is_row_of(items@, string_views(folder_paths@), path@, r as int)
            &&& forall|k: int|
                0 <= k < r ==> !#[trigger] is_row_of(items@, string_views(folder_paths@), path@, k)
        },
        !(exists|k: int| #[trigger] is_row_of(items@, string_views(folder_paths@), path@, k))
            ==> r == 0,
{
    let ghost fp = string_views(folder_paths@);
    let mut k: usize = 0;
    while k < items.len()
        invariant
            k <= items.len(),
            fp == string_views(folder_paths@),
            forall|j: int| 0 <= j < k ==> !#[trigger] is_row_of(items@, fp, path@, j),
        decreases items.len() - k,
    {
        match &items[k] {
            ScanFolderItem::FolderEmulator(i) => {
                if *i < folder_paths.len() && str_eq(folder_paths[*i].as_str(), path) {
                    assert(is_row_of(items@, fp, path@, k as int));
                    return k;
                }
            },
            _ => {},
        }
        k = k + 1;
    }
    0
}

/// The status line after the delete confirmation of a folder ran:
/// `err` is the error of the first deletion that failed, if any.
pub fn folder_delete_status(err: &Option<String>, display: &str) -> (s: String)
    ensures
        match err {
            Some(e) => s@ == "Error deleting folder: "@ + e@,
            None => s@ == "[OK] Removed folder '"@ + display@ + "'."@,
        },
{
    let mut t: Vec<char> = Vec::new();
    match err {
        Some(e) => {
            push_str(&mut t, "Error deleting folder: ");
            push_str(&mut t, e.as_str());
        },
        None => {
            push_str(&mut t, "[OK] Removed folder '");
            push_str(&mut t, display);
            push_str(&mut t, "'.");
        },
    }
    string_from_chars(&t)
}

/// What [r] (quick re-scan of the selected platform) does.
#[derive(Debug)]
pub enum QuickRescan {
    /// The platform has no saved folder; show this status line.
    NoFolder(String),
    /// The saved folder is gone; show this status line.
    Missing(String),
    /// Re-scan the saved folder: the progress label and the status line.
    Scan { label: String, status: String },
}

/// Decide the quick re-scan of platform `platform_name`, whose saved ROM
/// folder is `saved_path`; `exists` tells whether that folder exists.
pub fn quick_rescan_decision(platform_name: &str, saved_path: &Option<String>, exists: bool) -> (r: QuickRescan)
    ensures
        saved_path is None ==> (r matches QuickRescan::NoFolder(m) && m@
            == "No saved ROM folder for '"@ + platform_name@ + "'. Press [a] to scan a folder."@),
        saved_path matches Some(p) ==> (!exists ==> (r matches QuickRescan::Missing(m) && m@
            == "[Error] Saved folder not found: '"@ + p@ + "'"@)),
        saved_path is Some && exists ==> (r matches QuickRescan::Scan { label, status } && label@
            == "Quick Re-scanning: "@ + platform_name@ && status@ == "Re-scanning & Identifying ROMs for "@
            + platform_name@ + "..."@),
{
    let mut t: Vec<char> = Vec::new();
    match saved_path {
        None => {
            push_str(&mut t, "No saved ROM folder for '");
            push_str(&mut t, platform_name);
            push_str(&mut t, "'. Press [a] to scan a folder.");
            QuickRescan::NoFolder(string_from_chars(&t))
        },
        Some(p) => {
            if !exists {
                push_str(&mut t, "[Error] Saved folder not found: '");
                push_str(&mut t, p.as_str());
                push_str(&mut t, "'");
                QuickRescan::Missing(string_from_chars(&t))
            } else {
                push_str(&mut t, "Quick Re-scanning: ");
                push_str(&mut t, platform_name);
                let mut u: Vec<char> = Vec::new();
                push_str(&mut u, "Re-scanning & Identifying ROMs for ");
                push_str(&mut u, platform_name);
                push_str(&mut u, "...");
                QuickRescan::Scan { label: string_from_chars(&t), status: string_from_chars(&u) }
            }
        },
    }
}

/// The status line when a saved folder is gone from disk.
pub fn saved_folder_missing_status(path: &str) -> (s: String)
    ensures
        s@ == "[Error] Saved folder not found: '"@ + path@ + "'"@,
{
    let mut t: Vec<char> = Vec::new();
    push_str(&mut t, "[Error] Saved folder not found: '");
    push_str(&mut t, path);
    push_str(&mut t, "'");
    string_from_chars(&t)
}

/// The folders [Scan] in the folder manager scans.
#[derive(Debug)]
pub enum FolderScanPlan {
    /// Nothing is scanned; the status line says why.
    Refused(String),
    /// Scan the folders at these positions, in order. `skipped` is the
    /// status line naming the last folder left out, if any.
    Scan { jobs: Vec<usize>, skipped: Option<String> },
}

/// Plan the scan of every registered folder (`paths`); `usable[i]` tells
/// whether folder `i` exists and is a directory. Missing folders are
/// skipped; without folders, or without a usable one, nothing is scanned.
pub fn plan_folder_scan(paths: &[String], usable: &[bool]) -> (r: FolderScanPlan)
    requires
        paths.len() == usable.len(),
    ensures
        paths@.len() == 0 ==> (r matches FolderScanPlan::Refused(m) && m@
            == "Error: no folders registered. Use [ + Add New Folder ] first."@),
        paths@.len() > 0 && (forall|i: int| 0 <= i < usable@.len() ==> !usable@[i]) ==> (
        r matches FolderScanPlan::Refused(m) && m@ == "[Error] No valid folders to scan."@),
        r matches FolderScanPlan::Scan { jobs, skipped } ==> {
            &&& jobs@.len() > 0
            &&& forall|k: int| 0 <= k < jobs@.len() ==> jobs@[k] < usable@.len() && usable@[jobs@[k] as int]
            &&& forall|i: int| 0 <= i < usable@.len() && usable@[i] ==> jobs@.contains(i as usize)
            &&& forall|a: int, b: int| 0 <= a < b < jobs@.len() ==> jobs@[a] < jobs@[b]
            &&& match skipped {
                Some(m) => exists|i: int|
                    0 <= i < usable@.len() && !usable@[i] && (forall|j: int|
                        i < j < usable@.len() ==> usable@[j]) && m@
                        == "[Error] Folder not found, skipping: '"@ + paths@[i]@ + "'"@,
                None => forall|i: int| 0 <= i < usable@.len() ==> usable@[i],
            }
        },
        (paths@.len() > 0 && exists|i: int| 0 <= i < usable@.len() && usable@[i]) ==> r is Scan,
{
    if paths.len() == 0 {
        return FolderScanPlan::Refused(
            String::from_str("Error: no folders registered. Use [ + Add New Folder ] first."),
        );
    }
    let mut jobs: Vec<usize> = Vec::new();
    let mut skipped: Option<String> = None;
    let ghost mut last_skip: int = -1;
    let mut i: usize = 0;
    while i < paths.len()
        invariant
            i <= paths.len() == usable.len(),
            forall|k: int| 0 <= k < jobs@.len() ==> jobs@[k] < i && usable@[jobs@[k] as int],
            forall|j: int| 0 <= j < i && usable@[j] ==> jobs@.contains(j as usize),
            forall|a: int, b: int| 0 <= a < b < jobs@.len() ==> jobs@[a] < jobs@[b],
            -1 <= last_skip < i,
            last_skip >= 0 ==> !usable@[last_skip],
            forall|j: int| last_skip < j < i ==> usable@[j],
            match skipped {
                Some(m) => last_skip >= 0 && m@ == "[Error] Folder not found, skipping: '"@
                    + paths@[last_skip]@ + "'"@,
                None => last_skip == -1,
            },
        decreases paths.len() - i,
    {
        if usable[i] {
            let ghost before = jobs@;
            jobs.push(i);
            assert forall|j: int| 0 <= j < i + 1 && usable@[j] implies jobs@.contains(j as usize) by {
                if j < i {
                    let k = choose|k: int| 0 <= k < before.len() && before[k] == j as usize;
                    assert(jobs@[k] == j as usize);
                } else {
                    assert(jobs@[before.len() as int] == i);
                }
            }
        } else {
            let mut t: Vec<char> = Vec::new();
            push_str(&mut t, "[Error] Folder not found, skipping: '");
            push_str(&mut t, paths[i].as_str());
            push_str(&mut t, "'");
            skipped = Some(string_from_chars(&t));
            proof {
                last_skip = i as int;
            }
        }
        i = i + 1;
    }
    if jobs.len() == 0 {
        proof {
            assert forall|j: int| 0 <= j < usable@.len() implies !usable@[j] by {
                if usable@[j] {
                    assert(jobs@.contains(j as usize));
                }
            }
        }
        return FolderScanPlan::Refused(String::from_str("[Error] No valid folders to scan."));
    }
    proof {
        assert(usable@[jobs@[0] as int]);
    }
    FolderScanPlan::Scan { jobs, skipped }
}

/// What looking for installed versions of an emulator found.
#[derive(Debug)]
pub enum DetectOutcome {
    /// Nothing was found; show this status line.
    NoneFound(String),
    /// One version was found: use its launch command; show the status line.
    SetExecutable { command: String, status: String },
    /// Several were found: let the user choose among them.
    Choose,
}

/// Decide what the detection of emulator `name` does with the launch
/// commands of the versions it found.
pub fn detect_outcome(name: &str, commands: &[String]) -> (r: DetectOutcome)
    ensures
        commands@.len() == 0 ==> (r matches DetectOutcome::NoneFound(m) && m@
            == "No installed versions detected for '"@ + name@ + "'."@),
        commands@.len() == 1 ==> (r matches DetectOutcome::SetExecutable { command, status }
            && command@ == commands@[0]@ && status@ == "[OK] Detected and set executable for '"@
            + name@ + "': "@ + commands@[0]@),
        commands@.len() > 1 ==> r is Choose,
{
    let mut t: Vec<char> = Vec::new();
    if commands.len() == 0 {
        push_str(&mut t, "No installed versions detected for '");
        push_str(&mut t, name);
        push_str(&mut t, "'.");
        DetectOutcome::NoneFound(string_from_chars(&t))
    } else if commands.len() == 1 {
        push_str(&mut t, "[OK] Detected and set executable for '");
        push_str(&mut t, name);
        push_str(&mut t, "': ");
        push_str(&mut t, commands[0].as_str());
        DetectOutcome::SetExecutable {
            command: copy_string(commands[0].as_str()),
            status: string_from_chars(&t),
        }
    } else {
        DetectOutcome::Choose
    }
}

/// The status line after a detected version was chosen.
pub fn detected_choice_status(command: &str) -> (s: String)
    ensures
        s@ == "[OK] Selected detected executable: "@ + command@,
{
    let mut t: Vec<char> = Vec::new();
    push_str(&mut t, "[OK] Selected detected executable: ");
    push_str(&mut t, command);
    string_from_chars(&t)
}

} // verus!
