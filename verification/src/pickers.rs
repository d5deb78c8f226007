//! What a path chosen in the native file or folder picker does to the open
//! modal: which field receives it and what the status line says.
use vstd::prelude::*;
use crate::game_form::{GameFormText, GameFormTextView};
use crate::gamepad_dispatch::ModalKind;
use crate::scan_form::PlatformType;
use crate::text::{copy_string, opt_view, push_str, string_from_chars};

verus! {

/// Where a folder chosen in the folder picker goes.
#[derive(Debug, Clone, Copy, PartialEq, Eq, Structural)]
pub enum FolderPickTarget {
    /// The folder of the add-folder form.
    ScanFolder,
    /// The game form's working directory.
    WorkingDir,
    /// The game form's Wine prefix.
    WinePrefix,
    /// Nothing receives it.
    Ignore,
}

pub open spec fn folder_pick_target_spec(modal: ModalKind, gtype: PlatformType, field: usize) -> FolderPickTarget {
    if modal == ModalKind::AddFolderScanForm {
        FolderPickTarget::ScanFolder
    } else if modal == ModalKind::AddGameForm || modal == ModalKind::EditGameForm {
        if gtype == PlatformType::Native && field == 2 {
            FolderPickTarget::WorkingDir
        } else if gtype == PlatformType::Wine && field == 2 {
            FolderPickTarget::WinePrefix
        } else if gtype == PlatformType::Wine && field == 3 {
            FolderPickTarget::WorkingDir
        } else {
            FolderPickTarget::Ignore
        }
    } else {
        FolderPickTarget::Ignore
    }
}

/// The field of the open modal that a picked folder fills (`field` is the
/// focused field of a game form of type `gtype`).
pub fn folder_pick_target(modal: ModalKind, gtype: PlatformType, field: usize) -> (r: FolderPickTarget)
    ensures
        r == folder_pick_target_spec(modal, gtype, field),
{
    if modal == ModalKind::AddFolderScanForm {
        FolderPickTarget::ScanFolder
    } else if modal == ModalKind::AddGameForm || modal == ModalKind::EditGameForm {
        if gtype == PlatformType::Native && field == 2 {
            FolderPickTarget::WorkingDir
        } else if gtype == PlatformType::Wine && field == 2 {
            FolderPickTarget::WinePrefix
        } else if gtype == PlatformType::Wine && field == 3 {
            FolderPickTarget::WorkingDir
        } else {
            FolderPickTarget::Ignore
        }
    } else {
        FolderPickTarget::Ignore
    }
}

pub open spec fn folder_pick_status_spec(t: FolderPickTarget, path: Seq<char>) -> Option<Seq<char>> {
    match t {
        FolderPickTarget::ScanFolder => Some("Folder selected: "@ + path),
        FolderPickTarget::WorkingDir => Some("Working directory set: "@ + path),
        FolderPickTarget::WinePrefix => Some("WINEPREFIX set: "@ + path),
        FolderPickTarget::Ignore => None,
    }
}

/// The status line after a folder was picked for `t`.
pub fn folder_pick_status(t: FolderPickTarget, path: &str) -> (r: Option<String>)
    ensures
        opt_view(r) == folder_pick_status_spec(t, path@),
{
    let mut s: Vec<char> = Vec::new();
    match t {
        FolderPickTarget::ScanFolder => push_str(&mut s, "Folder selected: "),
        FolderPickTarget::WorkingDir => push_str(&mut s, "Working directory set: "),
        FolderPickTarget::WinePrefix => push_str(&mut s, "WINEPREFIX set: "),
        FolderPickTarget::Ignore => {
            return None;
        },
    }
    push_str(&mut s, path);
    Some(string_from_chars(&s))
}

/// A game form after a folder was picked for `t`.
pub open spec fn folder_pick_form_spec(f: GameFormTextView, t: FolderPickTarget, path: Seq<char>) -> GameFormTextView {
    match t {
        FolderPickTarget::WorkingDir => GameFormTextView { working_dir: path, ..f },
        FolderPickTarget::WinePrefix => GameFormTextView { wine_prefix: path, ..f },
        _ => f,
    }
}

/// Put a picked folder into the game form field `t` names.
pub fn apply_folder_pick(f: &mut GameFormText, t: FolderPickTarget, path: &str)
    ensures
        final(f)@ == folder_pick_form_spec(old(f)@, t, path@),
{
    match t {
        FolderPickTarget::WorkingDir => f.working_dir = copy_string(path),
        FolderPickTarget::WinePrefix => f.wine_prefix = copy_string(path),
        _ => {},
    }
}

/// Where a file chosen in the file picker goes.
#[derive(Debug, Clone, Copy, PartialEq, Eq, Structural)]
pub enum FilePickTarget {
    /// The executable path of the emulator options popup.
    RunnerExecutable,
    /// The ROM of an emulator game.
    RomFile,
    /// The executable of a native or Windows game (its folder becomes the
    /// working directory).
    GameExecutable,
    /// Nothing receives it.
    Ignore,
}

pub open spec fn file_pick_target_spec(modal: ModalKind, gtype: PlatformType, field: usize) -> FilePickTarget {
    if modal == ModalKind::ManageRunnersStep2Config {
        FilePickTarget::RunnerExecutable
    } else if modal == ModalKind::AddGameForm || modal == ModalKind::EditGameForm {
        let rom_field: usize = if modal == ModalKind::AddGameForm {
            2
        } else {
            1
        };
        if gtype == PlatformType::Emulator && field == rom_field {
            FilePickTarget::RomFile
        } else if (gtype == PlatformType::Native || gtype == PlatformType::Wine) && field == 1 {
            FilePickTarget::GameExecutable
        } else {
            FilePickTarget::Ignore
        }
    } else {
        FilePickTarget::Ignore
    }
}

/// The field of the open modal that a picked file fills. The add form
/// keeps an emulator game's ROM at field 2, the edit form at field 1.
pub fn file_pick_target(modal: ModalKind, gtype: PlatformType, field: usize) -> (r: FilePickTarget)
    ensures
        r == file_pick_target_spec(modal, gtype, field),
{
    if modal == ModalKind::ManageRunnersStep2Config {
        FilePickTarget::RunnerExecutable
    } else if modal == ModalKind::AddGameForm || modal == ModalKind::EditGameForm {
        let rom_field: usize = if modal == ModalKind::AddGameForm {
            2
        } else {
            1
        };
        if gtype == PlatformType::Emulator && field == rom_field {
            FilePickTarget::RomFile
        } else if (gtype == PlatformType::Native || gtype == PlatformType::Wine) && field == 1 {
            FilePickTarget::GameExecutable
        } else {
            FilePickTarget::Ignore
        }
    } else {
        FilePickTarget::Ignore
    }
}

pub open spec fn file_pick_status_spec(t: FilePickTarget, path: Seq<char>) -> Option<Seq<char>> {
    match t {
        FilePickTarget::RunnerExecutable => Some("File selected: "@ + path),
        FilePickTarget::RomFile => Some("ROM file selected: "@ + path),
        FilePickTarget::GameExecutable => Some("Executable file selected: "@ + path),
        FilePickTarget::Ignore => None,
    }
}

/// The status line after a file was picked for `t`.
pub fn file_pick_status(t: FilePickTarget, path: &str) -> (r: Option<String>)
    ensures
        opt_view(r) == file_pick_status_spec(t, path@),
{
    let mut s: Vec<char> = Vec::new();
    match t {
        FilePickTarget::RunnerExecutable => push_str(&mut s, "File selected: "),
        FilePickTarget::RomFile => push_str(&mut s, "ROM file selected: "),
        FilePickTarget::GameExecutable => push_str(&mut s, "Executable file selected: "),
        FilePickTarget::Ignore => {
            return None;
        },
    }
    push_str(&mut s, path);
    Some(string_from_chars(&s))
}

/// A game form after a file was picked: in the add form a blank title takes
/// the file's stem (when it has a non-empty one), whatever field is
/// focused; the ROM or executable path takes the file; an executable's
/// folder (`parent`, when it has one) becomes the working directory.
pub open spec fn file_pick_form_spec(
    f: GameFormTextView,
    is_add_form: bool,
    t: FilePickTarget,
    path: Seq<char>,
    stem: Option<Seq<char>>,
    parent: Option<Seq<char>>,
) -> GameFormTextView {
    let f1 = match stem {
        Some(s) => if is_add_form && f.title.len() == 0 && s.len() > 0 {
            GameFormTextView { title: s, ..f }
        } else {
            f
        },
        None => f,
    };
    match t {
        FilePickTarget::RomFile => GameFormTextView { file_path: path, ..f1 },
        FilePickTarget::GameExecutable => {
            let f2 = GameFormTextView { file_path: path, ..f1 };
            match parent {
                Some(p) => GameFormTextView { working_dir: p, ..f2 },
                None => f2,
            }
        },
        _ => f1,
    }
}

/// Put a picked file into the game form (`is_add_form` tells the add form
/// from the edit form; `stem` and `parent` are the file's stem and folder).
pub fn apply_file_pick(
    f: &mut GameFormText,
    is_add_form: bool,
    t: FilePickTarget,
    path: &str,
    stem: &Option<String>,
    parent: &Option<String>,
)
    ensures
        final(f)@ == file_pick_form_spec(old(f)@, is_add_form, t, path@, opt_view(*stem), opt_view(*parent)),
{
    if let Some(s) = stem {
        if is_add_form && f.title.as_str().is_empty() && !s.as_str().is_empty() {
            f.title = copy_string(s.as_str());
        }
    }
    match t {
        FilePickTarget::RomFile => {
            f.file_path = copy_string(path);
        },
        FilePickTarget::GameExecutable => {
            f.file_path = copy_string(path);
            if let Some(p) = parent {
                f.working_dir = copy_string(p.as_str());
            }
        },
        _ => {},
    }
}

} // verus!
