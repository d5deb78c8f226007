//! The scan-folder manager of a platform as a state machine: which folder a
//! row stands for, the delete confirmation of a folder (opening it, moving
//! between its two answers, and what answering does), and reassigning a
//! folder's emulator.
use vstd::prelude::*;
use crate::add_folder::folder_delete_status;
use crate::runners::{
    Runner, add_scan_emulator_label, emulator_label_spec, next_add_emulator_spec,
    next_add_folder_emulator, no_folder_emulator_status, folder_assignment_status, runner_views,
};
use crate::scan_form::ScanFolderItem;
use crate::text::{copy_string, opt_view};

verus! {

/// The folder a row of the manager stands for: its emulator row or its core
/// row, when that folder exists.
pub open spec fn folder_row_spec(items: Seq<ScanFolderItem>, selected_index: usize, folder_count: usize) -> Option<usize> {
    if selected_index < items.len() {
        match items[selected_index as int] {
            ScanFolderItem::FolderEmulator(i) => if i < folder_count {
                Some(i)
            } else {
                None
            },
            ScanFolderItem::FolderCore(i) => if i < folder_count {
                Some(i)
            } else {
                None
            },
            _ => None,
        }
    } else {
        None
    }
}

/// The folder the selected row of the manager stands for.
pub fn folder_row(items: &[ScanFolderItem], selected_index: usize, folder_count: usize) -> (r: Option<usize>)
    ensures
        r == folder_row_spec(items@, selected_index, folder_count),
{
    if selected_index >= items.len() {
        return None;
    }
    match items[selected_index] {
        ScanFolderItem::FolderEmulator(i) | ScanFolderItem::FolderCore(i) => if i < folder_count {
            Some(i)
        } else {
            None
        },
        _ => None,
    }
}

/// The delete confirmation of scan folders.
pub struct FolderDeleteConfirm {
    pub platform_id: i64,
    pub folder_ids: Vec<i64>,
    /// What the dialog names: the folder's path.
    pub display: String,
    /// How many games the folder holds.
    pub game_count: usize,
    /// The highlighted answer: 0 keeps the folder, 1 deletes it.
    pub selected_option: usize,
    /// The folder manager it was opened from is shown again afterwards.
    pub has_parent: bool,
}

/// Opening the delete confirmation for the folder at `folder_idx` of the
/// manager of platform `platform_id` (`game_count`: the games it holds):
/// it names the folder by its path, deletes only that folder, starts on
/// "keep", and returns to the manager; nothing when there is no such folder.
pub fn open_folder_delete(
    platform_id: i64,
    folder_ids: &[i64],
    folder_paths: &[String],
    folder_idx: usize,
    game_count: usize,
) -> (r: Option<FolderDeleteConfirm>)
    requires
        folder_ids@.len() == folder_paths@.len(),
    ensures
        folder_idx >= folder_ids@.len() <==> r is None,
        r matches Some(c) ==> {
            &&& c.platform_id == platform_id
            &&& c.folder_ids@ == seq![folder_ids@[folder_idx as int]]
            &&& c.display@ == folder_paths@[folder_idx as int]@
            &&& c.game_count == game_count
            &&& c.selected_option == 0
            &&& c.has_parent
        },
{
    if folder_idx >= folder_ids.len() {
        return None;
    }
    let mut ids: Vec<i64> = Vec::new();
    ids.push(folder_ids[folder_idx]);
    assert(ids@ =~= seq![folder_ids@[folder_idx as int]]);
    Some(
        FolderDeleteConfirm {
            platform_id,
            folder_ids: ids,
            display: copy_string(folder_paths[folder_idx].as_str()),
            game_count,
            selected_option: 0,
            has_parent: true,
        },
    )
}

/// Moving between the two answers: "delete" becomes highlighted from
/// "keep", and "keep" from anything else.
pub fn toggle_folder_delete_option(c: &mut FolderDeleteConfirm)
    ensures
        final(c).selected_option == if old(c).selected_option == 0 {
            1usize
        } else {
            0usize
        },
        final(c).platform_id == old(c).platform_id,
        final(c).folder_ids == old(c).folder_ids,
        final(c).display == old(c).display,
        final(c).game_count == old(c).game_count,
        final(c).has_parent == old(c).has_parent,
{
    c.selected_option = if c.selected_option == 0 {
        1
    } else {
        0
    };
}

/// What answering the delete confirmation does.
pub enum FolderDeleteAnswer {
    /// Delete these folders (with their games), one after the other,
    /// stopping at the first that fails; then report and go back.
    Delete(Vec<i64>),
    /// Keep the folders: just go back.
    Keep,
}

/// Answering the delete confirmation: the folders are deleted only when
/// "delete" is highlighted.
pub fn answer_folder_delete(c: &FolderDeleteConfirm) -> (r: FolderDeleteAnswer)
    ensures
        c.selected_option == 1 <==> r is Delete,
        r matches FolderDeleteAnswer::Delete(ids) ==> ids@ == c.folder_ids@,
{
    if c.selected_option == 1 {
        let mut ids: Vec<i64> = Vec::new();
        let mut i: usize = 0;
        while i < c.folder_ids.len()
            invariant
                i <= c.folder_ids.len(),
                ids@ == c.folder_ids@.take(i as int),
            decreases c.folder_ids.len() - i,
        {
            ids.push(c.folder_ids[i]);
            assert(c.folder_ids@.take(i as int + 1) =~= c.folder_ids@.take(i as int).push(c.folder_ids@[i as int]));
            i = i + 1;
        }
        assert(c.folder_ids@.take(c.folder_ids@.len() as int) =~= c.folder_ids@);
        FolderDeleteAnswer::Delete(ids)
    } else {
        FolderDeleteAnswer::Keep
    }
}

/// What the launcher shows once the confirmation was answered: the status
/// line when folders were deleted (`first_error`: the error of the first
/// deletion that failed, if any), and the manager of the platform it
/// returns to, which is reloaded.
pub fn finish_folder_delete(c: &FolderDeleteConfirm, deleted: bool, first_error: &Option<String>) -> (r: (
    Option<String>,
    i64,
))
    ensures
        r.1 == c.platform_id,
        !deleted ==> r.0 is None,
        deleted ==> (r.0 matches Some(s) && match first_error {
            Some(e) => s@ == "Error deleting folder: "@ + e@,
            None => s@ == "[OK] Removed folder '"@ + c.display@ + "'."@,
        }),
{
    if deleted {
        (Some(folder_delete_status(first_error, c.display.as_str())), c.platform_id)
    } else {
        (None, c.platform_id)
    }
}

/// What cycling the emulator of the selected folder does.
pub enum FolderEmulatorStep {
    /// The selected row is not a folder's: nothing.
    Nothing,
    /// No emulator is configured for the platform: show this status line.
    NoEmulator(String),
    /// Assign `emulator` (`None`: "Default") to the folder at `folder`; once
    /// stored, show `status` and reload the manager.
    Assign { folder: usize, emulator: Option<i64>, status: String },
}

/// Cycling the emulator of the folder on the selected row (◀ when
/// `backward`) through "Default" and the platform's configured emulators.
pub fn cycle_folder_emulator(
    items: &[ScanFolderItem],
    selected_index: usize,
    folder_paths: &[String],
    folder_emulators: &[Option<i64>],
    configured: &[Runner],
    platform_name: &str,
    backward: bool,
) -> (r: FolderEmulatorStep)
    requires
        folder_emulators@.len() == folder_paths@.len(),
    ensures
        folder_row_spec(items@, selected_index, folder_paths.len()) is None ==> r is Nothing,
        folder_row_spec(items@, selected_index, folder_paths.len()) is Some && configured@.len() == 0
            ==> (r matches FolderEmulatorStep::NoEmulator(m) && m@ == "No hay emulador configurado para "@
            + platform_name@ + ". Presiona [m] para configurar uno."@),
        ({
            let row = folder_row_spec(items@, selected_index, folder_paths.len());
            row is Some && configured@.len() > 0 ==> {
                let i = row->0;
                r matches FolderEmulatorStep::Assign { folder, emulator, status } && folder == i
                    && next_add_emulator_spec(runner_views(configured@), folder_emulators@[i as int], true, backward)
                    == Some(emulator) && status@ == "Carpeta "@ + folder_paths@[i as int]@ + " \u{2192} "@
                    + emulator_label_spec(emulator, runner_views(configured@), true, None)
            }
        }),
{
    let row = folder_row(items, selected_index, folder_paths.len());
    match row {
        None => FolderEmulatorStep::Nothing,
        Some(i) => {
            if configured.len() == 0 {
                return FolderEmulatorStep::NoEmulator(no_folder_emulator_status(platform_name));
            }
            match next_add_folder_emulator(configured, folder_emulators[i], true, backward) {
                Some(next) => {
                    let label = add_scan_emulator_label(next, configured, true, None);
                    assert(opt_view(None::<String>) == None::<Seq<char>>);
                    let status = folder_assignment_status(folder_paths[i].as_str(), label.as_str());
                    FolderEmulatorStep::Assign { folder: i, emulator: next, status }
                },
                None => FolderEmulatorStep::Nothing,
            }
        },
    }
}

} // verus!
