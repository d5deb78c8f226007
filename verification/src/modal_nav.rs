//! Moving around the modals: the ▲ ▼ selection in their lists, which modal
//! [Esc] returns to, and what the checkbox toggle flips on each form.
use vstd::prelude::*;
use crate::gamepad_dispatch::ModalKind;
use crate::scan_form::PlatformType;
use crate::session::LaunchFlags;

verus! {

/// The selection after one step through a list of `len` items: forward
/// wraps from the last item to the first, backward from the first to the
/// last; an empty list keeps the selection.
pub open spec fn list_step_spec(idx: usize, len: usize, backward: bool) -> usize {
    if len == 0 {
        idx
    } else if backward {
        if idx == 0 {
            (len - 1) as usize
        } else {
            (idx - 1) as usize
        }
    } else {
        ((idx + 1) % (len as int)) as usize
    }
}

/// ▲ (`backward`) or ▼ in a modal's list of `len` items.
pub fn select_in_list(idx: usize, len: usize, backward: bool) -> (r: usize)
    requires
        idx < usize::MAX,
    ensures
        r == list_step_spec(idx, len, backward),
{
    if len == 0 {
        idx
    } else if backward {
        if idx == 0 {
            len - 1
        } else {
            idx - 1
        }
    } else {
        (idx + 1) % len
    }
}

/// A selection inside a non-empty list stays inside it, and stepping
/// forward then backward (or backward then forward) comes back to it.
pub proof fn lemma_list_step_round_trip(idx: usize, len: usize)
    requires
        idx < len,
    ensures
        list_step_spec(idx, len, false) < len,
        list_step_spec(idx, len, true) < len,
        list_step_spec(list_step_spec(idx, len, false), len, true) == idx,
        list_step_spec(list_step_spec(idx, len, true), len, false) == idx,
{
    crate::cycle::lemma_wrapping_round_trip(idx as int, len as int);
}

/// Where [Esc] goes from a modal.
#[derive(Debug, Clone, Copy, PartialEq, Eq, Structural)]
pub enum CloseTarget {
    /// Back to the modal this one was opened from.
    Parent,
    /// Back to the first step of the add-game flow.
    AddGameStep1Type,
    /// Close every modal.
    Closed,
}

/// [Esc] returns to the modal a sub-modal was opened from (the runner
/// picker and the add/edit forms only when they have one; the custom
/// arguments editor, the core download list and the detected-emulator list
/// always do), from the scan platform step to the first add-game step, and
/// closes every other modal.
pub open spec fn close_target_spec(kind: ModalKind, has_parent: bool) -> CloseTarget {
    match kind {
        ModalKind::SelectWineRunnerPicker | ModalKind::AddFolderScanForm | ModalKind::AddGameForm
        | ModalKind::EditGameForm => if has_parent {
            CloseTarget::Parent
        } else {
            CloseTarget::Closed
        },
        ModalKind::EditCustomArgsInput | ModalKind::DownloadCoreModal
        | ModalKind::SelectDetectedEmulatorModal => CloseTarget::Parent,
        ModalKind::ScanFolderStep1Platform => CloseTarget::AddGameStep1Type,
        _ => CloseTarget::Closed,
    }
}

pub fn close_modal_target(kind: ModalKind, has_parent: bool) -> (r: CloseTarget)
    ensures
        r == close_target_spec(kind, has_parent),
{
    match kind {
        ModalKind::SelectWineRunnerPicker | ModalKind::AddFolderScanForm | ModalKind::AddGameForm
        | ModalKind::EditGameForm => if has_parent {
            CloseTarget::Parent
        } else {
            CloseTarget::Closed
        },
        ModalKind::EditCustomArgsInput | ModalKind::DownloadCoreModal
        | ModalKind::SelectDetectedEmulatorModal => CloseTarget::Parent,
        ModalKind::ScanFolderStep1Platform => CloseTarget::AddGameStep1Type,
        _ => CloseTarget::Closed,
    }
}

/// The launch options after the checkbox at `field` of a game form was
/// toggled: the seven Wine options sit at fields 6 to 12; the GameMode,
/// MangoHud and Gamescope options of other games start at field 4 (native)
/// or 3.
pub open spec fn toggle_option_spec(f: LaunchFlags, gtype: PlatformType, field: usize) -> LaunchFlags {
    if gtype == PlatformType::Wine {
        if field == 6 {
            LaunchFlags { gamemode: !f.gamemode, ..f }
        } else if field == 7 {
            LaunchFlags { mangohud: !f.mangohud, ..f }
        } else if field == 8 {
            LaunchFlags { gamescope: !f.gamescope, ..f }
        } else if field == 9 {
            LaunchFlags { esync: !f.esync, ..f }
        } else if field == 10 {
            LaunchFlags { fsync: !f.fsync, ..f }
        } else if field == 11 {
            LaunchFlags { dxvk: !f.dxvk, ..f }
        } else if field == 12 {
            LaunchFlags { vkd3d: !f.vkd3d, ..f }
        } else {
            f
        }
    } else {
        let off: int = if gtype == PlatformType::Native {
            4
        } else {
            3
        };
        if field == off {
            LaunchFlags { gamemode: !f.gamemode, ..f }
        } else if field == off + 1 {
            LaunchFlags { mangohud: !f.mangohud, ..f }
        } else if field == off + 2 {
            LaunchFlags { gamescope: !f.gamescope, ..f }
        } else {
            f
        }
    }
}

/// Toggle the launch option checkbox at `field` of a game form.
pub fn toggle_launch_option(flags: &mut LaunchFlags, gtype: PlatformType, field: usize)
    ensures
        *final(flags) == toggle_option_spec(*old(flags), gtype, field),
{
    if gtype == PlatformType::Wine {
        if field == 6 {
            flags.gamemode = !flags.gamemode;
        } else if field == 7 {
            flags.mangohud = !flags.mangohud;
        } else if field == 8 {
            flags.gamescope = !flags.gamescope;
        } else if field == 9 {
            flags.esync = !flags.esync;
        } else if field == 10 {
            flags.fsync = !flags.fsync;
        } else if field == 11 {
            flags.dxvk = !flags.dxvk;
        } else if field == 12 {
            flags.vkd3d = !flags.vkd3d;
        }
    } else {
        let off: usize = if gtype == PlatformType::Native {
            4
        } else {
            3
        };
        if field == off {
            flags.gamemode = !flags.gamemode;
        } else if field == off + 1 {
            flags.mangohud = !flags.mangohud;
        } else if field == off + 2 {
            flags.gamescope = !flags.gamescope;
        }
    }
}

/// Toggling the same checkbox twice leaves the options as they were, and a
/// toggle changes at most one option.
pub proof fn lemma_toggle_twice(f: LaunchFlags, gtype: PlatformType, field: usize)
    ensures
        toggle_option_spec(toggle_option_spec(f, gtype, field), gtype, field) == f,
        ({
            let g = toggle_option_spec(f, gtype, field);
            (if g.gamemode != f.gamemode { 1int } else { 0 }) + (if g.mangohud != f.mangohud { 1int } else { 0 })
                + (if g.gamescope != f.gamescope { 1int } else { 0 }) + (if g.esync != f.esync { 1int } else { 0 })
                + (if g.fsync != f.fsync { 1int } else { 0 }) + (if g.dxvk != f.dxvk { 1int } else { 0 })
                + (if g.vkd3d != f.vkd3d { 1int } else { 0 }) <= 1
        }),
{
}

/// The checkboxes of the add-folder scan form.
#[derive(Debug, Clone, Copy, PartialEq, Eq, Structural)]
pub struct ScanFormOptions {
    pub recursive: bool,
    pub use_dat_auto_id: bool,
}

/// The add-folder form's options after the checkbox at `field` was toggled:
/// field 2 is "recursive"; field 3 is DAT identification when the platform
/// supports it.
pub open spec fn toggle_scan_spec(o: ScanFormOptions, supports_dat: bool, field: usize) -> ScanFormOptions {
    if field == 2 {
        ScanFormOptions { recursive: !o.recursive, ..o }
    } else if supports_dat && field == 3 {
        ScanFormOptions { use_dat_auto_id: !o.use_dat_auto_id, ..o }
    } else {
        o
    }
}

pub fn toggle_scan_option(o: &mut ScanFormOptions, supports_dat: bool, field: usize)
    ensures
        *final(o) == toggle_scan_spec(*old(o), supports_dat, field),
{
    if field == 2 {
        o.recursive = !o.recursive;
    } else if supports_dat && field == 3 {
        o.use_dat_auto_id = !o.use_dat_auto_id;
    }
}

/// The media chosen after the toggle on the highlighted item `selected`:
/// choosing it, or un-choosing it when it already was the choice.
pub fn toggle_chosen(chosen: Option<usize>, selected: usize) -> (r: Option<usize>)
    ensures
        r == if chosen == Some(selected) {
            None::<usize>
        } else {
            Some(selected)
        },
{
    match chosen {
        Some(c) => if c == selected {
            None
        } else {
            Some(selected)
        },
        None => Some(selected),
    }
}

} // verus!
