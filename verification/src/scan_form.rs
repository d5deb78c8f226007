//! Layout of the folder-manager modal (`ScanFolderForm`) and of the
//! simplified add-folder scan form: which rows exist, at which field index
//! each control sits, and what [Enter] does on each.
use vstd::prelude::*;
use crate::platforms::Platform;
use crate::text::str_eq;

verus! {

/// Item in the flat focusable sequence of the folder manager.
#[derive(Debug, Clone, Copy, PartialEq, Eq, Structural)]
pub enum ScanFolderItem {
    FolderEmulator(usize),
    FolderCore(usize),
    AddNewFolder,
    DownloadCores,
}

/// The focusable items of the folder manager for folders `0..has_core.len()`
/// where folder `i` shows a Core sub-row when `has_core[i]`.
pub open spec fn scan_items_spec(has_core: Seq<bool>) -> Seq<ScanFolderItem>
    decreases has_core.len(),
{
    if has_core.len() == 0 {
        Seq::empty()
    } else {
        let i = (has_core.len() - 1) as usize;
        let prev = scan_items_spec(has_core.drop_last());
        if has_core.last() {
            prev.push(ScanFolderItem::FolderEmulator(i)).push(ScanFolderItem::FolderCore(i))
        } else {
            prev.push(ScanFolderItem::FolderEmulator(i))
        }
    }
}

/// The whole item sequence: the folder rows, then [+ Add New Folder], then
/// [Download Cores] when the platform has RetroArch configured.
pub open spec fn scan_folder_items_spec(has_core: Seq<bool>, has_retroarch: bool) -> Seq<ScanFolderItem> {
    let base = scan_items_spec(has_core).push(ScanFolderItem::AddNewFolder);
    if has_retroarch {
        base.push(ScanFolderItem::DownloadCores)
    } else {
        base
    }
}

/// Build the flat focus sequence of items of the folder manager. `has_core[i]`
/// says whether folder `i` displays a Core sub-row; `has_retroarch` whether
/// the platform has a RetroArch runner configured.
pub fn build_scan_folder_items(has_core: &[bool], has_retroarch: bool) -> (r: Vec<ScanFolderItem>)
    ensures
        r@ == scan_folder_items_spec(has_core@, has_retroarch),
{
    let mut items: Vec<ScanFolderItem> = Vec::new();
    let mut i: usize = 0;
    assert(has_core@.take(0) =~= Seq::<bool>::empty());
    while i < has_core.len()
        invariant
            i <= has_core.len(),
            items@ == scan_items_spec(has_core@.take(i as int)),
        decreases has_core.len() - i,
    {
        let ghost t = has_core@.take(i as int + 1);
        assert(t.drop_last() =~= has_core@.take(i as int));
        assert(t.last() == has_core@[i as int]);
        items.push(ScanFolderItem::FolderEmulator(i));
        if has_core[i] {
            items.push(ScanFolderItem::FolderCore(i));
        }
        i = i + 1;
    }
    assert(has_core@.take(has_core.len() as int) =~= has_core@);
    items.push(ScanFolderItem::AddNewFolder);
    if has_retroarch {
        items.push(ScanFolderItem::DownloadCores);
    }
    items
}

/// The folder rows of the folder manager are at least as many as the
/// folders; each is the emulator row of an existing folder, or the Core
/// sub-row of a folder that shows one.
pub proof fn lemma_scan_items_shape(has_core: Seq<bool>)
    requires
        has_core.len() <= usize::MAX,
    ensures
        scan_items_spec(has_core).len() >= has_core.len(),
        forall|k: int|
            0 <= k < scan_items_spec(has_core).len() ==> match #[trigger] scan_items_spec(
                has_core,
            )[k] {
                ScanFolderItem::FolderEmulator(i) => i < has_core.len(),
                ScanFolderItem::FolderCore(i) => i < has_core.len() && has_core[i as int],
                _ => false,
            },
    decreases has_core.len(),
{
    if has_core.len() > 0 {
        lemma_scan_items_shape(has_core.drop_last());
        let prev = scan_items_spec(has_core.drop_last());
        let cur = scan_items_spec(has_core);
        assert forall|k: int| 0 <= k < cur.len() implies match #[trigger] cur[k] {
            ScanFolderItem::FolderEmulator(i) => i < has_core.len(),
            ScanFolderItem::FolderCore(i) => i < has_core.len() && has_core[i as int],
            _ => false,
        } by {
            if k < prev.len() {
                assert(cur[k] == prev[k]);
                match prev[k] {
                    ScanFolderItem::FolderCore(i) => {
                        assert(has_core.drop_last()[i as int] == has_core[i as int]);
                    },
                    _ => {},
                }
            } else {
                let i = (has_core.len() - 1) as usize;
                assert(i as int == has_core.len() - 1);
            }
        }
    }
}

/// Field index of the Emulador selector of the add-folder form: after path,
/// extensions, recursive and (when the platform supports it) the DAT toggle.
pub fn scan_folder_add_emu_idx(supports_dat: bool) -> (r: usize)
    ensures
        r == 3 + if supports_dat {
            1usize
        } else {
            0
        },
{
    3 + if supports_dat {
        1
    } else {
        0
    }
}

/// Field index of the Core selector (right after the emulator).
pub fn scan_folder_add_core_idx(supports_dat: bool) -> (r: usize)
    ensures
        r == scan_folder_add_emu_idx_spec(supports_dat) + 1,
{
    scan_folder_add_emu_idx(supports_dat) + 1
}

pub open spec fn scan_folder_add_emu_idx_spec(supports_dat: bool) -> usize {
    if supports_dat {
        4
    } else {
        3
    }
}

/// Field index of [Download Cores] (right after the core).
pub fn scan_folder_add_dl_core_idx(supports_dat: bool) -> (r: usize)
    ensures
        r == scan_folder_add_emu_idx_spec(supports_dat) + 2,
{
    scan_folder_add_core_idx(supports_dat) + 1
}

/// Field index of the final action button: after the emulator, skipping the
/// core and [Download Cores] rows when the emulator runs no cores.
pub open spec fn scan_folder_add_action_index_spec(supports_dat: bool, has_core: bool) -> usize {
    (scan_folder_add_emu_idx_spec(supports_dat) + 1 + if has_core {
        2usize
    } else {
        0
    }) as usize
}

pub fn scan_folder_add_action_index(supports_dat: bool, has_core: bool) -> (r: usize)
    ensures
        r == scan_folder_add_action_index_spec(supports_dat, has_core),
{
    scan_folder_add_emu_idx(supports_dat) + 1 + if has_core {
        2
    } else {
        0
    }
}

/// Field index of the scan button (after the action button).
pub fn scan_folder_add_scan_index(supports_dat: bool, has_core: bool) -> (r: usize)
    ensures
        r == scan_folder_add_action_index_spec(supports_dat, has_core) + 1,
{
    scan_folder_add_action_index(supports_dat, has_core) + 1
}

/// Number of fields of the add-folder form with a scan button.
pub fn scan_folder_add_form_total(supports_dat: bool, has_core: bool) -> (r: usize)
    ensures
        r == scan_folder_add_action_index_spec(supports_dat, has_core) + 2,
{
    scan_folder_add_scan_index(supports_dat, has_core) + 1
}

/// Total fields of the simplified single-folder scan form: path, extensions,
/// recursive, optional DAT toggle, emulator, optional core, optional
/// [Download Cores] and the final [Add & Scan] button (which sits at
/// `scan_folder_add_action_index`).
pub fn simple_scan_form_total(supports_dat: bool, has_core: bool) -> (r: usize)
    ensures
        r == scan_folder_add_action_index_spec(supports_dat, has_core) + 1,
{
    scan_folder_add_action_index(supports_dat, has_core) + 1
}

/// The fields of the simplified form are all distinct and in order: emulator
/// < core < [Download Cores] < action button when the emulator runs cores,
/// emulator < action button otherwise, and the button is the last field.
pub proof fn lemma_simple_form_layout(supports_dat: bool, has_core: bool)
    ensures
        has_core ==> scan_folder_add_emu_idx_spec(supports_dat) + 2
            < scan_folder_add_action_index_spec(supports_dat, has_core),
        !has_core ==> scan_folder_add_emu_idx_spec(supports_dat) + 1
            == scan_folder_add_action_index_spec(supports_dat, has_core),
        scan_folder_add_emu_idx_spec(supports_dat) >= 3,
{
}

/// Number of focusable rows of section 0 of the folder manager.
pub fn scan_folder_section0_total(num_folders: usize) -> (r: usize)
    requires
        num_folders < usize::MAX,
    ensures
        r == num_folders + 1,
{
    num_folders + 1
}

/// Keep the folder row selection in step with the focused field: a field on
/// a folder row selects that row; with no folders the selection is row 0.
pub fn track_scan_folder_row(field: usize, num_folders: usize, selected_row: &mut usize)
    ensures
        field < num_folders ==> *final(selected_row) == field,
        field >= num_folders && num_folders == 0 ==> *final(selected_row) == 0,
        field >= num_folders && num_folders > 0 ==> *final(selected_row) == *old(selected_row),
{
    if field < num_folders {
        *selected_row = field;
    } else if num_folders == 0 {
        *selected_row = 0;
    }
}

/// The selection kept when the folder manager is rebuilt with `item_count`
/// items: the old index, clamped to the last item (0 when there is none).
pub fn clamp_selection(selected_index: usize, item_count: usize) -> (r: usize)
    ensures
        item_count == 0 ==> r == 0,
        item_count > 0 ==> r == if selected_index < item_count {
            selected_index
        } else {
            (item_count - 1) as usize
        },
{
    let last = if item_count > 0 {
        item_count - 1
    } else {
        0
    };
    if selected_index < last {
        selected_index
    } else {
        last
    }
}

/// Kind of game a platform holds, which decides the add/edit form layout.
#[derive(Debug, Clone, Copy, PartialEq, Eq, Structural)]
pub enum PlatformType {
    Emulator,
    Native,
    Wine,
    Steam,
}

/// Which editable text field (if any) a game form field index maps to, so the
/// text cursor can be tracked per field.
#[derive(Debug, Clone, Copy, PartialEq, Eq, Structural)]
pub enum FormTextField {
    Path,
    Workdir,
    Prefix,
    Cmd,
}

/// The text field at `field` of a game form. `is_edit` distinguishes the
/// Edit form layout from the Add form layout (the emulator ROM path moves
/// between field 1 and field 2).
pub open spec fn form_text_field_spec(gtype: PlatformType, is_edit: bool, field: usize) -> Option<FormTextField> {
    match gtype {
        PlatformType::Emulator => if field == 1 && is_edit {
            Some(FormTextField::Path)
        } else if field == 2 && !is_edit {
            Some(FormTextField::Path)
        } else {
            None
        },
        PlatformType::Native => if field == 1 {
            Some(FormTextField::Path)
        } else if field == 2 {
            Some(FormTextField::Workdir)
        } else if field == 3 {
            Some(FormTextField::Cmd)
        } else {
            None
        },
        PlatformType::Wine => if field == 1 {
            Some(FormTextField::Path)
        } else if field == 2 {
            Some(FormTextField::Prefix)
        } else if field == 3 {
            Some(FormTextField::Workdir)
        } else if field == 5 {
            Some(FormTextField::Cmd)
        } else {
            None
        },
        PlatformType::Steam => if field == 2 {
            Some(FormTextField::Cmd)
        } else {
            None
        },
    }
}

pub fn form_text_field(gtype: PlatformType, is_edit: bool, field: usize) -> (r: Option<FormTextField>)
    ensures
        r == form_text_field_spec(gtype, is_edit, field),
{
    match gtype {
        PlatformType::Emulator => if field == 1 && is_edit {
            Some(FormTextField::Path)
        } else if field == 2 && !is_edit {
            Some(FormTextField::Path)
        } else {
            None
        },
        PlatformType::Native => if field == 1 {
            Some(FormTextField::Path)
        } else if field == 2 {
            Some(FormTextField::Workdir)
        } else if field == 3 {
            Some(FormTextField::Cmd)
        } else {
            None
        },
        PlatformType::Wine => if field == 1 {
            Some(FormTextField::Path)
        } else if field == 2 {
            Some(FormTextField::Prefix)
        } else if field == 3 {
            Some(FormTextField::Workdir)
        } else if field == 5 {
            Some(FormTextField::Cmd)
        } else {
            None
        },
        PlatformType::Steam => if field == 2 {
            Some(FormTextField::Cmd)
        } else {
            None
        },
    }
}

/// The text cursors of a game form, one per editable field.
#[derive(Debug, Clone, Copy, PartialEq, Eq, Structural)]
pub struct FormCursors {
    pub path: usize,
    pub workdir: usize,
    pub prefix: usize,
    pub cmd: usize,
}

/// The lengths of the texts of a game form's editable fields.
#[derive(Debug, Clone, Copy, PartialEq, Eq, Structural)]
pub struct FormLengths {
    pub path: usize,
    pub workdir: usize,
    pub prefix: usize,
    pub cmd: usize,
}

/// Move the cursor of the text field at `field` to the end of its text (the
/// usual position when a field gains focus); the other cursors stay.
pub fn sync_form_field_cursor(
    gtype: PlatformType,
    is_edit: bool,
    field: usize,
    cursors: &mut FormCursors,
    lens: FormLengths,
)
    ensures
        *final(cursors) == match form_text_field_spec(gtype, is_edit, field) {
            Some(FormTextField::Path) => FormCursors { path: lens.path, ..*old(cursors) },
            Some(FormTextField::Workdir) => FormCursors { workdir: lens.workdir, ..*old(cursors) },
            Some(FormTextField::Prefix) => FormCursors { prefix: lens.prefix, ..*old(cursors) },
            Some(FormTextField::Cmd) => FormCursors { cmd: lens.cmd, ..*old(cursors) },
            None => *old(cursors),
        },
{
    match form_text_field(gtype, is_edit, field) {
        Some(FormTextField::Path) => cursors.path = lens.path,
        Some(FormTextField::Workdir) => cursors.workdir = lens.workdir,
        Some(FormTextField::Prefix) => cursors.prefix = lens.prefix,
        Some(FormTextField::Cmd) => cursors.cmd = lens.cmd,
        None => {},
    }
}

/// Number of fields of the add/edit game form of a platform type: the edit
/// form of an emulator game has an extra Emulator field, and a Core field
/// when that emulator runs cores.
pub open spec fn game_form_total_spec(gtype: PlatformType, is_edit: bool, has_core: bool) -> usize {
    match gtype {
        PlatformType::Emulator => if is_edit {
            if has_core {
                9
            } else {
                8
            }
        } else {
            7
        },
        PlatformType::Native => 8,
        PlatformType::Wine => 14,
        PlatformType::Steam => 7,
    }
}

pub fn game_form_total_fields(gtype: PlatformType, is_edit: bool, has_core: bool) -> (r: usize)
    ensures
        r == game_form_total_spec(gtype, is_edit, has_core),
        r >= 7,
{
    match gtype {
        PlatformType::Emulator => if is_edit {
            8 + if has_core {
                1
            } else {
                0
            }
        } else {
            7
        },
        PlatformType::Native => 8,
        PlatformType::Wine => 14,
        PlatformType::Steam => 7,
    }
}

/// Field focus and text cursors of an add/edit game form.
#[derive(Debug, Clone, Copy, PartialEq, Eq, Structural)]
pub struct GameFormFocus {
    pub selected_field: usize,
    /// Cursor in the title (field 0).
    pub cursor_pos: usize,
    pub cursors: FormCursors,
}

/// The focus after moving to the next (or previous) field, wrapping: the
/// title cursor jumps to the end of the title when the title gains focus,
/// and the cursor of the newly focused text field to the end of its text.
pub open spec fn game_form_step_spec(
    f: GameFormFocus,
    gtype: PlatformType,
    is_edit: bool,
    has_core: bool,
    title_len: usize,
    lens: FormLengths,
    forward: bool,
) -> GameFormFocus {
    let total = game_form_total_spec(gtype, is_edit, has_core);
    let field = if forward {
        ((f.selected_field + 1) % (total as int)) as usize
    } else if f.selected_field == 0 {
        (total - 1) as usize
    } else {
        (f.selected_field - 1) as usize
    };
    let cursor_pos = if field == 0 {
        title_len
    } else {
        f.cursor_pos
    };
    let c = f.cursors;
    let cursors = match form_text_field_spec(gtype, is_edit, field) {
        Some(FormTextField::Path) => FormCursors { path: lens.path, ..c },
        Some(FormTextField::Workdir) => FormCursors { workdir: lens.workdir, ..c },
        Some(FormTextField::Prefix) => FormCursors { prefix: lens.prefix, ..c },
        Some(FormTextField::Cmd) => FormCursors { cmd: lens.cmd, ..c },
        None => c,
    };
    GameFormFocus { selected_field: field, cursor_pos, cursors }
}

/// Move the focus of an add/edit game form to the next (`forward`) or
/// previous field ([Tab] / [Shift+Tab], or up and down on a controller).
pub fn step_game_form_field(
    focus: &mut GameFormFocus,
    gtype: PlatformType,
    is_edit: bool,
    has_core: bool,
    title_len: usize,
    lens: FormLengths,
    forward: bool,
)
    requires
        old(focus).selected_field < game_form_total_spec(gtype, is_edit, has_core),
    ensures
        *final(focus) == game_form_step_spec(*old(focus), gtype, is_edit, has_core, title_len, lens, forward),
        final(focus).selected_field < game_form_total_spec(gtype, is_edit, has_core),
{
    let total = game_form_total_fields(gtype, is_edit, has_core);
    focus.selected_field = if forward {
        (focus.selected_field + 1) % total
    } else if focus.selected_field == 0 {
        total - 1
    } else {
        focus.selected_field - 1
    };
    if focus.selected_field == 0 {
        focus.cursor_pos = title_len;
    }
    sync_form_field_cursor(gtype, is_edit, focus.selected_field, &mut focus.cursors, lens);
}

/// Moving to the next field and back (or back and forward) returns to the
/// same field.
pub proof fn lemma_game_form_step_round_trip(
    f: GameFormFocus,
    gtype: PlatformType,
    is_edit: bool,
    has_core: bool,
    title_len: usize,
    lens: FormLengths,
)
    requires
        f.selected_field < game_form_total_spec(gtype, is_edit, has_core),
    ensures
        game_form_step_spec(
            game_form_step_spec(f, gtype, is_edit, has_core, title_len, lens, true),
            gtype,
            is_edit,
            has_core,
            title_len,
            lens,
            false,
        ).selected_field == f.selected_field,
        game_form_step_spec(
            game_form_step_spec(f, gtype, is_edit, has_core, title_len, lens, false),
            gtype,
            is_edit,
            has_core,
            title_len,
            lens,
            true,
        ).selected_field == f.selected_field,
{
    let total = game_form_total_spec(gtype, is_edit, has_core) as int;
    crate::cycle::lemma_wrapping_round_trip(f.selected_field as int, total);
}

/// What [Enter] does on the simplified add-folder scan form.
#[derive(Debug, Clone, Copy, PartialEq, Eq, Structural)]
pub enum AddScanEnter {
    /// Field 0 (path): open the folder picker.
    OpenFolderPicker,
    /// Field 1 (extensions): move to the next field.
    NextField,
    /// [Download Cores]: open the core download modal.
    OpenDownloadCores,
    /// The final button: register the folder and scan it.
    StartAddAndScan,
    /// Any other field: toggle its checkbox.
    ToggleCheckbox,
}

pub open spec fn add_scan_enter_spec(selected_field: usize, supports_dat: bool, has_core: bool) -> AddScanEnter {
    if selected_field == 0 {
        AddScanEnter::OpenFolderPicker
    } else if selected_field == 1 {
        AddScanEnter::NextField
    } else if has_core && selected_field == scan_folder_add_emu_idx_spec(supports_dat) + 2 {
        AddScanEnter::OpenDownloadCores
    } else if selected_field == scan_folder_add_action_index_spec(supports_dat, has_core) {
        AddScanEnter::StartAddAndScan
    } else {
        AddScanEnter::ToggleCheckbox
    }
}

/// Enter on the simplified single-folder scan form: browse on Path, skip
/// text fields, open the Download Cores modal, start the add+scan on the
/// final button, or toggle the recursive/DAT checkboxes.
pub fn add_scan_form_enter(selected_field: usize, supports_dat: bool, has_core: bool) -> (r: AddScanEnter)
    ensures
        r == add_scan_enter_spec(selected_field, supports_dat, has_core),
{
    let dl_core_idx = scan_folder_add_dl_core_idx(supports_dat);
    let action_idx = scan_folder_add_action_index(supports_dat, has_core);
    if selected_field == 0 {
        AddScanEnter::OpenFolderPicker
    } else if selected_field == 1 {
        AddScanEnter::NextField
    } else if has_core && selected_field == dl_core_idx {
        AddScanEnter::OpenDownloadCores
    } else if selected_field == action_idx {
        AddScanEnter::StartAddAndScan
    } else {
        AddScanEnter::ToggleCheckbox
    }
}

/// What [Enter] does on an item of the folder manager.
#[derive(Debug, Clone, Copy, PartialEq, Eq, Structural)]
pub enum ScanFormEnter {
    /// On a folder row: re-scan the folder at this position when it has new
    /// game files, else report it up to date.
    CheckFolder(usize),
    /// On [+ Add New Folder]: open the add-folder form.
    OpenAddFolder,
    /// On [Download Cores]: open the core download modal.
    OpenDownloadCores,
}

/// Enter on the folder manager; a selection past the end counts as
/// [+ Add New Folder].
pub fn scan_form_enter(items: &[ScanFolderItem], selected_index: usize) -> (r: ScanFormEnter)
    ensures
        selected_index < items@.len() ==> r == match items@[selected_index as int] {
            ScanFolderItem::FolderEmulator(i) => ScanFormEnter::CheckFolder(i),
            ScanFolderItem::FolderCore(i) => ScanFormEnter::CheckFolder(i),
            ScanFolderItem::AddNewFolder => ScanFormEnter::OpenAddFolder,
            ScanFolderItem::DownloadCores => ScanFormEnter::OpenDownloadCores,
        },
        selected_index >= items@.len() ==> r == ScanFormEnter::OpenAddFolder,
{
    if selected_index >= items.len() {
        return ScanFormEnter::OpenAddFolder;
    }
    match &items[selected_index] {
        ScanFolderItem::FolderEmulator(i) => ScanFormEnter::CheckFolder(*i),
        ScanFolderItem::FolderCore(i) => ScanFormEnter::CheckFolder(*i),
        ScanFolderItem::AddNewFolder => ScanFormEnter::OpenAddFolder,
        ScanFolderItem::DownloadCores => ScanFormEnter::OpenDownloadCores,
    }
}

/// What [E] opens for the selected platform.
#[derive(Debug, Clone, Copy, PartialEq, Eq, Structural)]
pub enum FolderManagerTarget {
    /// Nothing: a modal is open, no platform is selected, or the platform is
    /// Steam, whose games live in the Steam library.
    Nothing,
    /// The list of installed Windows games (no scan folders involved).
    WindowsGames,
    /// The platform's scan-folder manager.
    ScanFolders,
}

pub open spec fn folder_manager_target_spec(
    modal_open: bool,
    platforms: Seq<Platform>,
    selected_platform_idx: usize,
) -> FolderManagerTarget {
    if modal_open || selected_platform_idx >= platforms.len() {
        FolderManagerTarget::Nothing
    } else {
        let slug = platforms[selected_platform_idx as int].slug@;
        if slug == "steam"@ {
            FolderManagerTarget::Nothing
        } else if slug == "windows"@ {
            FolderManagerTarget::WindowsGames
        } else {
            FolderManagerTarget::ScanFolders
        }
    }
}

/// Decide what [E] opens for the selected platform.
pub fn folder_manager_target(
    modal_open: bool,
    platforms: &[Platform],
    selected_platform_idx: usize,
) -> (r: FolderManagerTarget)
    ensures
        r == folder_manager_target_spec(modal_open, platforms@, selected_platform_idx),
{
    if modal_open || selected_platform_idx >= platforms.len() {
        return FolderManagerTarget::Nothing;
    }
    let slug = platforms[selected_platform_idx].slug.as_str();
    if str_eq(slug, "steam") {
        FolderManagerTarget::Nothing
    } else if str_eq(slug, "windows") {
        FolderManagerTarget::WindowsGames
    } else {
        FolderManagerTarget::ScanFolders
    }
}

/// What [Enter] does in the Windows games list, whose last row is
/// [+ Add New Game].
#[derive(Debug, Clone, Copy, PartialEq, Eq, Structural)]
pub enum WindowsGamesEnter {
    /// Open the Wine details form for a new game.
    AddNewGame,
    /// Open the edit form of the game at this position.
    EditGame(usize),
    /// The selection is past the list: nothing.
    Nothing,
}

pub fn windows_games_enter(selected_idx: usize, game_count: usize) -> (r: WindowsGamesEnter)
    ensures
        selected_idx == game_count ==> r == WindowsGamesEnter::AddNewGame,
        selected_idx < game_count ==> r == WindowsGamesEnter::EditGame(selected_idx),
        selected_idx > game_count ==> r == WindowsGamesEnter::Nothing,
{
    if selected_idx == game_count {
        WindowsGamesEnter::AddNewGame
    } else if selected_idx < game_count {
        WindowsGamesEnter::EditGame(selected_idx)
    } else {
        WindowsGamesEnter::Nothing
    }
}

} // verus!
