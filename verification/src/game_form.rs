//! Typing in the add/edit game forms: which text field a key goes to for
//! each platform type and field, how typing and backspace change that field
//! and its cursor, how the ◀ ▶ keys move the cursors, and how editing the
//! executable path of a native or Wine game fills in its working directory
//! (and Wine prefix) from the path's parent directory.
use vstd::prelude::*;
use crate::scan_form::{FormTextField, PlatformType, form_text_field, form_text_field_spec};
use crate::session::{join_path, join_path_spec};
use crate::text::{chars_of, is_blank, is_blank_spec, opt_view, push_char, string_from_chars};
use crate::text_edit::{
    backspace_at_cursor, byte_len, can_backspace, can_insert, clamp_cursor, cursor_left,
    cursor_right, field_byte_len, insert_char_at_cursor, insert_spec, remove_spec,
};

verus! {

/// The editable texts of an add/edit game form and their cursors (byte
/// offsets into the UTF-8 text).
pub struct GameFormText {
    pub title: String,
    pub file_path: String,
    pub working_dir: String,
    pub wine_prefix: String,
    pub steam_appid: String,
    pub custom_command: String,
    /// Cursor in the title.
    pub cursor_pos: usize,
    pub path_cursor: usize,
    pub workdir_cursor: usize,
    pub prefix_cursor: usize,
    pub cmd_cursor: usize,
}

/// A game form's texts as character sequences.
pub struct GameFormTextView {
    pub title: Seq<char>,
    pub file_path: Seq<char>,
    pub working_dir: Seq<char>,
    pub wine_prefix: Seq<char>,
    pub steam_appid: Seq<char>,
    pub custom_command: Seq<char>,
    pub cursor_pos: usize,
    pub path_cursor: usize,
    pub workdir_cursor: usize,
    pub prefix_cursor: usize,
    pub cmd_cursor: usize,
}

impl View for GameFormText {
    type V = GameFormTextView;

    open spec fn view(&self) -> GameFormTextView {
        GameFormTextView {
            title: self.title@,
            file_path: self.file_path@,
            working_dir: self.working_dir@,
            wine_prefix: self.wine_prefix@,
            steam_appid: self.steam_appid@,
            custom_command: self.custom_command@,
            cursor_pos: self.cursor_pos,
            path_cursor: self.path_cursor,
            workdir_cursor: self.workdir_cursor,
            prefix_cursor: self.prefix_cursor,
            cmd_cursor: self.cmd_cursor,
        }
    }
}

/// The text a key typed in a game form edits.
#[derive(Debug, Clone, Copy, PartialEq, Eq, Structural)]
pub enum TextTarget {
    Title,
    Path,
    Workdir,
    Prefix,
    Cmd,
    /// The Steam AppID, which only takes digits and is edited at its end.
    SteamAppId,
    /// The field takes no text.
    NoField,
}

/// The text edited at field `field` of a game form: the title at field 0;
/// then, by platform type, the executable or ROM path (field 1 of the Edit
/// form, field 2 of the Add form, for emulator games), the working
/// directory, the Wine prefix, the Steam AppID and the custom command.
pub open spec fn text_target_spec(gtype: PlatformType, is_edit: bool, field: usize) -> TextTarget {
    if field == 0 {
        TextTarget::Title
    } else {
        match gtype {
            PlatformType::Emulator => if field == 1 && is_edit {
                TextTarget::Path
            } else if field == 2 && !is_edit {
                TextTarget::Path
            } else if field == 3 {
                TextTarget::Cmd
            } else {
                TextTarget::NoField
            },
            PlatformType::Native => if field == 1 {
                TextTarget::Path
            } else if field == 2 {
                TextTarget::Workdir
            } else if field == 3 {
                TextTarget::Cmd
            } else {
                TextTarget::NoField
            },
            PlatformType::Wine => if field == 1 {
                TextTarget::Path
            } else if field == 2 {
                TextTarget::Prefix
            } else if field == 3 {
                TextTarget::Workdir
            } else if field == 5 {
                TextTarget::Cmd
            } else {
                TextTarget::NoField
            },
            PlatformType::Steam => if field == 1 {
                TextTarget::SteamAppId
            } else if field == 2 {
                TextTarget::Cmd
            } else {
                TextTarget::NoField
            },
        }
    }
}

pub fn game_form_text_target(gtype: PlatformType, is_edit: bool, field: usize) -> (r: TextTarget)
    ensures
        r == text_target_spec(gtype, is_edit, field),
{
    if field == 0 {
        return TextTarget::Title;
    }
    match gtype {
        PlatformType::Emulator => if field == 1 && is_edit {
            TextTarget::Path
        } else if field == 2 && !is_edit {
            TextTarget::Path
        } else if field == 3 {
            TextTarget::Cmd
        } else {
            TextTarget::NoField
        },
        PlatformType::Native => if field == 1 {
            TextTarget::Path
        } else if field == 2 {
            TextTarget::Workdir
        } else if field == 3 {
            TextTarget::Cmd
        } else {
            TextTarget::NoField
        },
        PlatformType::Wine => if field == 1 {
            TextTarget::Path
        } else if field == 2 {
            TextTarget::Prefix
        } else if field == 3 {
            TextTarget::Workdir
        } else if field == 5 {
            TextTarget::Cmd
        } else {
            TextTarget::NoField
        },
        PlatformType::Steam => if field == 1 {
            TextTarget::SteamAppId
        } else if field == 2 {
            TextTarget::Cmd
        } else {
            TextTarget::NoField
        },
    }
}

/// A text and its cursor after typing `ch` at the cursor.
pub open spec fn typed_field(text: Seq<char>, cursor: usize, ch: char) -> (Seq<char>, usize) {
    let pos = clamp_cursor(cursor, byte_len(text));
    (insert_spec(text, pos, ch), (pos + 1) as usize)
}

/// A text and its cursor after a backspace at the cursor.
pub open spec fn erased_field(text: Seq<char>, cursor: usize) -> (Seq<char>, usize) {
    let pos = clamp_cursor(cursor, byte_len(text));
    if pos > 0 {
        (remove_spec(text, pos - 1), (pos - 1) as usize)
    } else {
        (text, cursor)
    }
}

pub open spec fn is_ascii_digit(c: char) -> bool {
    '0' <= c <= '9'
}

/// The form after typing `ch` into the text `t`.
pub open spec fn typed_spec(f: GameFormTextView, t: TextTarget, ch: char) -> GameFormTextView {
    match t {
        TextTarget::Title => {
            let (s, c) = typed_field(f.title, f.cursor_pos, ch);
            GameFormTextView { title: s, cursor_pos: c, ..f }
        },
        TextTarget::Path => {
            let (s, c) = typed_field(f.file_path, f.path_cursor, ch);
            GameFormTextView { file_path: s, path_cursor: c, ..f }
        },
        TextTarget::Workdir => {
            let (s, c) = typed_field(f.working_dir, f.workdir_cursor, ch);
            GameFormTextView { working_dir: s, workdir_cursor: c, ..f }
        },
        TextTarget::Prefix => {
            let (s, c) = typed_field(f.wine_prefix, f.prefix_cursor, ch);
            GameFormTextView { wine_prefix: s, prefix_cursor: c, ..f }
        },
        TextTarget::Cmd => {
            let (s, c) = typed_field(f.custom_command, f.cmd_cursor, ch);
            GameFormTextView { custom_command: s, cmd_cursor: c, ..f }
        },
        TextTarget::SteamAppId => if is_ascii_digit(ch) {
            GameFormTextView { steam_appid: f.steam_appid.push(ch), ..f }
        } else {
            f
        },
        TextTarget::NoField => f,
    }
}

/// The form after a backspace in the text `t`.
pub open spec fn erased_spec(f: GameFormTextView, t: TextTarget) -> GameFormTextView {
    match t {
        TextTarget::Title => {
            let (s, c) = erased_field(f.title, f.cursor_pos);
            GameFormTextView { title: s, cursor_pos: c, ..f }
        },
        TextTarget::Path => {
            let (s, c) = erased_field(f.file_path, f.path_cursor);
            GameFormTextView { file_path: s, path_cursor: c, ..f }
        },
        TextTarget::Workdir => {
            let (s, c) = erased_field(f.working_dir, f.workdir_cursor);
            GameFormTextView { working_dir: s, workdir_cursor: c, ..f }
        },
        TextTarget::Prefix => {
            let (s, c) = erased_field(f.wine_prefix, f.prefix_cursor);
            GameFormTextView { wine_prefix: s, prefix_cursor: c, ..f }
        },
        TextTarget::Cmd => {
            let (s, c) = erased_field(f.custom_command, f.cmd_cursor);
            GameFormTextView { custom_command: s, cmd_cursor: c, ..f }
        },
        TextTarget::SteamAppId => if f.steam_appid.len() > 0 {
            GameFormTextView { steam_appid: f.steam_appid.drop_last(), ..f }
        } else {
            f
        },
        TextTarget::NoField => f,
    }
}

/// Every text of the form has a byte length that fits a `usize` with room
/// for one more character.
pub open spec fn lengths_fit(f: GameFormTextView) -> bool {
    &&& byte_len(f.title) + 4 <= usize::MAX
    &&& byte_len(f.file_path) + 4 <= usize::MAX
    &&& byte_len(f.working_dir) + 4 <= usize::MAX
    &&& byte_len(f.wine_prefix) + 4 <= usize::MAX
    &&& byte_len(f.custom_command) + 4 <= usize::MAX
}

/// Typing into the text `t` is possible at its cursor (see [`can_insert`]).
pub open spec fn can_type(f: GameFormTextView, t: TextTarget) -> bool {
    match t {
        TextTarget::Title => can_insert(f.title, f.cursor_pos),
        TextTarget::Path => can_insert(f.file_path, f.path_cursor),
        TextTarget::Workdir => can_insert(f.working_dir, f.workdir_cursor),
        TextTarget::Prefix => can_insert(f.wine_prefix, f.prefix_cursor),
        TextTarget::Cmd => can_insert(f.custom_command, f.cmd_cursor),
        _ => true,
    }
}

/// Backspace in the text `t` is possible at its cursor (see [`can_backspace`]).
pub open spec fn can_erase(f: GameFormTextView, t: TextTarget) -> bool {
    match t {
        TextTarget::Title => can_backspace(f.title, f.cursor_pos),
        TextTarget::Path => can_backspace(f.file_path, f.path_cursor),
        TextTarget::Workdir => can_backspace(f.working_dir, f.workdir_cursor),
        TextTarget::Prefix => can_backspace(f.wine_prefix, f.prefix_cursor),
        TextTarget::Cmd => can_backspace(f.custom_command, f.cmd_cursor),
        _ => true,
    }
}

/// Whether editing the path of a game of this type fills in its working
/// directory from the path's parent directory.
pub open spec fn fills_from_parent(gtype: PlatformType) -> bool {
    gtype == PlatformType::Native || gtype == PlatformType::Wine
}

/// The form after its path changed, given the path's parent directory
/// `parent`: a non-empty parent becomes the working directory (and, after
/// typing in a Wine game with a blank prefix, `<parent>/prefix` becomes the
/// prefix); after a backspace, an empty parent clears the working directory.
pub open spec fn autofill_spec(
    f: GameFormTextView,
    gtype: PlatformType,
    parent: Option<Seq<char>>,
    typed: bool,
) -> GameFormTextView {
    if fills_from_parent(gtype) {
        match parent {
            Some(p) => if p.len() > 0 {
                let f1 = GameFormTextView { working_dir: p, ..f };
                if typed && gtype == PlatformType::Wine && is_blank_spec(f.wine_prefix) {
                    GameFormTextView { wine_prefix: join_path_spec(p, "prefix"@), ..f1 }
                } else {
                    f1
                }
            } else if !typed {
                GameFormTextView { working_dir: Seq::empty(), ..f }
            } else {
                f
            },
            None => f,
        }
    } else {
        f
    }
}

/// `q` may be the parent directory of `path`: the path without its final
/// component, so a proper prefix of it.
pub open spec fn parent_of(path: Seq<char>, q: Option<Seq<char>>) -> bool {
    q matches Some(d) ==> d.len() < path.len() && path.take(d.len() as int) == d
}

/// The parent directory of a path as text, as `Path::parent` (then
/// `to_string_lossy`) gives it. It depends on the path alone, under the
/// path rules the launcher was built for.
pub uninterp spec fn parent_text(path: Seq<char>) -> Option<Seq<char>>;

/// The parent directory of a path (`Path::parent`), as text; its result is
/// named by [`parent_text`]. Its documentation gives none for the empty
/// path and otherwise the path without its final component, a subslice of
/// the path that ends before that component (which is never empty), so a
/// proper prefix of it. Where it gives none, and where the final component
/// ends, depends on the target's path rules and is not stated beyond that.
#[verifier::external_body]
fn path_parent(p: &str) -> (r: Option<String>)
    ensures
        opt_view(r) == parent_text(p@),
        p@.len() == 0 ==> r is None,
        parent_of(p@, opt_view(r)),
{
    match std::path::Path::new(p).parent() {
        Some(q) => Some(q.to_string_lossy().to_string()),
        None => None,
    }
}

/// Fill in the working directory (and Wine prefix) of a form whose path
/// changed, from the path's parent directory `parent`.
pub fn apply_path_parent(f: &mut GameFormText, gtype: PlatformType, parent: Option<String>, typed: bool)
    ensures
        final(f)@ == autofill_spec(old(f)@, gtype, opt_view(parent), typed),
{
    if gtype != PlatformType::Native && gtype != PlatformType::Wine {
        return;
    }
    match parent {
        Some(p) => {
            if !p.as_str().is_empty() {
                let prefix_blank = is_blank(f.wine_prefix.as_str());
                if typed && gtype == PlatformType::Wine && prefix_blank {
                    let pc = chars_of(p.as_str());
                    let joined = join_path(&pc, "prefix");
                    f.wine_prefix = string_from_chars(&joined);
                }
                f.working_dir = p;
            } else if !typed {
                f.working_dir = String::new();
            }
        },
        None => {},
    }
}

/// Type `ch` into field `field` of a game form. After the path of a native
/// or Wine game changes, its working directory (and prefix) are filled in
/// from the parent directory of the new path as `Path::parent` gives it
/// ([`parent_text`]).
pub fn game_form_type_char(f: &mut GameFormText, gtype: PlatformType, is_edit: bool, field: usize, ch: char)
    requires
        lengths_fit(old(f)@),
        can_type(old(f)@, text_target_spec(gtype, is_edit, field)),
    ensures
        ({
            let t = text_target_spec(gtype, is_edit, field);
            let typed = typed_spec(old(f)@, t, ch);
            if t == TextTarget::Path && fills_from_parent(gtype) {
                final(f)@ == autofill_spec(typed, gtype, parent_text(typed.file_path), true)
            } else {
                final(f)@ == typed
            }
        }),
{
    let t = game_form_text_target(gtype, is_edit, field);
    match t {
        TextTarget::Title => insert_char_at_cursor(&mut f.title, &mut f.cursor_pos, ch),
        TextTarget::Path => {
            insert_char_at_cursor(&mut f.file_path, &mut f.path_cursor, ch);
            if gtype == PlatformType::Native || gtype == PlatformType::Wine {
                let parent = path_parent(f.file_path.as_str());
                let ghost p = opt_view(parent);
                apply_path_parent(f, gtype, parent, true);
                assert(f@ == autofill_spec(typed_spec(old(f)@, t, ch), gtype, p, true));
            }
        },
        TextTarget::Workdir => insert_char_at_cursor(&mut f.working_dir, &mut f.workdir_cursor, ch),
        TextTarget::Prefix => insert_char_at_cursor(&mut f.wine_prefix, &mut f.prefix_cursor, ch),
        TextTarget::Cmd => insert_char_at_cursor(&mut f.custom_command, &mut f.cmd_cursor, ch),
        TextTarget::SteamAppId => {
            if '0' <= ch && ch <= '9' {
                push_char(&mut f.steam_appid, ch);
            }
        },
        TextTarget::NoField => {},
    }
}

/// A `String` without its last character (`String::pop`).
fn drop_last_char(s: &String) -> (r: String)
    ensures
        r@ == if s@.len() > 0 {
            s@.drop_last()
        } else {
            s@
        },
{
    let cs = chars_of(s.as_str());
    if cs.len() == 0 {
        return string_from_chars(&cs);
    }
    let mut out: Vec<char> = Vec::new();
    let mut i: usize = 0;
    while i + 1 < cs.len()
        invariant
            i + 1 <= cs.len(),
            out@ == cs@.take(i as int),
        decreases cs.len() - i,
    {
        out.push(cs[i]);
        assert(cs@.take(i as int).push(cs@[i as int]) =~= cs@.take(i as int + 1));
        i = i + 1;
    }
    assert(cs@.take(i as int) =~= cs@.drop_last());
    string_from_chars(&out)
}

/// Backspace in field `field` of a game form. After the path of a native
/// or Wine game changes, its working directory is set from the parent
/// directory of the new path as `Path::parent` gives it ([`parent_text`]).
pub fn game_form_backspace(f: &mut GameFormText, gtype: PlatformType, is_edit: bool, field: usize)
    requires
        lengths_fit(old(f)@),
        can_erase(old(f)@, text_target_spec(gtype, is_edit, field)),
    ensures
        ({
            let t = text_target_spec(gtype, is_edit, field);
            let erased = erased_spec(old(f)@, t);
            if t == TextTarget::Path && fills_from_parent(gtype) {
                final(f)@ == autofill_spec(erased, gtype, parent_text(erased.file_path), false)
            } else {
                final(f)@ == erased
            }
        }),
{
    let t = game_form_text_target(gtype, is_edit, field);
    match t {
        TextTarget::Title => backspace_at_cursor(&mut f.title, &mut f.cursor_pos),
        TextTarget::Path => {
            backspace_at_cursor(&mut f.file_path, &mut f.path_cursor);
            if gtype == PlatformType::Native || gtype == PlatformType::Wine {
                let parent = path_parent(f.file_path.as_str());
                let ghost p = opt_view(parent);
                apply_path_parent(f, gtype, parent, false);
                assert(f@ == autofill_spec(erased_spec(old(f)@, t), gtype, p, false));
            }
        },
        TextTarget::Workdir => backspace_at_cursor(&mut f.working_dir, &mut f.workdir_cursor),
        TextTarget::Prefix => backspace_at_cursor(&mut f.wine_prefix, &mut f.prefix_cursor),
        TextTarget::Cmd => backspace_at_cursor(&mut f.custom_command, &mut f.cmd_cursor),
        TextTarget::SteamAppId => {
            f.steam_appid = drop_last_char(&f.steam_appid);
        },
        TextTarget::NoField => {},
    }
}

/// What ◀ or ▶ does on a field of a game form.
#[derive(Debug, Clone, Copy, PartialEq, Eq, Structural)]
pub enum FormNavTarget {
    /// Move the title cursor.
    TitleCursor,
    /// Move the cursor of this text field.
    TextCursor(FormTextField),
    /// Switch the Wine/Proton runner of a Wine game.
    WineRunner,
    /// Cycle the emulator override of an emulator game (Edit form).
    EditEmulator,
    Nothing,
}

pub open spec fn form_nav_spec(gtype: PlatformType, is_edit: bool, field: usize) -> FormNavTarget {
    if field == 0 {
        FormNavTarget::TitleCursor
    } else if form_text_field_spec(gtype, is_edit, field) is Some {
        FormNavTarget::TextCursor(form_text_field_spec(gtype, is_edit, field)->0)
    } else if gtype == PlatformType::Wine && field == 4 {
        FormNavTarget::WineRunner
    } else if is_edit && gtype == PlatformType::Emulator && field == 2 {
        FormNavTarget::EditEmulator
    } else {
        FormNavTarget::Nothing
    }
}

pub fn form_nav_target(gtype: PlatformType, is_edit: bool, field: usize) -> (r: FormNavTarget)
    ensures
        r == form_nav_spec(gtype, is_edit, field),
{
    if field == 0 {
        return FormNavTarget::TitleCursor;
    }
    match form_text_field(gtype, is_edit, field) {
        Some(tf) => FormNavTarget::TextCursor(tf),
        None => if gtype == PlatformType::Wine && field == 4 {
            FormNavTarget::WineRunner
        } else if is_edit && gtype == PlatformType::Emulator && field == 2 {
            FormNavTarget::EditEmulator
        } else {
            FormNavTarget::Nothing
        },
    }
}

/// A cursor moved one byte left (stopping at 0) or right (stopping at the
/// end of a `len`-byte text).
pub open spec fn moved_cursor(c: usize, len: nat, right: bool) -> usize {
    if right {
        if c < len {
            (c + 1) as usize
        } else {
            len as usize
        }
    } else if c > 0 {
        (c - 1) as usize
    } else {
        0
    }
}

/// The form after ◀ (`right` false) or ▶ on field `field` moved a cursor.
pub open spec fn nav_spec(f: GameFormTextView, gtype: PlatformType, is_edit: bool, field: usize, right: bool) -> GameFormTextView {
    match form_nav_spec(gtype, is_edit, field) {
        FormNavTarget::TitleCursor => GameFormTextView {
            cursor_pos: moved_cursor(f.cursor_pos, byte_len(f.title), right),
            ..f
        },
        FormNavTarget::TextCursor(FormTextField::Path) => GameFormTextView {
            path_cursor: moved_cursor(f.path_cursor, byte_len(f.file_path), right),
            ..f
        },
        FormNavTarget::TextCursor(FormTextField::Workdir) => GameFormTextView {
            workdir_cursor: moved_cursor(f.workdir_cursor, byte_len(f.working_dir), right),
            ..f
        },
        FormNavTarget::TextCursor(FormTextField::Prefix) => GameFormTextView {
            prefix_cursor: moved_cursor(f.prefix_cursor, byte_len(f.wine_prefix), right),
            ..f
        },
        FormNavTarget::TextCursor(FormTextField::Cmd) => GameFormTextView {
            cmd_cursor: moved_cursor(f.cmd_cursor, byte_len(f.custom_command), right),
            ..f
        },
        _ => f,
    }
}

fn move_cursor(c: usize, text: &String, right: bool) -> (r: usize)
    requires
        byte_len(text@) + 4 <= usize::MAX,
    ensures
        r == moved_cursor(c, byte_len(text@), right),
{
    if right {
        cursor_right(c, field_byte_len(text))
    } else {
        cursor_left(c)
    }
}

/// ◀ / ▶ on a game form: move the cursor of the focused text field.
/// Returns the target so the caller can switch the Wine runner or cycle the
/// emulator override on the fields that do that.
pub fn game_form_nav(f: &mut GameFormText, gtype: PlatformType, is_edit: bool, field: usize, right: bool) -> (r: FormNavTarget)
    requires
        lengths_fit(old(f)@),
    ensures
        r == form_nav_spec(gtype, is_edit, field),
        final(f)@ == nav_spec(old(f)@, gtype, is_edit, field, right),
{
    let t = form_nav_target(gtype, is_edit, field);
    match t {
        FormNavTarget::TitleCursor => {
            f.cursor_pos = move_cursor(f.cursor_pos, &f.title, right);
        },
        FormNavTarget::TextCursor(FormTextField::Path) => {
            f.path_cursor = move_cursor(f.path_cursor, &f.file_path, right);
        },
        FormNavTarget::TextCursor(FormTextField::Workdir) => {
            f.workdir_cursor = move_cursor(f.workdir_cursor, &f.working_dir, right);
        },
        FormNavTarget::TextCursor(FormTextField::Prefix) => {
            f.prefix_cursor = move_cursor(f.prefix_cursor, &f.wine_prefix, right);
        },
        FormNavTarget::TextCursor(FormTextField::Cmd) => {
            f.cmd_cursor = move_cursor(f.cmd_cursor, &f.custom_command, right);
        },
        _ => {},
    }
    t
}

} // verus!
