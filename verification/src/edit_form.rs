//! Opening a stored game in the "Edit Game Details" form: every text
//! shown with its cursor at the end, the Steam AppID written out in
//! decimal, and the launch options read back from the saved environment.
use vstd::prelude::*;
use crate::game_form::{GameFormText, GameFormTextView};
use crate::game_record::{
    all_digits, digit_value, digits_value, edited_game_ok, env_vars_spec, is_digit, non_empty,
    parse_i64_spec, saved_prefix_spec, EditedGameFields,
};
use crate::launch_env::{env_or_empty, lemma_saved_options_read_back};
use crate::media_fetch::push_signed;
use crate::session::{launch_flags_from_env, signed_decimal_spec, LaunchFlags};
use crate::text::{
    contains_spec, copy_string, decimal_spec, digit_char, is_ws, opt_view, string_from_chars,
    trim_end_spec, trim_spec, trim_start_spec,
};
use crate::text_edit::{byte_len, field_byte_len};

verus! {

/// The text of an optional field (empty when there is none).
pub open spec fn opt_text(o: Option<Seq<char>>) -> Seq<char> {
    match o {
        Some(s) => s,
        None => Seq::empty(),
    }
}

/// The AppID as the form shows it: its decimal text, or nothing.
pub open spec fn appid_text(a: Option<i64>) -> Seq<char> {
    match a {
        Some(v) => signed_decimal_spec(v as int),
        None => Seq::empty(),
    }
}

/// The texts of a stored game fit the form's byte cursors.
pub open spec fn fits_form(g: EditedGameFields) -> bool {
    &&& byte_len(g.title@) <= usize::MAX
    &&& byte_len(opt_text(opt_view(g.file_path))) <= usize::MAX
    &&& byte_len(opt_text(opt_view(g.working_dir))) <= usize::MAX
    &&& byte_len(opt_text(opt_view(g.wine_prefix))) <= usize::MAX
    &&& byte_len(opt_text(opt_view(g.custom_command))) <= usize::MAX
}

/// The edit form of a stored game: every text shown as stored, each cursor
/// at the end of its text.
pub open spec fn edit_form_spec(g: EditedGameFields) -> GameFormTextView {
    GameFormTextView {
        title: g.title@,
        file_path: opt_text(opt_view(g.file_path)),
        working_dir: opt_text(opt_view(g.working_dir)),
        wine_prefix: opt_text(opt_view(g.wine_prefix)),
        steam_appid: appid_text(g.steam_appid),
        custom_command: opt_text(opt_view(g.custom_command)),
        cursor_pos: byte_len(g.title@) as usize,
        path_cursor: byte_len(opt_text(opt_view(g.file_path))) as usize,
        workdir_cursor: byte_len(opt_text(opt_view(g.working_dir))) as usize,
        prefix_cursor: byte_len(opt_text(opt_view(g.wine_prefix))) as usize,
        cmd_cursor: byte_len(opt_text(opt_view(g.custom_command))) as usize,
    }
}

/// The launch options the form shows for an environment text: each is on
/// when its assignment occurs in the text.
pub open spec fn flags_in(env: Seq<char>) -> LaunchFlags {
    LaunchFlags {
        gamemode: contains_spec(env, "GAMEMODE=1"@),
        mangohud: contains_spec(env, "MANGOHUD=1"@),
        gamescope: contains_spec(env, "GAMESCOPE=1"@),
        esync: contains_spec(env, "WINEESYNC=1"@),
        fsync: contains_spec(env, "WINEFSYNC=1"@),
        dxvk: contains_spec(env, "DXVK_ASYNC=1"@),
        vkd3d: contains_spec(env, "VKD3D_CONFIG=enable_async"@),
    }
}

fn text_of(o: &Option<String>) -> (r: String)
    ensures
        r@ == opt_text(opt_view(*o)),
{
    match o {
        Some(s) => copy_string(s.as_str()),
        None => String::new(),
    }
}

/// Open the edit form of a stored game: its texts and launch options.
pub fn open_edit_form(g: &EditedGameFields) -> (r: (GameFormText, LaunchFlags))
    requires
        fits_form(*g),
    ensures
        r.0@ == edit_form_spec(*g),
        r.1 == flags_in(opt_text(opt_view(g.env_vars))),
{
    let title = copy_string(g.title.as_str());
    let file_path = text_of(&g.file_path);
    let working_dir = text_of(&g.working_dir);
    let wine_prefix = text_of(&g.wine_prefix);
    let custom_command = text_of(&g.custom_command);
    let steam_appid = match g.steam_appid {
        Some(v) => {
            let mut t: Vec<char> = Vec::new();
            push_signed(&mut t, v);
            string_from_chars(&t)
        },
        None => String::new(),
    };
    let env = text_of(&g.env_vars);
    let flags = launch_flags_from_env(env.as_str());
    let cursor_pos = field_byte_len(&title);
    let path_cursor = field_byte_len(&file_path);
    let workdir_cursor = field_byte_len(&working_dir);
    let prefix_cursor = field_byte_len(&wine_prefix);
    let cmd_cursor = field_byte_len(&custom_command);
    let form = GameFormText {
        title,
        file_path,
        working_dir,
        wine_prefix,
        steam_appid,
        custom_command,
        cursor_pos,
        path_cursor,
        workdir_cursor,
        prefix_cursor,
        cmd_cursor,
    };
    (form, flags)
}

/// A digit character, with its value.
proof fn lemma_digit_char(d: nat)
    requires
        d < 10,
    ensures
        is_digit(digit_char(d)),
        digit_value(digit_char(d)) == d,
        !is_ws(digit_char(d)),
{
}

/// The decimal text of `n` is a non-empty run of digits worth `n`.
proof fn lemma_decimal_digits(n: nat)
    ensures
        decimal_spec(n).len() > 0,
        all_digits(decimal_spec(n)),
        digits_value(decimal_spec(n)) == n,
    decreases n,
{
    if n < 10 {
        lemma_digit_char(n);
        assert(decimal_spec(n).drop_last() =~= Seq::<char>::empty());
        assert(digits_value(Seq::<char>::empty()) == 0);
        assert(digits_value(decimal_spec(n)) == digits_value(decimal_spec(n).drop_last()) * 10
            + digit_value(decimal_spec(n).last()));
    } else {
        lemma_decimal_digits(n / 10);
        lemma_digit_char(n % 10);
        let d = decimal_spec(n);
        assert(d.drop_last() =~= decimal_spec(n / 10));
        assert(d.last() == digit_char(n % 10));
        assert((n / 10) * 10 + n % 10 == n) by (nonlinear_arith);
        assert(digits_value(d) == digits_value(d.drop_last()) * 10 + digit_value(d.last()));
        assert(digits_value(d.drop_last()) == n / 10);
        assert forall|i: int| 0 <= i < d.len() implies is_digit(#[trigger] d[i]) by {
            if i < d.len() - 1 {
                assert(d[i] == decimal_spec(n / 10)[i]);
            }
        }
    }
}

/// The decimal text of an integer reads back as that integer, and has no
/// surrounding whitespace.
proof fn lemma_signed_decimal_parses(v: i64)
    ensures
        trim_spec(signed_decimal_spec(v as int)) == signed_decimal_spec(v as int),
        parse_i64_spec(signed_decimal_spec(v as int)) == Some(v as int),
{
    let s = signed_decimal_spec(v as int);
    if v < 0 {
        let m = (-(v as int)) as nat;
        lemma_decimal_digits(m);
        let d = decimal_spec(m);
        assert(s == seq!['-'] + d);
        assert(s.drop_first() =~= d);
        assert(s.last() == d.last());
        assert(is_digit(d[d.len() - 1]));
    } else {
        lemma_decimal_digits(v as nat);
        let d = decimal_spec(v as nat);
        assert(is_digit(d[0]));
        assert(is_digit(d[d.len() - 1]));
    }
    assert(trim_start_spec(s) == s);
    assert(trim_end_spec(s) == s);
}

/// The record of a stored game is as the forms save it: its texts trimmed,
/// the title and every present text non-empty, and a Wine prefix present
/// whenever a working directory is (the save would default one).
pub open spec fn clean_record(g: EditedGameFields) -> bool {
    &&& trim_spec(g.title@) == g.title@
    &&& g.title@.len() > 0
    &&& (g.file_path matches Some(x) ==> trim_spec(x@) == x@ && x@.len() > 0)
    &&& (g.working_dir matches Some(x) ==> trim_spec(x@) == x@ && x@.len() > 0)
    &&& (g.wine_prefix matches Some(x) ==> trim_spec(x@) == x@ && x@.len() > 0)
    &&& (g.custom_command matches Some(x) ==> trim_spec(x@) == x@ && x@.len() > 0)
    &&& (g.wine_prefix is None ==> g.working_dir is None)
}

/// What a stored game's record holds, as plain values.
pub open spec fn record_view(g: EditedGameFields) -> (
    Seq<char>,
    Option<Seq<char>>,
    Option<Seq<char>>,
    Option<Seq<char>>,
    Option<Seq<char>>,
    Option<i64>,
    Option<Seq<char>>,
) {
    (
        g.title@,
        opt_view(g.file_path),
        opt_view(g.working_dir),
        opt_view(g.custom_command),
        opt_view(g.wine_prefix),
        g.steam_appid,
        opt_view(g.env_vars),
    )
}

proof fn lemma_trim_empty()
    ensures
        trim_spec(Seq::<char>::empty()) == Seq::<char>::empty(),
{
}

proof fn lemma_optional_text_saved_back(o: Option<Seq<char>>)
    requires
        o matches Some(x) ==> trim_spec(x) == x && x.len() > 0,
    ensures
        non_empty(trim_spec(opt_text(o))) == o,
{
    lemma_trim_empty();
}

/// Opening a stored game in the edit form and saving it without a change
/// writes back the same record: the same texts, the same AppID and the same
/// launch options.
pub proof fn lemma_edit_unchanged_keeps_record(g: EditedGameFields, f: LaunchFlags, saved: EditedGameFields)
    requires
        clean_record(g),
        opt_view(g.env_vars) == env_vars_spec(f),
        edited_game_ok(saved, edit_form_spec(g), flags_in(opt_text(opt_view(g.env_vars)))),
    ensures
        record_view(saved) == record_view(g),
{
    let form = edit_form_spec(g);
    lemma_optional_text_saved_back(opt_view(g.file_path));
    lemma_optional_text_saved_back(opt_view(g.working_dir));
    lemma_optional_text_saved_back(opt_view(g.custom_command));
    lemma_trim_empty();
    match g.steam_appid {
        Some(v) => {
            lemma_signed_decimal_parses(v);
        },
        None => {},
    }
    match g.wine_prefix {
        Some(p) => {
            assert(saved_prefix_spec(form.wine_prefix, form.working_dir) == Some(p@));
        },
        None => {
            assert(form.wine_prefix =~= Seq::<char>::empty());
            assert(form.working_dir =~= Seq::<char>::empty());
        },
    }
    lemma_saved_options_read_back(f);
    assert(opt_text(opt_view(g.env_vars)) == env_or_empty(f));
    assert(flags_in(opt_text(opt_view(g.env_vars))) == f);
}

} // verus!
