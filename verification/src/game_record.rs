//! Saving the add/edit game forms: the launch options written back as the
//! game's environment string, the Steam AppID read as a number, the file
//! name and extension taken from the path, the Wine prefix defaulted next to
//! the working directory, and the platform a new or edited game belongs to.
use vstd::prelude::*;
use crate::game_form::{GameFormText, GameFormTextView};
use crate::platforms::Platform;
use crate::scan_form::PlatformType;
use crate::session::{LaunchFlags, join_path, join_path_spec};
use crate::text::{
    chars_of, copy_string, is_blank_spec, join_chars, join_spec, opt_view, pieces, push_str,
    split_pieces, str_eq, string_from_chars, trim_chars, trim_spec, views,
};

verus! {

/// The environment assignments the enabled launch options stand for, in
/// their fixed order.
pub open spec fn env_tokens(f: LaunchFlags) -> Seq<Seq<char>> {
    let t0 = Seq::<Seq<char>>::empty();
    let t1 = if f.gamemode {
        t0.push("GAMEMODE=1"@)
    } else {
        t0
    };
    let t2 = if f.mangohud {
        t1.push("MANGOHUD=1"@)
    } else {
        t1
    };
    let t3 = if f.gamescope {
        t2.push("GAMESCOPE=1"@)
    } else {
        t2
    };
    let t4 = if f.esync {
        t3.push("WINEESYNC=1"@)
    } else {
        t3
    };
    let t5 = if f.fsync {
        t4.push("WINEFSYNC=1"@)
    } else {
        t4
    };
    let t6 = if f.dxvk {
        t5.push("DXVK_ASYNC=1"@)
    } else {
        t5
    };
    if f.vkd3d {
        t6.push("VKD3D_CONFIG=enable_async"@)
    } else {
        t6
    }
}

/// The environment string saved with a game: the assignments of the
/// enabled options separated by spaces, or none when no option is on.
pub open spec fn env_vars_spec(f: LaunchFlags) -> Option<Seq<char>> {
    if env_tokens(f).len() == 0 {
        None
    } else {
        Some(join_spec(env_tokens(f), seq![' ']))
    }
}

fn push_token(tokens: &mut Vec<Vec<char>>, s: &str)
    ensures
        views(final(tokens)@) == views(old(tokens)@).push(s@),
{
    let ghost before = views(tokens@);
    let t = chars_of(s);
    tokens.push(t);
    assert(views(tokens@) =~= before.push(s@));
}

/// The environment string for the launch options `f`.
pub fn env_vars_from_flags(f: LaunchFlags) -> (r: Option<String>)
    ensures
        opt_view(r) == env_vars_spec(f),
{
    let mut tokens: Vec<Vec<char>> = Vec::new();
    assert(views(tokens@) =~= Seq::<Seq<char>>::empty());
    if f.gamemode {
        push_token(&mut tokens, "GAMEMODE=1");
    }
    if f.mangohud {
        push_token(&mut tokens, "MANGOHUD=1");
    }
    if f.gamescope {
        push_token(&mut tokens, "GAMESCOPE=1");
    }
    if f.esync {
        push_token(&mut tokens, "WINEESYNC=1");
    }
    if f.fsync {
        push_token(&mut tokens, "WINEFSYNC=1");
    }
    if f.dxvk {
        push_token(&mut tokens, "DXVK_ASYNC=1");
    }
    if f.vkd3d {
        push_token(&mut tokens, "VKD3D_CONFIG=enable_async");
    }
    assert(views(tokens@) == env_tokens(f));
    if tokens.len() == 0 {
        None
    } else {
        let joined = join_chars(&tokens, ' ');
        Some(string_from_chars(&joined))
    }
}

pub open spec fn is_digit(c: char) -> bool {
    '0' <= c <= '9'
}

/// The value of a decimal digit.
pub open spec fn digit_value(c: char) -> int {
    (c as int) - 48
}

/// The value of a run of decimal digits.
pub open spec fn digits_value(d: Seq<char>) -> int
    decreases d.len(),
{
    if d.len() == 0 {
        0
    } else {
        digits_value(d.drop_last()) * 10 + digit_value(d.last())
    }
}

pub open spec fn all_digits(d: Seq<char>) -> bool {
    forall|i: int| 0 <= i < d.len() ==> is_digit(#[trigger] d[i])
}

/// `str::parse::<i64>`: an optional `+` or `-`, then at least one decimal
/// digit and nothing else, with a value within the range of `i64`.
pub open spec fn parse_i64_spec(s: Seq<char>) -> Option<int> {
    if s.len() == 0 {
        None
    } else {
        let d = if s[0] == '-' || s[0] == '+' {
            s.drop_first()
        } else {
            s
        };
        if d.len() == 0 || !all_digits(d) {
            None
        } else {
            let v = if s[0] == '-' {
                -digits_value(d)
            } else {
                digits_value(d)
            };
            if i64::MIN <= v <= i64::MAX {
                Some(v)
            } else {
                None
            }
        }
    }
}

proof fn lemma_digits_value_nonneg(d: Seq<char>)
    requires
        all_digits(d),
    ensures
        digits_value(d) >= 0,
    decreases d.len(),
{
    if d.len() > 0 {
        assert(all_digits(d.drop_last()));
        assert(is_digit(d[d.len() - 1]));
        lemma_digits_value_nonneg(d.drop_last());
    }
}

/// A longer run of digits is worth at least as much as its prefix.
proof fn lemma_digits_value_prefix(d: Seq<char>, k: int)
    requires
        all_digits(d),
        0 <= k <= d.len(),
    ensures
        digits_value(d.take(k)) <= digits_value(d),
    decreases d.len(),
{
    if k < d.len() {
        assert(all_digits(d.drop_last()));
        lemma_digits_value_prefix(d.drop_last(), k);
        assert(d.drop_last().take(k) =~= d.take(k));
        lemma_digits_value_nonneg(d.drop_last());
        assert(is_digit(d[d.len() - 1]));
    } else {
        assert(d.take(k) =~= d);
    }
}

/// Read a decimal integer as `str::parse::<i64>` does.
pub fn parse_i64(s: &str) -> (r: Option<i64>)
    ensures
        match r {
            Some(v) => parse_i64_spec(s@) == Some(v as int),
            None => parse_i64_spec(s@) is None,
        },
{
    let cs = chars_of(s);
    if cs.len() == 0 {
        return None;
    }
    let neg = cs[0] == '-';
    let start: usize = if cs[0] == '-' || cs[0] == '+' {
        1
    } else {
        0
    };
    if start == cs.len() {
        return None;
    }
    let ghost d = if cs@[0] == '-' || cs@[0] == '+' {
        cs@.drop_first()
    } else {
        cs@
    };
    assert(d =~= cs@.skip(start as int));
    let bound: u128 = 9223372036854775808;
    let mut acc: u128 = 0;
    let mut i: usize = start;
    while i < cs.len()
        invariant
            start <= i <= cs.len(),
            start < cs.len(),
            cs@ == s@,
            d == cs@.skip(start as int),
            d == (if s@[0] == '-' || s@[0] == '+' {
                s@.drop_first()
            } else {
                s@
            }),
            acc == digits_value(d.take(i - start)),
            acc <= bound,
            all_digits(d.take(i - start)),
            bound == 9223372036854775808,
        decreases cs.len() - i,
    {
        let c = cs[i];
        let ghost t = d.take(i - start + 1);
        assert(t.drop_last() =~= d.take(i - start));
        assert(t.last() == c);
        if c < '0' || c > '9' {
            proof {
                assert(d[i - start] == c);
                assert(!is_digit(d[i - start]));
                assert(!all_digits(d));
                assert(cs@ == s@);
            }
            return None;
        }
        let dv = (c as u32 - '0' as u32) as u128;
        assert(dv == digit_value(c));
        acc = acc * 10 + dv;
        assert(acc == digits_value(t));
        proof {
            assert forall|j: int| 0 <= j < t.len() implies is_digit(#[trigger] t[j]) by {
                if j < t.len() - 1 {
                    assert(t[j] == d.take(i - start)[j]);
                }
            }
        }
        if acc > bound {
            proof {
                assert(cs@ == s@);
                if all_digits(d) {
                    lemma_digits_value_prefix(d, i - start + 1);
                    assert(digits_value(d) > bound);
                }
            }
            return None;
        }
        i = i + 1;
    }
    assert(d.take(i - start) =~= d);
    if neg {
        let v: i128 = -(acc as i128);
        Some(v as i64)
    } else if acc < bound {
        Some(acc as i64)
    } else {
        None
    }
}

/// The last piece of `s` after `sep` (`s.split(sep).next_back()`, which is
/// always there).
pub open spec fn last_piece(s: Seq<char>, sep: char) -> Seq<char> {
    pieces(s, sep).last()
}

fn last_piece_of(s: &str, sep: char) -> (r: String)
    ensures
        r@ == last_piece(s@, sep),
{
    let cs = chars_of(s);
    let ps = split_pieces(&cs, sep);
    let last = &ps[ps.len() - 1];
    assert(views(ps@)[ps@.len() - 1] == last@);
    string_from_chars(last)
}

/// The file name saved for a path: the text after its last `/`.
pub fn file_name_of(path: &str) -> (r: String)
    ensures
        r@ == last_piece(path@, '/'),
{
    last_piece_of(path, '/')
}

/// The file extension saved for a path: a dot and the text after its last
/// `.` (the whole path, after a dot, when it has none).
pub fn file_extension_of(path: &str) -> (r: String)
    ensures
        r@ == seq!['.'] + last_piece(path@, '.'),
{
    let piece = last_piece_of(path, '.');
    let mut t: Vec<char> = Vec::new();
    t.push('.');
    push_str(&mut t, piece.as_str());
    assert(t@ =~= seq!['.'] + piece@);
    string_from_chars(&t)
}

/// The Wine prefix saved with a game: the trimmed prefix when one is given,
/// else `<trimmed working directory>/prefix` when there is a working
/// directory, else none.
pub open spec fn saved_prefix_spec(prefix: Seq<char>, working_dir: Seq<char>) -> Option<Seq<char>> {
    if trim_spec(prefix).len() == 0 {
        if trim_spec(working_dir).len() > 0 {
            Some(join_path_spec(trim_spec(working_dir), "prefix"@))
        } else {
            None
        }
    } else {
        Some(trim_spec(prefix))
    }
}

pub fn saved_wine_prefix(prefix: &str, working_dir: &str) -> (r: Option<String>)
    ensures
        opt_view(r) == saved_prefix_spec(prefix@, working_dir@),
{
    let p = trim_chars(&chars_of(prefix));
    if p.len() == 0 {
        let w = trim_chars(&chars_of(working_dir));
        if w.len() > 0 {
            let j = join_path(&w, "prefix");
            Some(string_from_chars(&j))
        } else {
            None
        }
    } else {
        Some(string_from_chars(&p))
    }
}

/// `Some(s)` for a non-empty `s`, `None` for an empty one.
pub open spec fn non_empty(s: Seq<char>) -> Option<Seq<char>> {
    if s.len() == 0 {
        None
    } else {
        Some(s)
    }
}

fn non_empty_string(s: &str) -> (r: Option<String>)
    ensures
        opt_view(r) == non_empty(s@),
{
    if s.is_empty() {
        None
    } else {
        Some(copy_string(s))
    }
}

fn non_empty_trimmed(s: &str) -> (r: Option<String>)
    ensures
        opt_view(r) == non_empty(trim_spec(s@)),
{
    let t = trim_chars(&chars_of(s));
    if t.len() == 0 {
        None
    } else {
        Some(string_from_chars(&t))
    }
}

/// The name a platform type is stored under in a game record.
pub open spec fn game_type_name_spec(t: PlatformType) -> Seq<char> {
    match t {
        PlatformType::Emulator => "emulator"@,
        PlatformType::Native => "native"@,
        PlatformType::Wine => "wine"@,
        PlatformType::Steam => "steam"@,
    }
}

pub fn game_type_name(t: PlatformType) -> (s: String)
    ensures
        s@ == game_type_name_spec(t),
{
    match t {
        PlatformType::Emulator => String::from_str("emulator"),
        PlatformType::Native => String::from_str("native"),
        PlatformType::Wine => String::from_str("wine"),
        PlatformType::Steam => String::from_str("steam"),
    }
}

/// The id of the first platform with slug `slug`, if any.
pub open spec fn slug_platform(ps: Seq<Platform>, slug: Seq<char>, i: int) -> bool {
    0 <= i < ps.len() && ps[i].slug@ == slug && forall|j: int| 0 <= j < i ==> ps[j].slug@ != slug
}

fn find_slug(ps: &[Platform], slug: &str) -> (r: Option<usize>)
    ensures
        match r {
            Some(i) => slug_platform(ps@, slug@, i as int),
            None => forall|j: int| 0 <= j < ps@.len() ==> ps@[j].slug@ != slug@,
        },
{
    let mut i: usize = 0;
    while i < ps.len()
        invariant
            i <= ps.len(),
            forall|j: int| 0 <= j < i ==> ps@[j].slug@ != slug@,
        decreases ps.len() - i,
    {
        if str_eq(ps[i].slug.as_str(), slug) {
            return Some(i);
        }
        i = i + 1;
    }
    None
}

/// The id of the first platform with slug `slug`, or `fallback` when no
/// platform has it.
pub open spec fn slug_id_or(ps: Seq<Platform>, slug: Seq<char>, fallback: i64) -> i64 {
    if exists|i: int| slug_platform(ps, slug, i) {
        ps[choose|i: int| slug_platform(ps, slug, i)].id
    } else {
        fallback
    }
}

/// The platform id of a slug: the first platform with that slug, else 1.
pub open spec fn slug_id_or_one(ps: Seq<Platform>, slug: Seq<char>) -> i64 {
    slug_id_or(ps, slug, 1)
}

proof fn lemma_slug_unique(ps: Seq<Platform>, slug: Seq<char>, i: int, k: int)
    requires
        slug_platform(ps, slug, i),
        slug_platform(ps, slug, k),
    ensures
        i == k,
{
}

fn slug_id(ps: &[Platform], slug: &str, fallback: i64) -> (r: i64)
    ensures
        r == slug_id_or(ps@, slug@, fallback),
{
    match find_slug(ps, slug) {
        Some(i) => {
            proof {
                let k = choose|k: int| slug_platform(ps@, slug@, k);
                lemma_slug_unique(ps@, slug@, i as int, k);
            }
            ps[i].id
        },
        None => fallback,
    }
}

/// The platform a new game is saved under: the platform picked in the form
/// for an emulator game (the first listed platform when the pick is out of
/// range, id 1 when none is listed); Linux, Windows or Steam for the other
/// types (id 1 when the library has no such platform).
pub open spec fn new_game_platform_spec(
    gtype: PlatformType,
    platform_idx: usize,
    listed: Seq<Platform>,
    all: Seq<Platform>,
) -> i64 {
    match gtype {
        PlatformType::Emulator => if platform_idx < listed.len() {
            listed[platform_idx as int].id
        } else if listed.len() > 0 {
            listed[0].id
        } else {
            1
        },
        PlatformType::Native => slug_id_or_one(all, "linux"@),
        PlatformType::Wine => slug_id_or_one(all, "windows"@),
        PlatformType::Steam => slug_id_or_one(all, "steam"@),
    }
}

pub fn new_game_platform(
    gtype: PlatformType,
    platform_idx: usize,
    listed: &[Platform],
    all: &[Platform],
) -> (r: i64)
    ensures
        r == new_game_platform_spec(gtype, platform_idx, listed@, all@),
{
    match gtype {
        PlatformType::Emulator => if platform_idx < listed.len() {
            listed[platform_idx].id
        } else if listed.len() > 0 {
            listed[0].id
        } else {
            1
        },
        PlatformType::Native => slug_id(all, "linux", 1),
        PlatformType::Wine => slug_id(all, "windows", 1),
        PlatformType::Steam => slug_id(all, "steam", 1),
    }
}

/// The fields of a game record that the add form decides.
pub struct NewGameFields {
    pub platform_id: i64,
    pub title: String,
    pub game_type: String,
    pub file_path: Option<String>,
    pub working_dir: Option<String>,
    pub custom_command: Option<String>,
    pub env_vars: Option<String>,
    pub wine_prefix: Option<String>,
    pub steam_appid: Option<i64>,
    pub file_name: Option<String>,
    pub file_extension: Option<String>,
}

/// The record the add form saves: the texts as typed (empty ones left
/// out), the environment of the launch options, the defaulted Wine prefix,
/// the AppID if it reads as a number, and the file name and extension.
pub open spec fn new_game_ok(
    g: NewGameFields,
    f: GameFormTextView,
    flags: LaunchFlags,
    gtype: PlatformType,
    platform_id: i64,
) -> bool {
    &&& g.platform_id == platform_id
    &&& g.title@ == f.title
    &&& g.game_type@ == game_type_name_spec(gtype)
    &&& opt_view(g.file_path) == non_empty(f.file_path)
    &&& opt_view(g.working_dir) == non_empty(f.working_dir)
    &&& opt_view(g.custom_command) == non_empty(f.custom_command)
    &&& opt_view(g.env_vars) == env_vars_spec(flags)
    &&& opt_view(g.wine_prefix) == saved_prefix_spec(f.wine_prefix, f.working_dir)
    &&& (match g.steam_appid {
        Some(v) => parse_i64_spec(f.steam_appid) == Some(v as int),
        None => parse_i64_spec(f.steam_appid) is None,
    })
    &&& opt_view(g.file_name) == Some(last_piece(f.file_path, '/'))
    &&& opt_view(g.file_extension) == Some(seq!['.'] + last_piece(f.file_path, '.'))
}

/// The record to insert for the add form, or the error shown when the
/// title is blank.
pub fn build_new_game(
    f: &GameFormText,
    flags: LaunchFlags,
    gtype: PlatformType,
    platform_idx: usize,
    listed: &[Platform],
    all: &[Platform],
) -> (r: Result<NewGameFields, String>)
    ensures
        is_blank_spec(f.title@) <==> r is Err,
        r matches Err(e) ==> e@ == "Game title cannot be empty."@,
        r matches Ok(g) ==> new_game_ok(
            g,
            f@,
            flags,
            gtype,
            new_game_platform_spec(gtype, platform_idx, listed@, all@),
        ),
{
    if crate::text::is_blank(f.title.as_str()) {
        return Err(String::from_str("Game title cannot be empty."));
    }
    let platform_id = new_game_platform(gtype, platform_idx, listed, all);
    let steam_appid = parse_i64(f.steam_appid.as_str());
    Ok(
        NewGameFields {
            platform_id,
            title: copy_string(f.title.as_str()),
            game_type: game_type_name(gtype),
            file_path: non_empty_string(f.file_path.as_str()),
            working_dir: non_empty_string(f.working_dir.as_str()),
            custom_command: non_empty_string(f.custom_command.as_str()),
            env_vars: env_vars_from_flags(flags),
            wine_prefix: saved_wine_prefix(f.wine_prefix.as_str(), f.working_dir.as_str()),
            steam_appid,
            file_name: Some(file_name_of(f.file_path.as_str())),
            file_extension: Some(file_extension_of(f.file_path.as_str())),
        },
    )
}

/// The fields of a game record that the edit form rewrites.
#[derive(Debug, Clone, PartialEq, Eq)]
pub struct EditedGameFields {
    pub title: String,
    pub file_path: Option<String>,
    pub working_dir: Option<String>,
    pub custom_command: Option<String>,
    pub wine_prefix: Option<String>,
    pub steam_appid: Option<i64>,
    pub env_vars: Option<String>,
}

/// The record the edit form saves: every text trimmed (blank ones left out),
/// the defaulted Wine prefix, the AppID if its trimmed text reads as a
/// number, and the environment of the launch options.
pub open spec fn edited_game_ok(g: EditedGameFields, f: GameFormTextView, flags: LaunchFlags) -> bool {
    &&& g.title@ == trim_spec(f.title)
    &&& opt_view(g.file_path) == non_empty(trim_spec(f.file_path))
    &&& opt_view(g.working_dir) == non_empty(trim_spec(f.working_dir))
    &&& opt_view(g.custom_command) == non_empty(trim_spec(f.custom_command))
    &&& opt_view(g.wine_prefix) == saved_prefix_spec(f.wine_prefix, f.working_dir)
    &&& (match g.steam_appid {
        Some(v) => parse_i64_spec(trim_spec(f.steam_appid)) == Some(v as int),
        None => parse_i64_spec(trim_spec(f.steam_appid)) is None,
    })
    &&& opt_view(g.env_vars) == env_vars_spec(flags)
}

/// The fields to update for the edit form, or the error shown when the
/// title is blank.
pub fn build_edited_game(f: &GameFormText, flags: LaunchFlags) -> (r: Result<EditedGameFields, String>)
    ensures
        is_blank_spec(f.title@) <==> r is Err,
        r matches Err(e) ==> e@ == "Error: Game title cannot be empty."@,
        r matches Ok(g) ==> edited_game_ok(g, f@, flags),
{
    if crate::text::is_blank(f.title.as_str()) {
        return Err(String::from_str("Error: Game title cannot be empty."));
    }
    let title = string_from_chars(&trim_chars(&chars_of(f.title.as_str())));
    let appid_text = string_from_chars(&trim_chars(&chars_of(f.steam_appid.as_str())));
    Ok(
        EditedGameFields {
            title,
            file_path: non_empty_trimmed(f.file_path.as_str()),
            working_dir: non_empty_trimmed(f.working_dir.as_str()),
            custom_command: non_empty_trimmed(f.custom_command.as_str()),
            wine_prefix: saved_wine_prefix(f.wine_prefix.as_str(), f.working_dir.as_str()),
            steam_appid: parse_i64(appid_text.as_str()),
            env_vars: env_vars_from_flags(flags),
        },
    )
}

/// The platform an edited game moves to: Windows, Linux or Steam for a Wine,
/// native or Steam game when the library has that platform; otherwise it
/// stays on `current`.
pub open spec fn edited_platform_spec(game_type: Seq<char>, current: i64, all: Seq<Platform>) -> i64 {
    if game_type == "wine"@ {
        slug_id_or(all, "windows"@, current)
    } else if game_type == "native"@ {
        slug_id_or(all, "linux"@, current)
    } else if game_type == "steam"@ {
        slug_id_or(all, "steam"@, current)
    } else {
        current
    }
}

pub fn edited_game_platform(game_type: &str, current: i64, all: &[Platform]) -> (r: i64)
    ensures
        r == edited_platform_spec(game_type@, current, all@),
{
    if str_eq(game_type, "wine") {
        slug_id(all, "windows", current)
    } else if str_eq(game_type, "native") {
        slug_id(all, "linux", current)
    } else if str_eq(game_type, "steam") {
        slug_id(all, "steam", current)
    } else {
        current
    }
}

/// Status line after a new game was saved.
pub fn game_saved_status(title: &str) -> (s: String)
    ensures
        s@ == "Game '"@ + title@ + "' saved successfully."@,
{
    let mut t: Vec<char> = Vec::new();
    push_str(&mut t, "Game '");
    push_str(&mut t, title);
    push_str(&mut t, "' saved successfully.");
    string_from_chars(&t)
}

/// Status line when saving a new game failed.
pub fn game_save_error_status(err: &str) -> (s: String)
    ensures
        s@ == "Error saving game: "@ + err@,
{
    let mut t: Vec<char> = Vec::new();
    push_str(&mut t, "Error saving game: ");
    push_str(&mut t, err);
    string_from_chars(&t)
}

/// Status line after an edited game was saved.
pub fn game_updated_status(title: &str) -> (s: String)
    ensures
        s@ == "[OK] Updated details for '"@ + title@ + "'!"@,
{
    let mut t: Vec<char> = Vec::new();
    push_str(&mut t, "[OK] Updated details for '");
    push_str(&mut t, title);
    push_str(&mut t, "'!");
    string_from_chars(&t)
}

} // verus!
