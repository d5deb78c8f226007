//! Reading the launch options back from the environment string a game was
//! saved with: the edit form turns an option on when its assignment occurs
//! in the text, and the saved text holds exactly the assignments of the
//! options that were on.
use vstd::prelude::*;
use crate::game_record::{env_tokens, env_vars_spec};
use crate::session::LaunchFlags;
use crate::text::{contains_spec, join_spec};

verus! {

/// The environment text a game is saved with (empty when it has none).
pub open spec fn env_or_empty(f: LaunchFlags) -> Seq<char> {
    match env_vars_spec(f) {
        Some(e) => e,
        None => Seq::empty(),
    }
}

/// A word of a joined text occurs in the text.
proof fn lemma_join_contains_word(ws: Seq<Seq<char>>, sep: Seq<char>, k: int)
    requires
        0 <= k < ws.len(),
    ensures
        contains_spec(join_spec(ws, sep), ws[k]),
    decreases ws.len(),
{
    let w = ws[k];
    let j = join_spec(ws, sep);
    if ws.len() == 1 {
        let i: int = 0;
        assert(j == ws[0]);
        assert(j.subrange(i, i + w.len()) =~= w);
    } else {
        let jp = join_spec(ws.drop_last(), sep);
        assert(j == jp + sep + ws.last());
        if k == ws.len() - 1 {
            let i: int = (jp.len() + sep.len()) as int;
            assert(j.subrange(i, i + w.len()) =~= w);
        } else {
            lemma_join_contains_word(ws.drop_last(), sep, k);
            assert(ws.drop_last()[k] == w);
            let i = choose|i: int|
                0 <= i && i + w.len() <= jp.len() && #[trigger] jp.subrange(i, i + w.len()) == w;
            assert(j.subrange(i, i + w.len()) =~= jp.subrange(i, i + w.len()));
        }
    }
}

/// A text without the separator that occurs in words joined by that
/// separator occurs in one of the words.
proof fn lemma_join_match_in_word(ws: Seq<Seq<char>>, c: char, needle: Seq<char>)
    requires
        needle.len() > 0,
        !needle.contains(c),
        contains_spec(join_spec(ws, seq![c]), needle),
    ensures
        exists|k: int| 0 <= k < ws.len() && contains_spec(#[trigger] ws[k], needle),
    decreases ws.len(),
{
    let j = join_spec(ws, seq![c]);
    let n: int = needle.len() as int;
    let i = choose|i: int| 0 <= i && i + n <= j.len() && #[trigger] j.subrange(i, i + n) == needle;
    if ws.len() == 0 {
        assert(j.len() == 0);
    } else if ws.len() == 1 {
        assert(contains_spec(ws[0], needle));
    } else {
        let jp = join_spec(ws.drop_last(), seq![c]);
        let last = ws.last();
        assert(j == jp + seq![c] + last);
        if i + n <= jp.len() {
            assert(jp.subrange(i, i + n) =~= j.subrange(i, i + n));
            lemma_join_match_in_word(ws.drop_last(), c, needle);
            let k = choose|k: int|
                0 <= k < ws.drop_last().len() && contains_spec(#[trigger] ws.drop_last()[k], needle);
            assert(ws[k] == ws.drop_last()[k]);
        } else if i > jp.len() {
            let i2: int = i - jp.len() - 1;
            assert(last.subrange(i2, i2 + n) =~= j.subrange(i, i + n));
            assert(contains_spec(ws[ws.len() - 1], needle));
        } else {
            let m: int = jp.len() - i;
            assert(j[jp.len() as int] == c);
            assert(j.subrange(i, i + n)[m] == j[i + m]);
            assert(needle[m] == c);
        }
    }
}

/// `GAMEMODE=1` holds no space, and no other option's assignment holds it.
proof fn lemma_needle_gamemode()
    ensures
        "GAMEMODE=1"@.len() > 0,
        !"GAMEMODE=1"@.contains(' '),
        !contains_spec("MANGOHUD=1"@, "GAMEMODE=1"@),
        !contains_spec("GAMESCOPE=1"@, "GAMEMODE=1"@),
        !contains_spec("WINEESYNC=1"@, "GAMEMODE=1"@),
        !contains_spec("WINEFSYNC=1"@, "GAMEMODE=1"@),
        !contains_spec("DXVK_ASYNC=1"@, "GAMEMODE=1"@),
        !contains_spec("VKD3D_CONFIG=enable_async"@, "GAMEMODE=1"@),
{
    reveal_strlit("GAMEMODE=1");
    reveal_strlit("MANGOHUD=1");
    reveal_strlit("GAMESCOPE=1");
    reveal_strlit("WINEESYNC=1");
    reveal_strlit("WINEFSYNC=1");
    reveal_strlit("DXVK_ASYNC=1");
    reveal_strlit("VKD3D_CONFIG=enable_async");
    let n = "GAMEMODE=1"@;
    assert forall|i: int| 0 <= i < n.len() implies n[i] != ' ' by {
        if i == 0 {} else if i == 1 {} else if i == 2 {} else if i == 3 {} else if i == 4 {} else if i == 5 {} else if i == 6 {} else if i == 7 {} else if i == 8 {} else if i == 9 {}
    }
    if contains_spec("MANGOHUD=1"@, n) {
        let t = "MANGOHUD=1"@;
        let i = choose|i: int| 0 <= i && i + n.len() <= t.len() && #[trigger] t.subrange(i, i + n.len()) == n;
        let s = t.subrange(i, i + n.len());
        if i == 0 {
            assert(s[0] == t[0]);
            assert(s[0] == n[0]);
        }
    }
    if contains_spec("GAMESCOPE=1"@, n) {
        let t = "GAMESCOPE=1"@;
        let i = choose|i: int| 0 <= i && i + n.len() <= t.len() && #[trigger] t.subrange(i, i + n.len()) == n;
        let s = t.subrange(i, i + n.len());
        if i == 0 {
            assert(s[4] == t[4]);
            assert(s[4] == n[4]);
        } else if i == 1 {
            assert(s[0] == t[1]);
            assert(s[0] == n[0]);
        }
    }
    if contains_spec("WINEESYNC=1"@, n) {
        let t = "WINEESYNC=1"@;
        let i = choose|i: int| 0 <= i && i + n.len() <= t.len() && #[trigger] t.subrange(i, i + n.len()) == n;
        let s = t.subrange(i, i + n.len());
        if i == 0 {
            assert(s[0] == t[0]);
            assert(s[0] == n[0]);
        } else if i == 1 {
            assert(s[0] == t[1]);
            assert(s[0] == n[0]);
        }
    }
    if contains_spec("WINEFSYNC=1"@, n) {
        let t = "WINEFSYNC=1"@;
        let i = choose|i: int| 0 <= i && i + n.len() <= t.len() && #[trigger] t.subrange(i, i + n.len()) == n;
        let s = t.subrange(i, i + n.len());
        if i == 0 {
            assert(s[0] == t[0]);
            assert(s[0] == n[0]);
        } else if i == 1 {
            assert(s[0] == t[1]);
            assert(s[0] == n[0]);
        }
    }
    if contains_spec("DXVK_ASYNC=1"@, n) {
        let t = "DXVK_ASYNC=1"@;
        let i = choose|i: int| 0 <= i && i + n.len() <= t.len() && #[trigger] t.subrange(i, i + n.len()) == n;
        let s = t.subrange(i, i + n.len());
        if i == 0 {
            assert(s[0] == t[0]);
            assert(s[0] == n[0]);
        } else if i == 1 {
            assert(s[0] == t[1]);
            assert(s[0] == n[0]);
        } else if i == 2 {
            assert(s[0] == t[2]);
            assert(s[0] == n[0]);
        }
    }
    if contains_spec("VKD3D_CONFIG=enable_async"@, n) {
        let t = "VKD3D_CONFIG=enable_async"@;
        let i = choose|i: int| 0 <= i && i + n.len() <= t.len() && #[trigger] t.subrange(i, i + n.len()) == n;
        let s = t.subrange(i, i + n.len());
        if i == 0 {
            assert(s[0] == t[0]);
            assert(s[0] == n[0]);
        } else if i == 1 {
            assert(s[0] == t[1]);
            assert(s[0] == n[0]);
        } else if i == 2 {
            assert(s[0] == t[2]);
            assert(s[0] == n[0]);
        } else if i == 3 {
            assert(s[0] == t[3]);
            assert(s[0] == n[0]);
        } else if i == 4 {
            assert(s[0] == t[4]);
            assert(s[0] == n[0]);
        } else if i == 5 {
            assert(s[0] == t[5]);
            assert(s[0] == n[0]);
        } else if i == 6 {
            assert(s[0] == t[6]);
            assert(s[0] == n[0]);
        } else if i == 7 {
            assert(s[0] == t[7]);
            assert(s[0] == n[0]);
        } else if i == 8 {
            assert(s[0] == t[8]);
            assert(s[0] == n[0]);
        } else if i == 9 {
            assert(s[0] == t[9]);
            assert(s[0] == n[0]);
        } else if i == 10 {
            assert(s[0] == t[10]);
            assert(s[0] == n[0]);
        } else if i == 11 {
            assert(s[1] == t[12]);
            assert(s[1] == n[1]);
        } else if i == 12 {
            assert(s[0] == t[12]);
            assert(s[0] == n[0]);
        } else if i == 13 {
            assert(s[0] == t[13]);
            assert(s[0] == n[0]);
        } else if i == 14 {
            assert(s[0] == t[14]);
            assert(s[0] == n[0]);
        } else if i == 15 {
            assert(s[0] == t[15]);
            assert(s[0] == n[0]);
        }
    }
}

/// `MANGOHUD=1` holds no space, and no other option's assignment holds it.
proof fn lemma_needle_mangohud()
    ensures
        "MANGOHUD=1"@.len() > 0,
        !"MANGOHUD=1"@.contains(' '),
        !contains_spec("GAMEMODE=1"@, "MANGOHUD=1"@),
        !contains_spec("GAMESCOPE=1"@, "MANGOHUD=1"@),
        !contains_spec("WINEESYNC=1"@, "MANGOHUD=1"@),
        !contains_spec("WINEFSYNC=1"@, "MANGOHUD=1"@),
        !contains_spec("DXVK_ASYNC=1"@, "MANGOHUD=1"@),
        !contains_spec("VKD3D_CONFIG=enable_async"@, "MANGOHUD=1"@),
{
    reveal_strlit("MANGOHUD=1");
    reveal_strlit("GAMEMODE=1");
    reveal_strlit("GAMESCOPE=1");
    reveal_strlit("WINEESYNC=1");
    reveal_strlit("WINEFSYNC=1");
    reveal_strlit("DXVK_ASYNC=1");
    reveal_strlit("VKD3D_CONFIG=enable_async");
    let n = "MANGOHUD=1"@;
    assert forall|i: int| 0 <= i < n.len() implies n[i] != ' ' by {
        if i == 0 {} else if i == 1 {} else if i == 2 {} else if i == 3 {} else if i == 4 {} else if i == 5 {} else if i == 6 {} else if i == 7 {} else if i == 8 {} else if i == 9 {}
    }
    if contains_spec("GAMEMODE=1"@, n) {
        let t = "GAMEMODE=1"@;
        let i = choose|i: int| 0 <= i && i + n.len() <= t.len() && #[trigger] t.subrange(i, i + n.len()) == n;
        let s = t.subrange(i, i + n.len());
        if i == 0 {
            assert(s[0] == t[0]);
            assert(s[0] == n[0]);
        }
    }
    if contains_spec("GAMESCOPE=1"@, n) {
        let t = "GAMESCOPE=1"@;
        let i = choose|i: int| 0 <= i && i + n.len() <= t.len() && #[trigger] t.subrange(i, i + n.len()) == n;
        let s = t.subrange(i, i + n.len());
        if i == 0 {
            assert(s[0] == t[0]);
            assert(s[0] == n[0]);
        } else if i == 1 {
            assert(s[0] == t[1]);
            assert(s[0] == n[0]);
        }
    }
    if contains_spec("WINEESYNC=1"@, n) {
        let t = "WINEESYNC=1"@;
        let i = choose|i: int| 0 <= i && i + n.len() <= t.len() && #[trigger] t.subrange(i, i + n.len()) == n;
        let s = t.subrange(i, i + n.len());
        if i == 0 {
            assert(s[0] == t[0]);
            assert(s[0] == n[0]);
        } else if i == 1 {
            assert(s[0] == t[1]);
            assert(s[0] == n[0]);
        }
    }
    if contains_spec("WINEFSYNC=1"@, n) {
        let t = "WINEFSYNC=1"@;
        let i = choose|i: int| 0 <= i && i + n.len() <= t.len() && #[trigger] t.subrange(i, i + n.len()) == n;
        let s = t.subrange(i, i + n.len());
        if i == 0 {
            assert(s[0] == t[0]);
            assert(s[0] == n[0]);
        } else if i == 1 {
            assert(s[0] == t[1]);
            assert(s[0] == n[0]);
        }
    }
    if contains_spec("DXVK_ASYNC=1"@, n) {
        let t = "DXVK_ASYNC=1"@;
        let i = choose|i: int| 0 <= i && i + n.len() <= t.len() && #[trigger] t.subrange(i, i + n.len()) == n;
        let s = t.subrange(i, i + n.len());
        if i == 0 {
            assert(s[0] == t[0]);
            assert(s[0] == n[0]);
        } else if i == 1 {
            assert(s[0] == t[1]);
            assert(s[0] == n[0]);
        } else if i == 2 {
            assert(s[0] == t[2]);
            assert(s[0] == n[0]);
        }
    }
    if contains_spec("VKD3D_CONFIG=enable_async"@, n) {
        let t = "VKD3D_CONFIG=enable_async"@;
        let i = choose|i: int| 0 <= i && i + n.len() <= t.len() && #[trigger] t.subrange(i, i + n.len()) == n;
        let s = t.subrange(i, i + n.len());
        if i == 0 {
            assert(s[0] == t[0]);
            assert(s[0] == n[0]);
        } else if i == 1 {
            assert(s[0] == t[1]);
            assert(s[0] == n[0]);
        } else if i == 2 {
            assert(s[0] == t[2]);
            assert(s[0] == n[0]);
        } else if i == 3 {
            assert(s[0] == t[3]);
            assert(s[0] == n[0]);
        } else if i == 4 {
            assert(s[0] == t[4]);
            assert(s[0] == n[0]);
        } else if i == 5 {
            assert(s[0] == t[5]);
            assert(s[0] == n[0]);
        } else if i == 6 {
            assert(s[0] == t[6]);
            assert(s[0] == n[0]);
        } else if i == 7 {
            assert(s[0] == t[7]);
            assert(s[0] == n[0]);
        } else if i == 8 {
            assert(s[0] == t[8]);
            assert(s[0] == n[0]);
        } else if i == 9 {
            assert(s[0] == t[9]);
            assert(s[0] == n[0]);
        } else if i == 10 {
            assert(s[0] == t[10]);
            assert(s[0] == n[0]);
        } else if i == 11 {
            assert(s[0] == t[11]);
            assert(s[0] == n[0]);
        } else if i == 12 {
            assert(s[0] == t[12]);
            assert(s[0] == n[0]);
        } else if i == 13 {
            assert(s[0] == t[13]);
            assert(s[0] == n[0]);
        } else if i == 14 {
            assert(s[0] == t[14]);
            assert(s[0] == n[0]);
        } else if i == 15 {
            assert(s[0] == t[15]);
            assert(s[0] == n[0]);
        }
    }
}

/// `GAMESCOPE=1` holds no space, and no other option's assignment holds it.
proof fn lemma_needle_gamescope()
    ensures
        "GAMESCOPE=1"@.len() > 0,
        !"GAMESCOPE=1"@.contains(' '),
        !contains_spec("GAMEMODE=1"@, "GAMESCOPE=1"@),
        !contains_spec("MANGOHUD=1"@, "GAMESCOPE=1"@),
        !contains_spec("WINEESYNC=1"@, "GAMESCOPE=1"@),
        !contains_spec("WINEFSYNC=1"@, "GAMESCOPE=1"@),
        !contains_spec("DXVK_ASYNC=1"@, "GAMESCOPE=1"@),
        !contains_spec("VKD3D_CONFIG=enable_async"@, "GAMESCOPE=1"@),
{
    reveal_strlit("GAMESCOPE=1");
    reveal_strlit("GAMEMODE=1");
    reveal_strlit("MANGOHUD=1");
    reveal_strlit("WINEESYNC=1");
    reveal_strlit("WINEFSYNC=1");
    reveal_strlit("DXVK_ASYNC=1");
    reveal_strlit("VKD3D_CONFIG=enable_async");
    let n = "GAMESCOPE=1"@;
    assert forall|i: int| 0 <= i < n.len() implies n[i] != ' ' by {
        if i == 0 {} else if i == 1 {} else if i == 2 {} else if i == 3 {} else if i == 4 {} else if i == 5 {} else if i == 6 {} else if i == 7 {} else if i == 8 {} else if i == 9 {} else if i == 10 {}
    }
    if contains_spec("WINEESYNC=1"@, n) {
        let t = "WINEESYNC=1"@;
        let i = choose|i: int| 0 <= i && i + n.len() <= t.len() && #[trigger] t.subrange(i, i + n.len()) == n;
        let s = t.subrange(i, i + n.len());
        if i == 0 {
            assert(s[0] == t[0]);
            assert(s[0] == n[0]);
        }
    }
    if contains_spec("WINEFSYNC=1"@, n) {
        let t = "WINEFSYNC=1"@;
        let i = choose|i: int| 0 <= i && i + n.len() <= t.len() && #[trigger] t.subrange(i, i + n.len()) == n;
        let s = t.subrange(i, i + n.len());
        if i == 0 {
            assert(s[0] == t[0]);
            assert(s[0] == n[0]);
        }
    }
    if contains_spec("DXVK_ASYNC=1"@, n) {
        let t = "DXVK_ASYNC=1"@;
        let i = choose|i: int| 0 <= i && i + n.len() <= t.len() && #[trigger] t.subrange(i, i + n.len()) == n;
        let s = t.subrange(i, i + n.len());
        if i == 0 {
            assert(s[0] == t[0]);
            assert(s[0] == n[0]);
        } else if i == 1 {
            assert(s[0] == t[1]);
            assert(s[0] == n[0]);
        }
    }
    if contains_spec("VKD3D_CONFIG=enable_async"@, n) {
        let t = "VKD3D_CONFIG=enable_async"@;
        let i = choose|i: int| 0 <= i && i + n.len() <= t.len() && #[trigger] t.subrange(i, i + n.len()) == n;
        let s = t.subrange(i, i + n.len());
        if i == 0 {
            assert(s[0] == t[0]);
            assert(s[0] == n[0]);
        } else if i == 1 {
            assert(s[0] == t[1]);
            assert(s[0] == n[0]);
        } else if i == 2 {
            assert(s[0] == t[2]);
            assert(s[0] == n[0]);
        } else if i == 3 {
            assert(s[0] == t[3]);
            assert(s[0] == n[0]);
        } else if i == 4 {
            assert(s[0] == t[4]);
            assert(s[0] == n[0]);
        } else if i == 5 {
            assert(s[0] == t[5]);
            assert(s[0] == n[0]);
        } else if i == 6 {
            assert(s[0] == t[6]);
            assert(s[0] == n[0]);
        } else if i == 7 {
            assert(s[0] == t[7]);
            assert(s[0] == n[0]);
        } else if i == 8 {
            assert(s[0] == t[8]);
            assert(s[0] == n[0]);
        } else if i == 9 {
            assert(s[0] == t[9]);
            assert(s[0] == n[0]);
        } else if i == 10 {
            assert(s[0] == t[10]);
            assert(s[0] == n[0]);
        } else if i == 11 {
            assert(s[1] == t[12]);
            assert(s[1] == n[1]);
        } else if i == 12 {
            assert(s[0] == t[12]);
            assert(s[0] == n[0]);
        } else if i == 13 {
            assert(s[0] == t[13]);
            assert(s[0] == n[0]);
        } else if i == 14 {
            assert(s[0] == t[14]);
            assert(s[0] == n[0]);
        }
    }
}

/// `WINEESYNC=1` holds no space, and no other option's assignment holds it.
proof fn lemma_needle_esync()
    ensures
        "WINEESYNC=1"@.len() > 0,
        !"WINEESYNC=1"@.contains(' '),
        !contains_spec("GAMEMODE=1"@, "WINEESYNC=1"@),
        !contains_spec("MANGOHUD=1"@, "WINEESYNC=1"@),
        !contains_spec("GAMESCOPE=1"@, "WINEESYNC=1"@),
        !contains_spec("WINEFSYNC=1"@, "WINEESYNC=1"@),
        !contains_spec("DXVK_ASYNC=1"@, "WINEESYNC=1"@),
        !contains_spec("VKD3D_CONFIG=enable_async"@, "WINEESYNC=1"@),
{
    reveal_strlit("WINEESYNC=1");
    reveal_strlit("GAMEMODE=1");
    reveal_strlit("MANGOHUD=1");
    reveal_strlit("GAMESCOPE=1");
    reveal_strlit("WINEFSYNC=1");
    reveal_strlit("DXVK_ASYNC=1");
    reveal_strlit("VKD3D_CONFIG=enable_async");
    let n = "WINEESYNC=1"@;
    assert forall|i: int| 0 <= i < n.len() implies n[i] != ' ' by {
        if i == 0 {} else if i == 1 {} else if i == 2 {} else if i == 3 {} else if i == 4 {} else if i == 5 {} else if i == 6 {} else if i == 7 {} else if i == 8 {} else if i == 9 {} else if i == 10 {}
    }
    if contains_spec("GAMESCOPE=1"@, n) {
        let t = "GAMESCOPE=1"@;
        let i = choose|i: int| 0 <= i && i + n.len() <= t.len() && #[trigger] t.subrange(i, i + n.len()) == n;
        let s = t.subrange(i, i + n.len());
        if i == 0 {
            assert(s[0] == t[0]);
            assert(s[0] == n[0]);
        }
    }
    if contains_spec("WINEFSYNC=1"@, n) {
        let t = "WINEFSYNC=1"@;
        let i = choose|i: int| 0 <= i && i + n.len() <= t.len() && #[trigger] t.subrange(i, i + n.len()) == n;
        let s = t.subrange(i, i + n.len());
        if i == 0 {
            assert(s[4] == t[4]);
            assert(s[4] == n[4]);
        }
    }
    if contains_spec("DXVK_ASYNC=1"@, n) {
        let t = "DXVK_ASYNC=1"@;
        let i = choose|i: int| 0 <= i && i + n.len() <= t.len() && #[trigger] t.subrange(i, i + n.len()) == n;
        let s = t.subrange(i, i + n.len());
        if i == 0 {
            assert(s[0] == t[0]);
            assert(s[0] == n[0]);
        } else if i == 1 {
            assert(s[0] == t[1]);
            assert(s[0] == n[0]);
        }
    }
    if contains_spec("VKD3D_CONFIG=enable_async"@, n) {
        let t = "VKD3D_CONFIG=enable_async"@;
        let i = choose|i: int| 0 <= i && i + n.len() <= t.len() && #[trigger] t.subrange(i, i + n.len()) == n;
        let s = t.subrange(i, i + n.len());
        if i == 0 {
            assert(s[0] == t[0]);
            assert(s[0] == n[0]);
        } else if i == 1 {
            assert(s[0] == t[1]);
            assert(s[0] == n[0]);
        } else if i == 2 {
            assert(s[0] == t[2]);
            assert(s[0] == n[0]);
        } else if i == 3 {
            assert(s[0] == t[3]);
            assert(s[0] == n[0]);
        } else if i == 4 {
            assert(s[0] == t[4]);
            assert(s[0] == n[0]);
        } else if i == 5 {
            assert(s[0] == t[5]);
            assert(s[0] == n[0]);
        } else if i == 6 {
            assert(s[0] == t[6]);
            assert(s[0] == n[0]);
        } else if i == 7 {
            assert(s[0] == t[7]);
            assert(s[0] == n[0]);
        } else if i == 8 {
            assert(s[0] == t[8]);
            assert(s[0] == n[0]);
        } else if i == 9 {
            assert(s[0] == t[9]);
            assert(s[0] == n[0]);
        } else if i == 10 {
            assert(s[0] == t[10]);
            assert(s[0] == n[0]);
        } else if i == 11 {
            assert(s[0] == t[11]);
            assert(s[0] == n[0]);
        } else if i == 12 {
            assert(s[0] == t[12]);
            assert(s[0] == n[0]);
        } else if i == 13 {
            assert(s[0] == t[13]);
            assert(s[0] == n[0]);
        } else if i == 14 {
            assert(s[0] == t[14]);
            assert(s[0] == n[0]);
        }
    }
}

/// `WINEFSYNC=1` holds no space, and no other option's assignment holds it.
proof fn lemma_needle_fsync()
    ensures
        "WINEFSYNC=1"@.len() > 0,
        !"WINEFSYNC=1"@.contains(' '),
        !contains_spec("GAMEMODE=1"@, "WINEFSYNC=1"@),
        !contains_spec("MANGOHUD=1"@, "WINEFSYNC=1"@),
        !contains_spec("GAMESCOPE=1"@, "WINEFSYNC=1"@),
        !contains_spec("WINEESYNC=1"@, "WINEFSYNC=1"@),
        !contains_spec("DXVK_ASYNC=1"@, "WINEFSYNC=1"@),
        !contains_spec("VKD3D_CONFIG=enable_async"@, "WINEFSYNC=1"@),
{
    reveal_strlit("WINEFSYNC=1");
    reveal_strlit("GAMEMODE=1");
    reveal_strlit("MANGOHUD=1");
    reveal_strlit("GAMESCOPE=1");
    reveal_strlit("WINEESYNC=1");
    reveal_strlit("DXVK_ASYNC=1");
    reveal_strlit("VKD3D_CONFIG=enable_async");
    let n = "WINEFSYNC=1"@;
    assert forall|i: int| 0 <= i < n.len() implies n[i] != ' ' by {
        if i == 0 {} else if i == 1 {} else if i == 2 {} else if i == 3 {} else if i == 4 {} else if i == 5 {} else if i == 6 {} else if i == 7 {} else if i == 8 {} else if i == 9 {} else if i == 10 {}
    }
    if contains_spec("GAMESCOPE=1"@, n) {
        let t = "GAMESCOPE=1"@;
        let i = choose|i: int| 0 <= i && i + n.len() <= t.len() && #[trigger] t.subrange(i, i + n.len()) == n;
        let s = t.subrange(i, i + n.len());
        if i == 0 {
            assert(s[0] == t[0]);
            assert(s[0] == n[0]);
        }
    }
    if contains_spec("WINEESYNC=1"@, n) {
        let t = "WINEESYNC=1"@;
        let i = choose|i: int| 0 <= i && i + n.len() <= t.len() && #[trigger] t.subrange(i, i + n.len()) == n;
        let s = t.subrange(i, i + n.len());
        if i == 0 {
            assert(s[4] == t[4]);
            assert(s[4] == n[4]);
        }
    }
    if contains_spec("DXVK_ASYNC=1"@, n) {
        let t = "DXVK_ASYNC=1"@;
        let i = choose|i: int| 0 <= i && i + n.len() <= t.len() && #[trigger] t.subrange(i, i + n.len()) == n;
        let s = t.subrange(i, i + n.len());
        if i == 0 {
            assert(s[0] == t[0]);
            assert(s[0] == n[0]);
        } else if i == 1 {
            assert(s[0] == t[1]);
            assert(s[0] == n[0]);
        }
    }
    if contains_spec("VKD3D_CONFIG=enable_async"@, n) {
        let t = "VKD3D_CONFIG=enable_async"@;
        let i = choose|i: int| 0 <= i && i + n.len() <= t.len() && #[trigger] t.subrange(i, i + n.len()) == n;
        let s = t.subrange(i, i + n.len());
        if i == 0 {
            assert(s[0] == t[0]);
            assert(s[0] == n[0]);
        } else if i == 1 {
            assert(s[0] == t[1]);
            assert(s[0] == n[0]);
        } else if i == 2 {
            assert(s[0] == t[2]);
            assert(s[0] == n[0]);
        } else if i == 3 {
            assert(s[0] == t[3]);
            assert(s[0] == n[0]);
        } else if i == 4 {
            assert(s[0] == t[4]);
            assert(s[0] == n[0]);
        } else if i == 5 {
            assert(s[0] == t[5]);
            assert(s[0] == n[0]);
        } else if i == 6 {
            assert(s[0] == t[6]);
            assert(s[0] == n[0]);
        } else if i == 7 {
            assert(s[0] == t[7]);
            assert(s[0] == n[0]);
        } else if i == 8 {
            assert(s[0] == t[8]);
            assert(s[0] == n[0]);
        } else if i == 9 {
            assert(s[0] == t[9]);
            assert(s[0] == n[0]);
        } else if i == 10 {
            assert(s[0] == t[10]);
            assert(s[0] == n[0]);
        } else if i == 11 {
            assert(s[0] == t[11]);
            assert(s[0] == n[0]);
        } else if i == 12 {
            assert(s[0] == t[12]);
            assert(s[0] == n[0]);
        } else if i == 13 {
            assert(s[0] == t[13]);
            assert(s[0] == n[0]);
        } else if i == 14 {
            assert(s[0] == t[14]);
            assert(s[0] == n[0]);
        }
    }
}

/// `DXVK_ASYNC=1` holds no space, and no other option's assignment holds it.
proof fn lemma_needle_dxvk()
    ensures
        "DXVK_ASYNC=1"@.len() > 0,
        !"DXVK_ASYNC=1"@.contains(' '),
        !contains_spec("GAMEMODE=1"@, "DXVK_ASYNC=1"@),
        !contains_spec("MANGOHUD=1"@, "DXVK_ASYNC=1"@),
        !contains_spec("GAMESCOPE=1"@, "DXVK_ASYNC=1"@),
        !contains_spec("WINEESYNC=1"@, "DXVK_ASYNC=1"@),
        !contains_spec("WINEFSYNC=1"@, "DXVK_ASYNC=1"@),
        !contains_spec("VKD3D_CONFIG=enable_async"@, "DXVK_ASYNC=1"@),
{
    reveal_strlit("DXVK_ASYNC=1");
    reveal_strlit("GAMEMODE=1");
    reveal_strlit("MANGOHUD=1");
    reveal_strlit("GAMESCOPE=1");
    reveal_strlit("WINEESYNC=1");
    reveal_strlit("WINEFSYNC=1");
    reveal_strlit("VKD3D_CONFIG=enable_async");
    let n = "DXVK_ASYNC=1"@;
    assert forall|i: int| 0 <= i < n.len() implies n[i] != ' ' by {
        if i == 0 {} else if i == 1 {} else if i == 2 {} else if i == 3 {} else if i == 4 {} else if i == 5 {} else if i == 6 {} else if i == 7 {} else if i == 8 {} else if i == 9 {} else if i == 10 {} else if i == 11 {}
    }
    if contains_spec("VKD3D_CONFIG=enable_async"@, n) {
        let t = "VKD3D_CONFIG=enable_async"@;
        let i = choose|i: int| 0 <= i && i + n.len() <= t.len() && #[trigger] t.subrange(i, i + n.len()) == n;
        let s = t.subrange(i, i + n.len());
        if i == 0 {
            assert(s[0] == t[0]);
            assert(s[0] == n[0]);
        } else if i == 1 {
            assert(s[0] == t[1]);
            assert(s[0] == n[0]);
        } else if i == 2 {
            assert(s[1] == t[3]);
            assert(s[1] == n[1]);
        } else if i == 3 {
            assert(s[0] == t[3]);
            assert(s[0] == n[0]);
        } else if i == 4 {
            assert(s[1] == t[5]);
            assert(s[1] == n[1]);
        } else if i == 5 {
            assert(s[0] == t[5]);
            assert(s[0] == n[0]);
        } else if i == 6 {
            assert(s[0] == t[6]);
            assert(s[0] == n[0]);
        } else if i == 7 {
            assert(s[0] == t[7]);
            assert(s[0] == n[0]);
        } else if i == 8 {
            assert(s[0] == t[8]);
            assert(s[0] == n[0]);
        } else if i == 9 {
            assert(s[0] == t[9]);
            assert(s[0] == n[0]);
        } else if i == 10 {
            assert(s[0] == t[10]);
            assert(s[0] == n[0]);
        } else if i == 11 {
            assert(s[0] == t[11]);
            assert(s[0] == n[0]);
        } else if i == 12 {
            assert(s[0] == t[12]);
            assert(s[0] == n[0]);
        } else if i == 13 {
            assert(s[0] == t[13]);
            assert(s[0] == n[0]);
        }
    }
}

/// `VKD3D_CONFIG=enable_async` holds no space, and no other option's assignment holds it.
proof fn lemma_needle_vkd3d()
    ensures
        "VKD3D_CONFIG=enable_async"@.len() > 0,
        !"VKD3D_CONFIG=enable_async"@.contains(' '),
        !contains_spec("GAMEMODE=1"@, "VKD3D_CONFIG=enable_async"@),
        !contains_spec("MANGOHUD=1"@, "VKD3D_CONFIG=enable_async"@),
        !contains_spec("GAMESCOPE=1"@, "VKD3D_CONFIG=enable_async"@),
        !contains_spec("WINEESYNC=1"@, "VKD3D_CONFIG=enable_async"@),
        !contains_spec("WINEFSYNC=1"@, "VKD3D_CONFIG=enable_async"@),
        !contains_spec("DXVK_ASYNC=1"@, "VKD3D_CONFIG=enable_async"@),
{
    reveal_strlit("VKD3D_CONFIG=enable_async");
    reveal_strlit("GAMEMODE=1");
    reveal_strlit("MANGOHUD=1");
    reveal_strlit("GAMESCOPE=1");
    reveal_strlit("WINEESYNC=1");
    reveal_strlit("WINEFSYNC=1");
    reveal_strlit("DXVK_ASYNC=1");
    let n = "VKD3D_CONFIG=enable_async"@;
    assert forall|i: int| 0 <= i < n.len() implies n[i] != ' ' by {
        if i == 0 {} else if i == 1 {} else if i == 2 {} else if i == 3 {} else if i == 4 {} else if i == 5 {} else if i == 6 {} else if i == 7 {} else if i == 8 {} else if i == 9 {} else if i == 10 {} else if i == 11 {} else if i == 12 {} else if i == 13 {} else if i == 14 {} else if i == 15 {} else if i == 16 {} else if i == 17 {} else if i == 18 {} else if i == 19 {} else if i == 20 {} else if i == 21 {} else if i == 22 {} else if i == 23 {} else if i == 24 {}
    }
}

/// `t` is the assignment of an option that is on in `f`.
pub open spec fn enabled_token(t: Seq<char>, f: LaunchFlags) -> bool {
    ||| (t == "GAMEMODE=1"@ && f.gamemode)
    ||| (t == "MANGOHUD=1"@ && f.mangohud)
    ||| (t == "GAMESCOPE=1"@ && f.gamescope)
    ||| (t == "WINEESYNC=1"@ && f.esync)
    ||| (t == "WINEFSYNC=1"@ && f.fsync)
    ||| (t == "DXVK_ASYNC=1"@ && f.dxvk)
    ||| (t == "VKD3D_CONFIG=enable_async"@ && f.vkd3d)
}

proof fn lemma_push_contains(s: Seq<Seq<char>>, a: Seq<char>, b: Seq<char>)
    ensures
        s.push(a).contains(a),
        s.contains(b) ==> s.push(a).contains(b),
{
    assert(s.push(a)[s.len() as int] == a);
    if s.contains(b) {
        let k = choose|k: int| 0 <= k < s.len() && s[k] == b;
        assert(s.push(a)[k] == b);
    }
}

proof fn lemma_tokens_enabled(f: LaunchFlags)
    ensures
        forall|k: int| 0 <= k < env_tokens(f).len() ==> enabled_token(#[trigger] env_tokens(f)[k], f),
        f.gamemode ==> env_tokens(f).contains("GAMEMODE=1"@),
        f.mangohud ==> env_tokens(f).contains("MANGOHUD=1"@),
        f.gamescope ==> env_tokens(f).contains("GAMESCOPE=1"@),
        f.esync ==> env_tokens(f).contains("WINEESYNC=1"@),
        f.fsync ==> env_tokens(f).contains("WINEFSYNC=1"@),
        f.dxvk ==> env_tokens(f).contains("DXVK_ASYNC=1"@),
        f.vkd3d ==> env_tokens(f).contains("VKD3D_CONFIG=enable_async"@),
{
    let t0 = Seq::<Seq<char>>::empty();
    let t1 = if f.gamemode { t0.push("GAMEMODE=1"@) } else { t0 };
    let t2 = if f.mangohud { t1.push("MANGOHUD=1"@) } else { t1 };
    let t3 = if f.gamescope { t2.push("GAMESCOPE=1"@) } else { t2 };
    let t4 = if f.esync { t3.push("WINEESYNC=1"@) } else { t3 };
    let t5 = if f.fsync { t4.push("WINEFSYNC=1"@) } else { t4 };
    let t6 = if f.dxvk { t5.push("DXVK_ASYNC=1"@) } else { t5 };
    let t7 = if f.vkd3d { t6.push("VKD3D_CONFIG=enable_async"@) } else { t6 };
    assert(t7 == env_tokens(f));
    lemma_push_contains(t0, "GAMEMODE=1"@, "GAMEMODE=1"@);
    lemma_push_contains(t1, "MANGOHUD=1"@, "GAMEMODE=1"@);
    lemma_push_contains(t2, "GAMESCOPE=1"@, "GAMEMODE=1"@);
    lemma_push_contains(t2, "GAMESCOPE=1"@, "MANGOHUD=1"@);
    lemma_push_contains(t3, "WINEESYNC=1"@, "GAMEMODE=1"@);
    lemma_push_contains(t3, "WINEESYNC=1"@, "MANGOHUD=1"@);
    lemma_push_contains(t3, "WINEESYNC=1"@, "GAMESCOPE=1"@);
    lemma_push_contains(t4, "WINEFSYNC=1"@, "GAMEMODE=1"@);
    lemma_push_contains(t4, "WINEFSYNC=1"@, "MANGOHUD=1"@);
    lemma_push_contains(t4, "WINEFSYNC=1"@, "GAMESCOPE=1"@);
    lemma_push_contains(t4, "WINEFSYNC=1"@, "WINEESYNC=1"@);
    lemma_push_contains(t5, "DXVK_ASYNC=1"@, "GAMEMODE=1"@);
    lemma_push_contains(t5, "DXVK_ASYNC=1"@, "MANGOHUD=1"@);
    lemma_push_contains(t5, "DXVK_ASYNC=1"@, "GAMESCOPE=1"@);
    lemma_push_contains(t5, "DXVK_ASYNC=1"@, "WINEESYNC=1"@);
    lemma_push_contains(t5, "DXVK_ASYNC=1"@, "WINEFSYNC=1"@);
    lemma_push_contains(t6, "VKD3D_CONFIG=enable_async"@, "GAMEMODE=1"@);
    lemma_push_contains(t6, "VKD3D_CONFIG=enable_async"@, "MANGOHUD=1"@);
    lemma_push_contains(t6, "VKD3D_CONFIG=enable_async"@, "GAMESCOPE=1"@);
    lemma_push_contains(t6, "VKD3D_CONFIG=enable_async"@, "WINEESYNC=1"@);
    lemma_push_contains(t6, "VKD3D_CONFIG=enable_async"@, "WINEFSYNC=1"@);
    lemma_push_contains(t6, "VKD3D_CONFIG=enable_async"@, "DXVK_ASYNC=1"@);
}

/// One option read back: its assignment occurs in the joined text exactly
/// when some word holds it.
proof fn lemma_read_back_one(ts: Seq<Seq<char>>, n: Seq<char>, flag: bool)
    requires
        n.len() > 0,
        !n.contains(' '),
        flag ==> ts.contains(n),
        forall|k: int| 0 <= k < ts.len() && contains_spec(#[trigger] ts[k], n) ==> flag,
    ensures
        contains_spec(join_spec(ts, seq![' ']), n) == flag,
{
    if flag {
        let k = choose|k: int| 0 <= k < ts.len() && ts[k] == n;
        lemma_join_contains_word(ts, seq![' '], k);
    }
    if contains_spec(join_spec(ts, seq![' ']), n) {
        lemma_join_match_in_word(ts, ' ', n);
    }
}

/// Saving a game's launch options and opening its edit form again shows the
/// same options: each option is read back as on exactly when it was on.
pub proof fn lemma_saved_options_read_back(f: LaunchFlags)
    ensures
        contains_spec(env_or_empty(f), "GAMEMODE=1"@) == f.gamemode,
        contains_spec(env_or_empty(f), "MANGOHUD=1"@) == f.mangohud,
        contains_spec(env_or_empty(f), "GAMESCOPE=1"@) == f.gamescope,
        contains_spec(env_or_empty(f), "WINEESYNC=1"@) == f.esync,
        contains_spec(env_or_empty(f), "WINEFSYNC=1"@) == f.fsync,
        contains_spec(env_or_empty(f), "DXVK_ASYNC=1"@) == f.dxvk,
        contains_spec(env_or_empty(f), "VKD3D_CONFIG=enable_async"@) == f.vkd3d,
{
    let ts = env_tokens(f);
    assert(env_or_empty(f) == join_spec(ts, seq![' ']));
    lemma_tokens_enabled(f);
    lemma_needle_gamemode();
    lemma_needle_mangohud();
    lemma_needle_gamescope();
    lemma_needle_esync();
    lemma_needle_fsync();
    lemma_needle_dxvk();
    lemma_needle_vkd3d();
    lemma_read_back_one(ts, "GAMEMODE=1"@, f.gamemode);
    lemma_read_back_one(ts, "MANGOHUD=1"@, f.mangohud);
    lemma_read_back_one(ts, "GAMESCOPE=1"@, f.gamescope);
    lemma_read_back_one(ts, "WINEESYNC=1"@, f.esync);
    lemma_read_back_one(ts, "WINEFSYNC=1"@, f.fsync);
    lemma_read_back_one(ts, "DXVK_ASYNC=1"@, f.dxvk);
    lemma_read_back_one(ts, "VKD3D_CONFIG=enable_async"@, f.vkd3d);
}

} // verus!
