//! Which covers, banners and icons the launcher fetches in the background:
//! the image kind each view mode shows, the files a downloaded image may be
//! stored in, where an image comes from, the neighbours preloaded in Big
//! Picture mode, and the games a bulk fetch covers.
use vstd::prelude::*;
use crate::launcher::ViewMode;
use crate::session::signed_decimal_spec;
use crate::text::{
    decimal_spec, is_blank, is_blank_spec, opt_view, push_decimal, push_decimal_u64, push_str, str_eq,
    string_from_chars,
};

verus! {

/// A kind of game artwork.
#[derive(Debug, Clone, Copy, PartialEq, Eq, Structural)]
pub enum MediaKind {
    Cover,
    Banner,
    Icon,
}

/// The artwork a view mode shows: banners for the banner cards, icons for
/// the icon cards, covers otherwise.
pub open spec fn media_kind_spec(m: ViewMode) -> MediaKind {
    match m {
        ViewMode::BannerCard => MediaKind::Banner,
        ViewMode::IconCard => MediaKind::Icon,
        _ => MediaKind::Cover,
    }
}

pub fn media_kind_for_view(m: ViewMode) -> (k: MediaKind)
    ensures
        k == media_kind_spec(m),
{
    match m {
        ViewMode::BannerCard => MediaKind::Banner,
        ViewMode::IconCard => MediaKind::Icon,
        _ => MediaKind::Cover,
    }
}

/// The name of an artwork kind, as the media status table stores it.
pub open spec fn media_type_name_spec(k: MediaKind) -> Seq<char> {
    match k {
        MediaKind::Cover => "cover"@,
        MediaKind::Banner => "banner"@,
        MediaKind::Icon => "icon"@,
    }
}

pub fn media_type_name(k: MediaKind) -> (s: String)
    ensures
        s@ == media_type_name_spec(k),
{
    match k {
        MediaKind::Cover => String::from_str("cover"),
        MediaKind::Banner => String::from_str("banner"),
        MediaKind::Icon => String::from_str("icon"),
    }
}

/// The media sub-directory an artwork kind is stored in.
pub open spec fn media_dir_name_spec(k: MediaKind) -> Seq<char> {
    match k {
        MediaKind::Cover => "covers"@,
        MediaKind::Banner => "banners"@,
        MediaKind::Icon => "icons"@,
    }
}

pub fn media_dir_name(k: MediaKind) -> (s: String)
    ensures
        s@ == media_dir_name_spec(k),
{
    match k {
        MediaKind::Cover => String::from_str("covers"),
        MediaKind::Banner => String::from_str("banners"),
        MediaKind::Icon => String::from_str("icons"),
    }
}

pub(crate) fn push_signed(t: &mut Vec<char>, n: i64)
    ensures
        final(t)@ == old(t)@ + signed_decimal_spec(n as int),
{
    if n < 0 {
        t.push('-');
        let m: i128 = -(n as i128);
        push_decimal_u64(t, m as u64);
        assert(t@ =~= old(t)@ + (seq!['-'] + decimal_spec((-(n as int)) as nat)));
    } else {
        push_decimal_u64(t, n as u64);
    }
}

/// The files a downloaded image of game `game_id` may be stored as, in the
/// order they are looked for: `<id>.jpg`, `<id>.png`, `<id>.webp`.
pub fn media_file_names(game_id: i64) -> (r: Vec<String>)
    ensures
        r@.len() == 3,
        r@[0]@ == signed_decimal_spec(game_id as int) + ".jpg"@,
        r@[1]@ == signed_decimal_spec(game_id as int) + ".png"@,
        r@[2]@ == signed_decimal_spec(game_id as int) + ".webp"@,
{
    let mut out: Vec<String> = Vec::new();
    let mut a: Vec<char> = Vec::new();
    push_signed(&mut a, game_id);
    push_str(&mut a, ".jpg");
    out.push(string_from_chars(&a));
    let mut b: Vec<char> = Vec::new();
    push_signed(&mut b, game_id);
    push_str(&mut b, ".png");
    out.push(string_from_chars(&b));
    let mut c: Vec<char> = Vec::new();
    push_signed(&mut c, game_id);
    push_str(&mut c, ".webp");
    out.push(string_from_chars(&c));
    out
}

/// Where an image is taken from.
#[derive(Debug, Clone, Copy, PartialEq, Eq, Structural)]
pub enum MediaSource {
    /// A file already downloaded.
    LocalFile,
    /// The Steam store's cover of this AppID.
    SteamStore(i64),
    /// SteamGridDB.
    SteamGridDb,
}

/// An image comes from its downloaded file when there is one; else a cover
/// of a Steam game comes from the Steam store; else SteamGridDB.
pub open spec fn media_source_spec(local_found: bool, appid: Option<i64>, kind: MediaKind) -> MediaSource {
    if local_found {
        MediaSource::LocalFile
    } else if appid is Some && kind == MediaKind::Cover {
        MediaSource::SteamStore(appid->0)
    } else {
        MediaSource::SteamGridDb
    }
}

pub fn media_source(local_found: bool, appid: Option<i64>, kind: MediaKind) -> (r: MediaSource)
    ensures
        r == media_source_spec(local_found, appid, kind),
{
    if local_found {
        MediaSource::LocalFile
    } else {
        match appid {
            Some(a) => if kind == MediaKind::Cover {
                MediaSource::SteamStore(a)
            } else {
                MediaSource::SteamGridDb
            },
            None => MediaSource::SteamGridDb,
        }
    }
}

/// Whether the artwork of the selected game is fetched: a game is selected,
/// no request for it is under way, and no earlier search found nothing.
pub fn should_fetch_selected(game_count: usize, selected: usize, pending: bool, status: &Option<String>) -> (b: bool)
    ensures
        b == (selected < game_count && !pending && !(status matches Some(s) && s@ == "not_found"@)),
{
    if selected >= game_count || pending {
        return false;
    }
    match status {
        Some(s) => !str_eq(s.as_str(), "not_found"),
        None => true,
    }
}

/// The games next to the selection whose covers Big Picture mode preloads:
/// the one before and the one after, where they exist.
pub fn neighbour_indices(selected: usize, count: usize) -> (r: Vec<usize>)
    requires
        selected < usize::MAX,
    ensures
        r@ == (if selected > 0 {
            seq![(selected - 1) as usize]
        } else {
            Seq::<usize>::empty()
        }) + (if selected + 1 < count {
            seq![(selected + 1) as usize]
        } else {
            Seq::<usize>::empty()
        }),
{
    let mut r: Vec<usize> = Vec::new();
    if selected > 0 {
        r.push(selected - 1);
    }
    let ghost first = r@;
    if selected + 1 < count {
        r.push(selected + 1);
        assert(r@ =~= first + seq![(selected + 1) as usize]);
    } else {
        assert(r@ =~= first + Seq::<usize>::empty());
    }
    r
}

/// A game as the bulk media fetch sees it.
pub struct MediaCandidate {
    pub id: i64,
    pub title: String,
    /// A request for its artwork is already under way.
    pub pending: bool,
    /// A downloaded cover file exists.
    pub has_local_cover: bool,
}

/// The game needs its media fetched.
pub open spec fn needs_media(g: MediaCandidate) -> bool {
    !g.pending && !g.has_local_cover
}

/// No bulk fetch is started: there is no game, a download is running, or no
/// SteamGridDB key is set (or it is blank).
pub open spec fn bulk_fetch_skipped(games: Seq<MediaCandidate>, download_busy: bool, api_key: Option<String>) -> bool {
    games.len() == 0 || download_busy || api_key is None || (api_key matches Some(k) && is_blank_spec(k@))
}

/// `t` lists, in increasing order, exactly the positions of the games that
/// need media, and there is at least one.
pub open spec fn is_bulk_plan(games: Seq<MediaCandidate>, t: Seq<usize>) -> bool {
    &&& t.len() > 0
    &&& forall|k: int| 0 <= k < t.len() ==> t[k] < games.len() && needs_media(games[t[k] as int])
    &&& forall|i: int| 0 <= i < games.len() && needs_media(games[i]) ==> t.contains(i as usize)
    &&& forall|a: int, b: int| 0 <= a < b < t.len() ==> t[a] < t[b]
}

/// The bulk fetch of missing media: nothing when it is skipped or no game
/// needs media; otherwise the positions of the games that need it, in order.
pub fn plan_bulk_fetch(games: &[MediaCandidate], download_busy: bool, api_key: &Option<String>) -> (r: Option<Vec<usize>>)
    ensures
        bulk_fetch_skipped(games@, download_busy, *api_key) ==> r is None,
        !bulk_fetch_skipped(games@, download_busy, *api_key) ==> (r is None <==> forall|i: int|
            0 <= i < games@.len() ==> !needs_media(#[trigger] games@[i])),
        r matches Some(t) ==> is_bulk_plan(games@, t@),
{
    if games.len() == 0 || download_busy {
        return None;
    }
    match api_key {
        None => {
            return None;
        },
        Some(k) => {
            if is_blank(k.as_str()) {
                return None;
            }
        },
    }
    let mut out: Vec<usize> = Vec::new();
    let mut i: usize = 0;
    while i < games.len()
        invariant
            i <= games.len(),
            forall|k: int| 0 <= k < out@.len() ==> out@[k] < i && needs_media(games@[out@[k] as int]),
            forall|j: int| 0 <= j < i && needs_media(games@[j]) ==> out@.contains(j as usize),
            forall|a: int, b: int| 0 <= a < b < out@.len() ==> out@[a] < out@[b],
            out@.len() == 0 ==> forall|j: int| 0 <= j < i ==> !needs_media(#[trigger] games@[j]),
        decreases games.len() - i,
    {
        if !games[i].pending && !games[i].has_local_cover {
            let ghost before = out@;
            out.push(i);
            assert(out@[out@.len() - 1] == i);
            assert forall|j: int|
                0 <= j < i + 1 && needs_media(games@[j]) implies out@.contains(j as usize) by {
                if j < i {
                    let k = choose|k: int| 0 <= k < before.len() && before[k] == j as usize;
                    assert(out@[k] == j as usize);
                } else {
                    assert(out@[out@.len() - 1] == j as usize);
                }
            }
        }
        i = i + 1;
    }
    if out.len() == 0 {
        None
    } else {
        assert(needs_media(games@[out@[0] as int]));
        Some(out)
    }
}

/// `"SteamGridDB Media (<done>/<total>) - <title>"`.
pub open spec fn bulk_label_spec(done: nat, total: nat, title: Seq<char>) -> Seq<char> {
    "SteamGridDB Media ("@ + decimal_spec(done) + "/"@ + decimal_spec(total) + ") - "@ + title
}

/// The progress label of a bulk fetch: `"SteamGridDB Media (<done>/<total>) - <title>"`.
pub fn bulk_fetch_label(done: usize, total: usize, title: &str) -> (s: String)
    ensures
        s@ == bulk_label_spec(done as nat, total as nat, title@),
{
    let mut t: Vec<char> = Vec::new();
    push_str(&mut t, "SteamGridDB Media (");
    push_decimal(&mut t, done);
    push_str(&mut t, "/");
    push_decimal(&mut t, total);
    push_str(&mut t, ") - ");
    push_str(&mut t, title);
    string_from_chars(&t)
}

/// `"Auto-fetching SteamGridDB media for <n> missing game(s)..."`.
pub open spec fn bulk_status_spec(n: nat) -> Seq<char> {
    "Auto-fetching SteamGridDB media for "@ + decimal_spec(n) + " missing game(s)..."@
}

/// The status line when a bulk fetch of `n` games starts.
pub fn bulk_fetch_status(n: usize) -> (s: String)
    ensures
        s@ == bulk_status_spec(n as nat),
{
    let mut t: Vec<char> = Vec::new();
    push_str(&mut t, "Auto-fetching SteamGridDB media for ");
    push_decimal(&mut t, n);
    push_str(&mut t, " missing game(s)...");
    string_from_chars(&t)
}

/// An image the game detail view loads.
#[derive(Debug, Clone, Copy, PartialEq, Eq, Structural)]
pub enum DetailMedia {
    /// The cover, at full fidelity (from a downloaded file only).
    Cover,
    /// The banner, in half blocks (downloaded when missing).
    Banner,
    /// The icon, in half blocks (downloaded when missing).
    Icon,
}

/// What the game detail view loads for the selected game: the cover when it
/// is not loaded yet; then the banner and the icon, each when it is not
/// loaded yet and no earlier search found nothing for it (its media status
/// is `"not_found"`). Nothing when no game is selected.
pub open spec fn detail_media_spec(
    selected_ok: bool,
    cover_loaded: bool,
    banner_loaded: bool,
    banner_status: Option<Seq<char>>,
    icon_loaded: bool,
    icon_status: Option<Seq<char>>,
) -> Seq<DetailMedia> {
    if !selected_ok {
        Seq::empty()
    } else {
        (if cover_loaded {
            Seq::empty()
        } else {
            seq![DetailMedia::Cover]
        }) + (if banner_loaded || banner_status == Some("not_found"@) {
            Seq::empty()
        } else {
            seq![DetailMedia::Banner]
        }) + (if icon_loaded || icon_status == Some("not_found"@) {
            Seq::empty()
        } else {
            seq![DetailMedia::Icon]
        })
    }
}

/// The images the game detail view loads for the game at `selected` of
/// `game_count` games (see [`detail_media_spec`]).
pub fn detail_media_plan(
    game_count: usize,
    selected: usize,
    cover_loaded: bool,
    banner_loaded: bool,
    banner_status: &Option<String>,
    icon_loaded: bool,
    icon_status: &Option<String>,
) -> (r: Vec<DetailMedia>)
    ensures
        r@ == detail_media_spec(
            selected < game_count,
            cover_loaded,
            banner_loaded,
            opt_view(*banner_status),
            icon_loaded,
            opt_view(*icon_status),
        ),
{
    let mut r: Vec<DetailMedia> = Vec::new();
    if selected >= game_count {
        return r;
    }
    if !cover_loaded {
        r.push(DetailMedia::Cover);
    }
    let ghost a = r@;
    let banner_missing = match banner_status {
        Some(s) => str_eq(s.as_str(), "not_found"),
        None => false,
    };
    if !banner_loaded && !banner_missing {
        r.push(DetailMedia::Banner);
    }
    let ghost b = r@;
    let icon_missing = match icon_status {
        Some(s) => str_eq(s.as_str(), "not_found"),
        None => false,
    };
    if !icon_loaded && !icon_missing {
        r.push(DetailMedia::Icon);
    }
    proof {
        let sa: Seq<DetailMedia> = if cover_loaded { Seq::empty() } else { seq![DetailMedia::Cover] };
        let sb: Seq<DetailMedia> = if banner_loaded || opt_view(*banner_status) == Some("not_found"@) {
            Seq::empty()
        } else {
            seq![DetailMedia::Banner]
        };
        let sc: Seq<DetailMedia> = if icon_loaded || opt_view(*icon_status) == Some("not_found"@) {
            Seq::empty()
        } else {
            seq![DetailMedia::Icon]
        };
        assert(a =~= sa);
        assert(b =~= sa + sb);
        assert(r@ =~= sa + sb + sc);
    }
    r
}

} // verus!
