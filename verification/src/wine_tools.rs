//! The Wine tools of a Windows game: the prefix they act on, the command
//! each entry of the tools menu runs, and the warnings shown for other games.
use vstd::prelude::*;
use crate::launcher::WineToolCommand;
use crate::media_fetch::push_signed;
use crate::session::{join_path, join_path_spec, signed_decimal_spec};
use crate::text::{chars_of, copy_string, is_blank, is_blank_spec, opt_view, push_str, string_from_chars};

verus! {

/// The prefix the Wine tools of a game act on: its own prefix; else
/// `<working dir>/prefix` when it has a non-blank working directory; else
/// `<data dir>/tui_game_station/wineprefixes/p_<id>` (under
/// `~/.local/share` when the platform names no data directory).
pub open spec fn tool_prefix_spec(
    wine_prefix: Option<Seq<char>>,
    working_dir: Option<Seq<char>>,
    data_dir: Option<Seq<char>>,
    game_id: i64,
) -> Seq<char> {
    match wine_prefix {
        Some(p) => p,
        None => {
            let fallback = join_path_spec(
                join_path_spec(
                    join_path_spec(
                        match data_dir {
                            Some(d) => d,
                            None => "~/.local/share"@,
                        },
                        "tui_game_station"@,
                    ),
                    "wineprefixes"@,
                ),
                "p_"@ + signed_decimal_spec(game_id as int),
            );
            match working_dir {
                Some(w) => if !is_blank_spec(w) {
                    join_path_spec(w, "prefix"@)
                } else {
                    fallback
                },
                None => fallback,
            }
        },
    }
}

pub fn wine_tool_prefix(
    wine_prefix: &Option<String>,
    working_dir: &Option<String>,
    data_dir: &Option<String>,
    game_id: i64,
) -> (r: String)
    ensures
        r@ == tool_prefix_spec(opt_view(*wine_prefix), opt_view(*working_dir), opt_view(*data_dir), game_id),
{
    if let Some(p) = wine_prefix {
        return copy_string(p.as_str());
    }
    if let Some(w) = working_dir {
        if !is_blank(w.as_str()) {
            let wv = chars_of(w.as_str());
            return string_from_chars(&join_path(&wv, "prefix"));
        }
    }
    let base = match data_dir {
        Some(d) => chars_of(d.as_str()),
        None => chars_of("~/.local/share"),
    };
    let p1 = join_path(&base, "tui_game_station");
    let p2 = join_path(&p1, "wineprefixes");
    let mut leaf: Vec<char> = Vec::new();
    push_str(&mut leaf, "p_");
    push_signed(&mut leaf, game_id);
    let leaf_s = string_from_chars(&leaf);
    let p3 = join_path(&p2, leaf_s.as_str());
    string_from_chars(&p3)
}

/// A Wine tool.
#[derive(Debug, Clone, Copy, PartialEq, Eq, Structural)]
pub enum WineTool {
    Winecfg,
    Winetricks,
    KillProcesses,
    OpenPrefixFolder,
}

/// The tool of each entry of the Wine tools menu, in order.
pub open spec fn menu_tool_spec(idx: usize) -> Option<WineTool> {
    if idx == 0 {
        Some(WineTool::Winecfg)
    } else if idx == 1 {
        Some(WineTool::Winetricks)
    } else if idx == 2 {
        Some(WineTool::KillProcesses)
    } else if idx == 3 {
        Some(WineTool::OpenPrefixFolder)
    } else {
        None
    }
}

pub fn menu_tool(idx: usize) -> (r: Option<WineTool>)
    ensures
        r == menu_tool_spec(idx),
{
    if idx == 0 {
        Some(WineTool::Winecfg)
    } else if idx == 1 {
        Some(WineTool::Winetricks)
    } else if idx == 2 {
        Some(WineTool::KillProcesses)
    } else if idx == 3 {
        Some(WineTool::OpenPrefixFolder)
    } else {
        None
    }
}

pub open spec fn tool_exe_spec(t: WineTool) -> Seq<char> {
    match t {
        WineTool::Winecfg => "winecfg"@,
        WineTool::Winetricks => "winetricks"@,
        WineTool::KillProcesses => "wineserver"@,
        WineTool::OpenPrefixFolder => "xdg-open"@,
    }
}

pub open spec fn tool_args_spec(t: WineTool, prefix: Seq<char>) -> Seq<Seq<char>> {
    match t {
        WineTool::KillProcesses => seq!["-k"@],
        WineTool::OpenPrefixFolder => seq![prefix],
        _ => Seq::empty(),
    }
}

pub open spec fn tool_status_spec(t: WineTool, prefix: Seq<char>) -> Seq<char> {
    match t {
        WineTool::Winecfg => "Opening winecfg for prefix: "@ + prefix + "..."@,
        WineTool::Winetricks => "Opening winetricks for prefix: "@ + prefix + "..."@,
        WineTool::KillProcesses => "Killing Wine processes for prefix: "@ + prefix + "..."@,
        WineTool::OpenPrefixFolder => "Opening prefix folder: "@ + prefix + "..."@,
    }
}

/// The command a Wine tool runs on `prefix` (with `WINEPREFIX` set to it),
/// and the status line shown when it starts.
pub fn wine_tool_command(t: WineTool, prefix: &str) -> (r: (WineToolCommand, String))
    ensures
        r.0.exe@ == tool_exe_spec(t),
        r.0.args@.map_values(|a: String| a@) == tool_args_spec(t, prefix@),
        r.0.envs@.len() == 1,
        r.0.envs@[0].0@ == "WINEPREFIX"@,
        r.0.envs@[0].1@ == prefix@,
        r.1@ == tool_status_spec(t, prefix@),
{
    let mut args: Vec<String> = Vec::new();
    let mut t_status: Vec<char> = Vec::new();
    let exe = match t {
        WineTool::Winecfg => {
            push_str(&mut t_status, "Opening winecfg for prefix: ");
            String::from_str("winecfg")
        },
        WineTool::Winetricks => {
            push_str(&mut t_status, "Opening winetricks for prefix: ");
            String::from_str("winetricks")
        },
        WineTool::KillProcesses => {
            args.push(String::from_str("-k"));
            push_str(&mut t_status, "Killing Wine processes for prefix: ");
            String::from_str("wineserver")
        },
        WineTool::OpenPrefixFolder => {
            args.push(copy_string(prefix));
            push_str(&mut t_status, "Opening prefix folder: ");
            String::from_str("xdg-open")
        },
    };
    push_str(&mut t_status, prefix);
    push_str(&mut t_status, "...");
    let mut envs: Vec<(String, String)> = Vec::new();
    envs.push((String::from_str("WINEPREFIX"), copy_string(prefix)));
    assert(args@.map_values(|a: String| a@) =~= tool_args_spec(t, prefix@));
    (WineToolCommand { exe, args, envs }, string_from_chars(&t_status))
}

pub open spec fn wine_only_warning_spec(t: Option<WineTool>) -> Seq<char> {
    match t {
        Some(WineTool::Winecfg) => "[Warning] winecfg is only applicable to Wine/Windows games."@,
        Some(WineTool::Winetricks) => "[Warning] winetricks is only applicable to Wine/Windows games."@,
        Some(WineTool::KillProcesses) => "[Warning] Kill Wine is only applicable to Wine/Windows games."@,
        _ => "[Warning] Wine tools are only available for Wine/Windows games."@,
    }
}

/// The warning when a Wine tool (or, with `None`, the tools menu) is asked
/// for a game that is not a Windows game.
pub fn wine_only_warning(t: Option<WineTool>) -> (s: String)
    ensures
        s@ == wine_only_warning_spec(t),
{
    match t {
        Some(WineTool::Winecfg) => String::from_str("[Warning] winecfg is only applicable to Wine/Windows games."),
        Some(WineTool::Winetricks) => String::from_str("[Warning] winetricks is only applicable to Wine/Windows games."),
        Some(WineTool::KillProcesses) => String::from_str("[Warning] Kill Wine is only applicable to Wine/Windows games."),
        _ => String::from_str("[Warning] Wine tools are only available for Wine/Windows games."),
    }
}

} // verus!
