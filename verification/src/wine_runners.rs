//! Choosing the Wine/Proton runner of a Windows game: the launch command a
//! runner stands for, and how ◀ ▶ (or the runner shortcut) move from the
//! runner the current command uses to the next installed one.
use vstd::prelude::*;
use crate::text::{contains_spec, push_str, str_contains, str_eq, string_from_chars};

verus! {

/// How a runner starts a Windows executable.
#[derive(Debug, Clone, Copy, PartialEq, Eq, Structural)]
pub enum WineRunnerKind {
    /// `"<proton>" run "<exe>"`
    Proton,
    /// `"<wine>" "<exe>"`
    Wine,
}

/// An installed Wine or Proton runner, as the runner detector reports it.
pub struct WineRunner {
    pub name: String,
    /// The runner's binary, as displayed.
    pub binary_path: String,
    /// Where the runner was found, as displayed.
    pub location: String,
    pub kind: WineRunnerKind,
}

/// The launch command of a runner of kind `kind` with binary `path`; the
/// `{file_path}` placeholder stands for the game's executable.
pub open spec fn runner_command_spec(kind: WineRunnerKind, path: Seq<char>) -> Seq<char> {
    match kind {
        WineRunnerKind::Proton => "\""@ + path + "\" run \"{file_path}\""@,
        WineRunnerKind::Wine => "\""@ + path + "\" \"{file_path}\""@,
    }
}

/// The launch command of `r`.
pub fn wine_runner_command(r: &WineRunner) -> (s: String)
    ensures
        s@ == runner_command_spec(r.kind, r.binary_path@),
{
    let mut t: Vec<char> = Vec::new();
    push_str(&mut t, "\"");
    push_str(&mut t, r.binary_path.as_str());
    match r.kind {
        WineRunnerKind::Proton => push_str(&mut t, "\" run \"{file_path}\""),
        WineRunnerKind::Wine => push_str(&mut t, "\" \"{file_path}\""),
    }
    string_from_chars(&t)
}

/// The form's command belongs to runner `r`: it is `r`'s command, or it
/// holds `r`'s name.
pub open spec fn uses_runner(current: Seq<char>, r: WineRunner) -> bool {
    current == runner_command_spec(r.kind, r.binary_path@) || contains_spec(current, r.name@)
}

/// Position of the runner the command uses: the first that it uses, or 0.
pub open spec fn used_runner_pos(rs: Seq<WineRunner>, current: Seq<char>, i: int) -> bool {
    if exists|j: int| 0 <= j < rs.len() && uses_runner(current, #[trigger] rs[j]) {
        0 <= i < rs.len() && uses_runner(current, rs[i]) && forall|j: int|
            0 <= j < i ==> !uses_runner(current, #[trigger] rs[j])
    } else {
        i == 0
    }
}

/// The first runner the command uses, if any.
fn find_used_runner(installed: &[WineRunner], current_cmd: &str) -> (r: Option<usize>)
    ensures
        match r {
            Some(i) => i < installed@.len() && uses_runner(current_cmd@, installed@[i as int])
                && forall|j: int| 0 <= j < i ==> !uses_runner(current_cmd@, #[trigger] installed@[j]),
            None => forall|j: int|
                0 <= j < installed@.len() ==> !uses_runner(current_cmd@, #[trigger] installed@[j]),
        },
{
    let mut i: usize = 0;
    while i < installed.len()
        invariant
            i <= installed.len(),
            forall|j: int| 0 <= j < i ==> !uses_runner(current_cmd@, #[trigger] installed@[j]),
        decreases installed.len() - i,
    {
        let cmd = wine_runner_command(&installed[i]);
        if str_eq(current_cmd, cmd.as_str()) || str_contains(current_cmd, installed[i].name.as_str()) {
            return Some(i);
        }
        i = i + 1;
    }
    None
}

/// ◀ (`right` false) or ▶ on the runner field of a Wine game form: the
/// command of the runner before or after the one the current command uses,
/// wrapping; `None` when no runner is installed.
pub fn nav_wine_runner(installed: &[WineRunner], current_cmd: &str, right: bool) -> (r: Option<String>)
    ensures
        installed@.len() == 0 ==> r is None,
        installed@.len() > 0 ==> r is Some,
        installed@.len() > 0 ==> exists|i: int|
            #[trigger] used_runner_pos(installed@, current_cmd@, i) && r->0@ == runner_command_spec(
                installed@[step_spec(i, installed@.len() as int, right)].kind,
                installed@[step_spec(i, installed@.len() as int, right)].binary_path@,
            ),
{
    if installed.len() == 0 {
        return None;
    }
    let idx: usize = match find_used_runner(installed, current_cmd) {
        Some(i) => i,
        None => 0,
    };
    assert(used_runner_pos(installed@, current_cmd@, idx as int));
    let len = installed.len();
    let next = if right {
        (idx + 1) % len
    } else if idx == 0 {
        len - 1
    } else {
        idx - 1
    };
    assert(next as int == step_spec(idx as int, len as int, right));
    Some(wine_runner_command(&installed[next]))
}

/// Index reached from `i` by one step in a list of `len > 0` items.
pub open spec fn step_spec(i: int, len: int, right: bool) -> int {
    if right {
        (i + 1) % len
    } else if i == 0 {
        len - 1
    } else {
        i - 1
    }
}

/// The runner shortcut's notion of the current runner: the command is not
/// empty and holds the runner's name or binary path.
pub open spec fn names_runner(current: Seq<char>, r: WineRunner) -> bool {
    current.len() > 0 && (contains_spec(current, r.name@) || contains_spec(current, r.binary_path@))
}

/// Position the runner shortcut moves to: from the first runner the command
/// names, one step forward (`step > 0`) or back, wrapping; the first runner
/// when the command names none.
pub open spec fn cycle_target_spec(rs: Seq<WineRunner>, current: Seq<char>, step: i32, i: int) -> bool {
    if exists|j: int| 0 <= j < rs.len() && names_runner(current, #[trigger] rs[j]) {
        exists|c: int|
            0 <= c < rs.len() && names_runner(current, #[trigger] rs[c]) && (forall|j: int|
                0 <= j < c ==> !names_runner(current, #[trigger] rs[j])) && i == step_spec(
                c,
                rs.len() as int,
                step > 0,
            )
    } else {
        i == 0
    }
}

/// The runner shortcut on a Wine game form: the position of the runner to
/// switch to, or `None` when no runner is installed.
pub fn cycle_wine_runner(installed: &[WineRunner], current_cmd: &str, step: i32) -> (r: Option<usize>)
    ensures
        installed@.len() == 0 <==> r is None,
        r matches Some(i) ==> i < installed@.len() && cycle_target_spec(installed@, current_cmd@, step, i as int),
{
    if installed.len() == 0 {
        return None;
    }
    let nonempty = !current_cmd.is_empty();
    let mut i: usize = 0;
    while i < installed.len()
        invariant
            i <= installed.len(),
            nonempty == (current_cmd@.len() > 0),
            forall|j: int| 0 <= j < i ==> !names_runner(current_cmd@, #[trigger] installed@[j]),
        decreases installed.len() - i,
    {
        if nonempty && (str_contains(current_cmd, installed[i].name.as_str()) || str_contains(
            current_cmd,
            installed[i].binary_path.as_str(),
        )) {
            let len = installed.len();
            let next = if step > 0 {
                (i + 1) % len
            } else if i == 0 {
                len - 1
            } else {
                i - 1
            };
            assert(names_runner(current_cmd@, installed@[i as int]));
            assert(next as int == step_spec(i as int, len as int, step > 0));
            return Some(next);
        }
        i = i + 1;
    }
    Some(0)
}

/// Status line after the runner shortcut picked `r`.
pub open spec fn selected_runner_status_spec(r: WineRunner) -> Seq<char> {
    "Selected Runner: "@ + r.name@ + " ("@ + r.location@ + ")"@
}

pub fn selected_runner_status(r: &WineRunner) -> (s: String)
    ensures
        s@ == selected_runner_status_spec(*r),
{
    let mut t: Vec<char> = Vec::new();
    push_str(&mut t, "Selected Runner: ");
    push_str(&mut t, r.name.as_str());
    push_str(&mut t, " (");
    push_str(&mut t, r.location.as_str());
    push_str(&mut t, ")");
    string_from_chars(&t)
}

/// Status line when the runner shortcut finds no installed runner.
pub fn no_wine_runner_status() -> (s: String)
    ensures
        s@ == "[Warning] No installed Wine/Proton runners detected. Press [m] to download GE-Proton."@,
{
    String::from_str("[Warning] No installed Wine/Proton runners detected. Press [m] to download GE-Proton.")
}

/// The status line after a runner was picked for a game: its name and
/// where it was found.
pub fn picked_runner_status(name: &str, location: &str) -> (s: String)
    ensures
        s@ == "[OK] Selected runner '"@ + name@ + "' ("@ + location@ + ")!"@,
{
    let mut t: Vec<char> = Vec::new();
    push_str(&mut t, "[OK] Selected runner '");
    push_str(&mut t, name);
    push_str(&mut t, "' (");
    push_str(&mut t, location);
    push_str(&mut t, ")!");
    string_from_chars(&t)
}

/// The status line after an installed runner was removed from disk.
pub fn runner_removed_status(name: &str) -> (s: String)
    ensures
        s@ == "[OK] Removed runner '"@ + name@ + "' from disk."@,
{
    let mut t: Vec<char> = Vec::new();
    push_str(&mut t, "[OK] Removed runner '");
    push_str(&mut t, name);
    push_str(&mut t, "' from disk.");
    string_from_chars(&t)
}

} // verus!
