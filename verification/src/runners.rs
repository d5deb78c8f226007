//! Emulator runners of a platform, as the launcher's selectors see them:
//! which runner a folder or game resolves to, which runners are configured,
//! and how the "Emulador: ◀ ▶" selectors move between them.
use vstd::prelude::*;
use crate::text::{is_blank, is_blank_spec, opt_view, str_eq, copy_opt_string, copy_string, push_str, string_from_chars};
use crate::cycle::{cycle_index_spec, step_index};

verus! {

/// A runner (emulator or tool) registered for a platform, with what the
/// launcher's logic reads of it.
pub struct Runner {
    pub id: i64,
    pub name: String,
    pub runner_type: String,
    pub is_active: bool,
    pub executable_path: Option<String>,
    /// Whether the emulator catalog names a default core for this runner
    /// (a core-based emulator).
    pub has_default_core: bool,
}

/// What a runner is, as plain values.
pub struct RunnerView {
    pub id: i64,
    pub name: Seq<char>,
    pub runner_type: Seq<char>,
    pub is_active: bool,
    pub executable_path: Option<Seq<char>>,
    pub has_default_core: bool,
}

impl View for Runner {
    type V = RunnerView;

    open spec fn view(&self) -> RunnerView {
        RunnerView {
            id: self.id,
            name: self.name@,
            runner_type: self.runner_type@,
            is_active: self.is_active,
            executable_path: opt_view(self.executable_path),
            has_default_core: self.has_default_core,
        }
    }
}

/// The views of a list of runners.
pub open spec fn runner_views(rs: Seq<Runner>) -> Seq<RunnerView> {
    rs.map_values(|r: Runner| r@)
}

/// A copy of `r`.
pub fn copy_runner(r: &Runner) -> (c: Runner)
    ensures
        c@ == r@,
{
    Runner {
        id: r.id,
        name: copy_string(r.name.as_str()),
        runner_type: copy_string(r.runner_type.as_str()),
        is_active: r.is_active,
        executable_path: copy_opt_string(&r.executable_path),
        has_default_core: r.has_default_core,
    }
}

/// RetroArch, recognised by name or by runner type.
pub open spec fn is_retroarch(r: RunnerView) -> bool {
    r.name == "RetroArch"@ || r.runner_type == "retroarch"@
}

/// Whether `runner` is RetroArch.
pub fn is_retroarch_runner(runner: &Runner) -> (b: bool)
    ensures
        b == is_retroarch(runner@),
{
    str_eq(runner.name.as_str(), "RetroArch") || str_eq(runner.runner_type.as_str(), "retroarch")
}

/// A runner that runs a selectable core: RetroArch or a core-based emulator.
pub open spec fn runs_cores(r: RunnerView) -> bool {
    is_retroarch(r) || r.has_default_core
}

/// The runner a folder (or form) resolves to: the one with the assigned id
/// when one is assigned, else the platform's active runner. The first match
/// in list order wins.
pub open spec fn resolves_to(rs: Seq<RunnerView>, assigned: Option<i64>, i: int) -> bool {
    &&& 0 <= i < rs.len()
    &&& match assigned {
        Some(id) => rs[i].id == id && forall|j: int| 0 <= j < i ==> rs[j].id != id,
        None => rs[i].is_active && forall|j: int| 0 <= j < i ==> !rs[j].is_active,
    }
}

/// No runner matches the assignment.
pub open spec fn resolves_to_none(rs: Seq<RunnerView>, assigned: Option<i64>) -> bool {
    match assigned {
        Some(id) => forall|j: int| 0 <= j < rs.len() ==> rs[j].id != id,
        None => forall|j: int| 0 <= j < rs.len() ==> !rs[j].is_active,
    }
}

/// Index of the runner `assigned` resolves to (see [`resolves_to`]).
pub fn resolve_runner(runners: &[Runner], assigned: Option<i64>) -> (r: Option<usize>)
    ensures
        match r {
            Some(i) => resolves_to(runner_views(runners@), assigned, i as int),
            None => resolves_to_none(runner_views(runners@), assigned),
        },
{
    let ghost rv = runner_views(runners@);
    let mut i: usize = 0;
    while i < runners.len()
        invariant
            i <= runners.len(),
            rv == runner_views(runners@),
            match assigned {
                Some(id) => forall|j: int| 0 <= j < i ==> rv[j].id != id,
                None => forall|j: int| 0 <= j < i ==> !rv[j].is_active,
            },
        decreases runners.len() - i,
    {
        let hit = match assigned {
            Some(id) => runners[i].id == id,
            None => runners[i].is_active,
        };
        if hit {
            return Some(i);
        }
        i = i + 1;
    }
    None
}

/// Whether a folder (or add form) whose emulator is `assigned` shows a Core
/// row: its resolved runner is RetroArch or core-based.
pub open spec fn assigned_has_core(rs: Seq<RunnerView>, assigned: Option<i64>) -> bool {
    exists|i: int| resolves_to(rs, assigned, i) && runs_cores(rs[i])
}

proof fn lemma_resolution_unique(rs: Seq<RunnerView>, assigned: Option<i64>, i: int, k: int)
    requires
        resolves_to(rs, assigned, i),
        resolves_to(rs, assigned, k),
    ensures
        i == k,
{
}

/// Whether the emulator assigned to an add-scan form (or the platform's
/// active one when none is assigned) runs cores.
pub fn scan_folder_add_has_core(runners: &[Runner], add_emu_id: Option<i64>) -> (b: bool)
    ensures
        b == assigned_has_core(runner_views(runners@), add_emu_id),
{
    match resolve_runner(runners, add_emu_id) {
        Some(i) => {
            let b = is_retroarch_runner(&runners[i]) || runners[i].has_default_core;
            proof {
                if !b {
                    assert forall|k: int|
                        resolves_to(runner_views(runners@), add_emu_id, k) implies !runs_cores(
                        runner_views(runners@)[k],
                    ) by {
                        lemma_resolution_unique(runner_views(runners@), add_emu_id, i as int, k);
                    }
                }
            }
            b
        },
        None => false,
    }
}

/// Whether a folder row should display a Core sub-row: its assigned runner
/// (or the platform's active runner when none is assigned) runs cores.
pub fn folder_has_core(runners: &[Runner], assigned_emulator_id: Option<i64>) -> (b: bool)
    ensures
        b == assigned_has_core(runner_views(runners@), assigned_emulator_id),
{
    scan_folder_add_has_core(runners, assigned_emulator_id)
}

/// Whether the platform has a RetroArch runner configured (active or not).
pub fn scan_folder_platform_has_retroarch(runners: &[Runner]) -> (b: bool)
    ensures
        b == exists|i: int| 0 <= i < runners@.len() && is_retroarch(#[trigger] runners@[i]@),
{
    let mut i: usize = 0;
    while i < runners.len()
        invariant
            i <= runners.len(),
            forall|j: int| 0 <= j < i ==> !is_retroarch(#[trigger] runners@[j]@),
        decreases runners.len() - i,
    {
        if is_retroarch_runner(&runners[i]) {
            return true;
        }
        i = i + 1;
    }
    false
}

/// A runner whose executable path is set and not blank.
pub open spec fn is_configured(r: RunnerView) -> bool {
    match r.executable_path {
        Some(p) => !is_blank_spec(p),
        None => false,
    }
}

/// The configured runners of `rs`, in order.
pub open spec fn configured_spec(rs: Seq<RunnerView>) -> Seq<RunnerView>
    decreases rs.len(),
{
    if rs.len() == 0 {
        Seq::empty()
    } else if is_configured(rs.last()) {
        configured_spec(rs.drop_last()).push(rs.last())
    } else {
        configured_spec(rs.drop_last())
    }
}

/// Runners whose executable path is configured: the only emulators the
/// "Emulador: ◀ ▶" selector cycles through.
pub fn configured_runners(runners: &[Runner]) -> (r: Vec<Runner>)
    ensures
        runner_views(r@) == configured_spec(runner_views(runners@)),
{
    let mut out: Vec<Runner> = Vec::new();
    let mut i: usize = 0;
    assert(runner_views(runners@).take(0) =~= Seq::<RunnerView>::empty());
    while i < runners.len()
        invariant
            i <= runners.len(),
            runner_views(out@) == configured_spec(runner_views(runners@).take(i as int)),
        decreases runners.len() - i,
    {
        let ghost t = runner_views(runners@).take(i as int + 1);
        assert(t.drop_last() =~= runner_views(runners@).take(i as int));
        assert(t.last() == runners@[i as int]@);
        let ok = match &runners[i].executable_path {
            Some(p) => !is_blank(p.as_str()),
            None => false,
        };
        if ok {
            let ghost before = runner_views(out@);
            let c = copy_runner(&runners[i]);
            out.push(c);
            assert(runner_views(out@) =~= before.push(c@));
        }
        i = i + 1;
    }
    assert(runner_views(runners@).take(runners.len() as int) =~= runner_views(runners@));
    out
}

/// The label of the Emulador field in the add/scan forms.
pub open spec fn emulator_label_spec(
    emu_id: Option<i64>,
    rs: Seq<RunnerView>,
    has_folders: bool,
    platform_runner: Option<Seq<char>>,
) -> Seq<char> {
    match emu_id {
        Some(id) => if exists|i: int| resolves_to(rs, Some(id), i) {
            rs[choose|i: int| resolves_to(rs, Some(id), i)].name
        } else {
            "Default"@
        },
        None => if has_folders {
            "Default"@
        } else {
            match platform_runner {
                Some(n) => n,
                None => "Default"@,
            }
        },
    }
}

/// Label for the Emulador field in the add/scan forms.
///
/// "Default" (no override) only makes sense once the platform already has a
/// scan folder to inherit from. For the very first folder there is nothing to
/// inherit yet, so the effective platform emulator (`platform_runner`, the
/// name of the runner the platform resolves to) is shown instead.
pub fn add_scan_emulator_label(
    emu_id: Option<i64>,
    runners: &[Runner],
    has_folders: bool,
    platform_runner: Option<String>,
) -> (r: String)
    ensures
        r@ == emulator_label_spec(emu_id, runner_views(runners@), has_folders, opt_view(
            platform_runner,
        )),
{
    match emu_id {
        Some(id) => match resolve_runner(runners, Some(id)) {
            Some(i) => {
                proof {
                    let rs = runner_views(runners@);
                    let c = choose|k: int| resolves_to(rs, Some(id), k);
                    lemma_resolution_unique(rs, Some(id), i as int, c);
                }
                copy_string(runners[i].name.as_str())
            },
            None => String::from_str("Default"),
        },
        None => if has_folders {
            String::from_str("Default")
        } else {
            match platform_runner {
                Some(n) => n,
                None => String::from_str("Default"),
            }
        },
    }
}

/// Position of the runner with id `id` among `rs`, the first one.
pub open spec fn position_of_id(rs: Seq<RunnerView>, id: i64, i: int) -> bool {
    0 <= i < rs.len() && rs[i].id == id && forall|j: int| 0 <= j < i ==> rs[j].id != id
}

/// Position of the runner with id `id`, if any.
pub fn find_runner_position(runners: &[Runner], id: i64) -> (r: Option<usize>)
    ensures
        match r {
            Some(i) => position_of_id(runner_views(runners@), id, i as int),
            None => forall|j: int| 0 <= j < runners@.len() ==> runners@[j].id != id,
        },
{
    let mut i: usize = 0;
    while i < runners.len()
        invariant
            i <= runners.len(),
            forall|j: int| 0 <= j < i ==> runners@[j].id != id,
        decreases runners.len() - i,
    {
        if runners[i].id == id {
            return Some(i);
        }
        i = i + 1;
    }
    None
}

/// The position the add-folder emulator selector moves to from `current`
/// among `len` configured emulators; `None` stands for "Default", offered
/// only when `allow_default`. Without a current position the selector starts
/// at the first (forward) or last (backward) emulator.
pub open spec fn next_add_emulator_pos(
    current: Option<int>,
    len: int,
    allow_default: bool,
    backward: bool,
) -> Option<int> {
    match current {
        Some(idx) => if !backward {
            if idx + 1 < len {
                Some(idx + 1)
            } else if allow_default {
                None
            } else {
                Some(0)
            }
        } else if idx > 0 {
            Some(idx - 1)
        } else if allow_default {
            None
        } else {
            Some(len - 1)
        },
        None => if backward {
            Some(len - 1)
        } else {
            Some(0)
        },
    }
}

/// The emulator id the add-folder form selects next: `None` when no runner is
/// configured (nothing changes), otherwise `Some(next)` where `next` is the
/// chosen emulator id or `None` for "Default".
pub open spec fn next_add_emulator_spec(
    configured: Seq<RunnerView>,
    current_emu: Option<i64>,
    allow_default: bool,
    backward: bool,
) -> Option<Option<i64>> {
    if configured.len() == 0 {
        None
    } else {
        let cur = match current_emu {
            Some(id) => if exists|i: int| position_of_id(configured, id, i) {
                Some(choose|i: int| position_of_id(configured, id, i))
            } else {
                None
            },
            None => None,
        };
        match next_add_emulator_pos(cur, configured.len() as int, allow_default, backward) {
            Some(p) => Some(Some(configured[p].id)),
            None => Some(None),
        }
    }
}

/// Cycle the emulator of the simplified add-folder form among the configured
/// emulators. "Default" (no override) is only offered once the platform
/// already has a scan folder to inherit from (`allow_default`); for the very
/// first folder the selector wraps around the real emulators.
pub fn next_add_folder_emulator(
    configured: &[Runner],
    current_emu: Option<i64>,
    allow_default: bool,
    backward: bool,
) -> (r: Option<Option<i64>>)
    ensures
        r == next_add_emulator_spec(runner_views(configured@), current_emu, allow_default, backward),
{
    if configured.len() == 0 {
        return None;
    }
    let ghost rs = runner_views(configured@);
    let current: Option<usize> = match current_emu {
        Some(id) => find_runner_position(configured, id),
        None => None,
    };
    proof {
        match current_emu {
            Some(id) => {
                match current {
                    Some(i) => {
                        let c = choose|k: int| position_of_id(rs, id, k);
                        assert(position_of_id(rs, id, i as int));
                        assert(c == i) by {
                            if c < i {
                                assert(rs[c].id != id);
                            } else if c > i {
                                assert(rs[i as int].id != id);
                            }
                        }
                    },
                    None => {
                        assert(!exists|k: int| position_of_id(rs, id, k));
                    },
                }
            },
            None => {},
        }
    }
    let len = configured.len();
    let next_idx: Option<usize> = match current {
        Some(idx) => if !backward {
            if idx + 1 < len {
                Some(idx + 1)
            } else if allow_default {
                None
            } else {
                Some(0)
            }
        } else if idx > 0 {
            Some(idx - 1)
        } else if allow_default {
            None
        } else {
            Some(len - 1)
        },
        None => if backward {
            Some(len - 1)
        } else {
            Some(0)
        },
    };
    match next_idx {
        Some(i) => Some(Some(configured[i].id)),
        None => Some(None),
    }
}

/// The key of a `(key, label)` core entry.
pub open spec fn core_keys(cores: Seq<(String, String)>) -> Seq<Seq<char>> {
    cores.map_values(|c: (String, String)| c.0@)
}

/// First position of `key` among `keys`.
pub open spec fn first_key_pos(keys: Seq<Seq<char>>, key: Seq<char>, i: int) -> bool {
    0 <= i < keys.len() && keys[i] == key && forall|j: int| 0 <= j < i ==> keys[j] != key
}

/// Position of `key` among the core keys, if present.
pub fn find_core_position(cores: &[(String, String)], key: &str) -> (r: Option<usize>)
    ensures
        match r {
            Some(i) => first_key_pos(core_keys(cores@), key@, i as int),
            None => forall|j: int| 0 <= j < cores@.len() ==> core_keys(cores@)[j] != key@,
        },
{
    let mut i: usize = 0;
    while i < cores.len()
        invariant
            i <= cores.len(),
            forall|j: int| 0 <= j < i ==> core_keys(cores@)[j] != key@,
        decreases cores.len() - i,
    {
        if str_eq(cores[i].0.as_str(), key) {
            return Some(i);
        }
        i = i + 1;
    }
    None
}

/// The core kept after the add-folder emulator changed: when the new
/// emulator runs cores, the current core if it is still available, else the
/// first available core (or none); otherwise no core.
pub open spec fn refreshed_core_spec(
    has_core: bool,
    current: Option<Seq<char>>,
    keys: Seq<Seq<char>>,
) -> Option<Seq<char>> {
    if has_core {
        match current {
            Some(k) => if keys.contains(k) {
                Some(k)
            } else if keys.len() > 0 {
                Some(keys[0])
            } else {
                None
            },
            None => if keys.len() > 0 {
                Some(keys[0])
            } else {
                None
            },
        }
    } else {
        None
    }
}

/// Seed/refresh the core of the add-folder form from the cores actually
/// available for the newly selected emulator.
pub fn refresh_add_core(has_core: bool, current_core: Option<String>, available: &[(
    String,
    String,
)]) -> (r: Option<String>)
    ensures
        opt_view(r) == refreshed_core_spec(has_core, opt_view(current_core), core_keys(available@)),
{
    if !has_core {
        return None;
    }
    let still_valid = match &current_core {
        Some(k) => find_core_position(available, k.as_str()).is_some(),
        None => false,
    };
    proof {
        if let Some(ref k) = current_core {
            if still_valid {
                let i = choose|i: int| first_key_pos(core_keys(available@), k@, i);
                assert(core_keys(available@)[i] == k@);
            } else {
                assert(!core_keys(available@).contains(k@));
            }
        }
    }
    if still_valid {
        current_core
    } else if available.len() > 0 {
        Some(copy_string(available[0].0.as_str()))
    } else {
        None
    }
}

/// The core the add-folder core selector moves to: `None` when no core is
/// available (nothing changes), else the key after (or before) the current
/// one, wrapping; an unknown or missing current core counts as the first.
pub open spec fn next_add_core_spec(
    keys: Seq<Seq<char>>,
    current: Option<Seq<char>>,
    backward: bool,
) -> Option<Seq<char>> {
    if keys.len() == 0 {
        None
    } else {
        let pos = match current {
            Some(k) => match keys.index_of_first(k) {
                Some(i) => i,
                None => 0,
            },
            None => 0,
        };
        let next = if backward {
            if pos == 0 {
                keys.len() - 1
            } else {
                pos - 1
            }
        } else {
            (pos + 1) % (keys.len() as int)
        };
        Some(keys[next])
    }
}

proof fn lemma_first_key_unique(keys: Seq<Seq<char>>, k: Seq<char>, i: int, j: int)
    requires
        first_key_pos(keys, k, i),
        first_key_pos(keys, k, j),
    ensures
        i == j,
{
}

/// Cycle the core of the add-folder form through the available cores.
pub fn next_add_folder_core(available: &[(String, String)], current_core: &Option<String>, backward: bool) -> (r: Option<String>)
    ensures
        opt_view(r) == next_add_core_spec(core_keys(available@), opt_view(*current_core), backward),
{
    if available.len() == 0 {
        return None;
    }
    let ghost keys = core_keys(available@);
    let found: Option<usize> = match current_core {
        Some(k) => find_core_position(available, k.as_str()),
        None => None,
    };
    let pos: usize = match found {
        Some(p) => p,
        None => 0,
    };
    proof {
        match current_core {
            Some(k) => {
                keys.index_of_first_ensures(k@);
                match found {
                    Some(p) => {
                        assert(first_key_pos(keys, k@, p as int));
                        assert(keys.contains(k@));
                        let q = keys.index_of_first(k@)->0;
                        assert(first_key_pos(keys, k@, q));
                        lemma_first_key_unique(keys, k@, p as int, q);
                    },
                    None => {
                        assert(!keys.contains(k@));
                    },
                }
            },
            None => {},
        }
    }
    let len = available.len();
    let next = if backward {
        if pos == 0 {
            len - 1
        } else {
            pos - 1
        }
    } else {
        (pos + 1) % len
    };
    assert(keys[next as int] == available@[next as int].0@);
    Some(copy_string(available[next].0.as_str()))
}

/// The core a folder row's core selector moves to: "Default" (inherit) ->
/// core 1..n -> "Default". `None` when no core is available (nothing
/// changes), otherwise `Some(next)` where `next` is the next core key or
/// `None` for "Default".
pub open spec fn next_folder_core_spec(
    keys: Seq<Seq<char>>,
    current: Option<Seq<char>>,
    backward: bool,
) -> Option<Option<Seq<char>>> {
    if keys.len() == 0 {
        None
    } else {
        let cur = match current {
            Some(k) => keys.index_of_first(k),
            None => None,
        };
        match next_add_emulator_pos(cur, keys.len() as int, true, backward) {
            Some(p) => Some(Some(keys[p])),
            None => Some(None),
        }
    }
}

/// Cycle the core assigned to a scan folder among the `available` cores.
pub fn next_folder_core(
    available: &[(String, String)],
    current_core: &Option<String>,
    backward: bool,
) -> (r: Option<Option<String>>)
    ensures
        r is None <==> available@.len() == 0,
        r matches Some(o) ==> next_folder_core_spec(
            core_keys(available@),
            opt_view(*current_core),
            backward,
        ) == Some(opt_view(o)),
{
    if available.len() == 0 {
        return None;
    }
    let ghost keys = core_keys(available@);
    let found: Option<usize> = match current_core {
        Some(k) => find_core_position(available, k.as_str()),
        None => None,
    };
    proof {
        match current_core {
            Some(k) => {
                keys.index_of_first_ensures(k@);
                match found {
                    Some(p) => {
                        assert(first_key_pos(keys, k@, p as int));
                        assert(keys.contains(k@));
                        let q = keys.index_of_first(k@)->0;
                        assert(first_key_pos(keys, k@, q));
                        lemma_first_key_unique(keys, k@, p as int, q);
                    },
                    None => {
                        assert(!keys.contains(k@));
                    },
                }
            },
            None => {},
        }
    }
    let len = available.len();
    let next: Option<usize> = match found {
        Some(idx) => if !backward {
            if idx + 1 < len {
                Some(idx + 1)
            } else {
                None
            }
        } else if idx > 0 {
            Some(idx - 1)
        } else {
            None
        },
        None => if backward {
            Some(len - 1)
        } else {
            Some(0)
        },
    };
    match next {
        Some(i) => {
            assert(keys[i as int] == available@[i as int].0@);
            Some(Some(copy_string(available[i].0.as_str())))
        },
        None => Some(None),
    }
}

/// With "Default" offered, stepping a folder selector one way and then the
/// other comes back to where it started, "Default" included.
pub proof fn lemma_folder_selector_round_trip(cur: Option<int>, len: int, backward: bool)
    requires
        len > 0,
        cur matches Some(i) ==> 0 <= i < len,
    ensures
        next_add_emulator_pos(next_add_emulator_pos(cur, len, true, backward), len, true, !backward)
            == cur,
{
}

/// The status line of an active-emulator selector step on platform
/// `platform_name` whose configured emulators are named `names`; `None`
/// when the selection does not move.
pub fn active_step_status(step: ActiveEmulatorStep, platform_name: &str, names: &[String]) -> (r: Option<String>)
    requires
        step is OnlyOne ==> names@.len() >= 1,
        step matches ActiveEmulatorStep::SwitchTo(i) ==> i < names@.len(),
    ensures
        step is NoneConfigured ==> (r matches Some(m) && m@ == "No emulator configured for "@
            + platform_name@ + ". Press [m] to configure one."@),
        step is OnlyOne ==> (r matches Some(m) && m@ == platform_name@
            + " has only one configured emulator: "@ + names@[0]@ + "."@),
        step is Unchanged ==> r is None,
        step matches ActiveEmulatorStep::SwitchTo(i) ==> (r matches Some(m) && m@
            == "Active emulator for "@ + platform_name@ + ": "@ + names@[i as int]@),
{
    let mut t: Vec<char> = Vec::new();
    match step {
        ActiveEmulatorStep::NoneConfigured => {
            push_str(&mut t, "No emulator configured for ");
            push_str(&mut t, platform_name);
            push_str(&mut t, ". Press [m] to configure one.");
        },
        ActiveEmulatorStep::OnlyOne => {
            push_str(&mut t, platform_name);
            push_str(&mut t, " has only one configured emulator: ");
            push_str(&mut t, names[0].as_str());
            push_str(&mut t, ".");
        },
        ActiveEmulatorStep::Unchanged => {
            return None;
        },
        ActiveEmulatorStep::SwitchTo(i) => {
            push_str(&mut t, "Active emulator for ");
            push_str(&mut t, platform_name);
            push_str(&mut t, ": ");
            push_str(&mut t, names[i].as_str());
        },
    }
    Some(string_from_chars(&t))
}

/// The status line when the active emulator could not be changed.
pub fn active_emulator_error_status(err: &str) -> (s: String)
    ensures
        s@ == "Error changing active emulator: "@ + err@,
{
    let mut t: Vec<char> = Vec::new();
    push_str(&mut t, "Error changing active emulator: ");
    push_str(&mut t, err);
    string_from_chars(&t)
}

/// The status line after the core of emulator `runner_name` was cycled to
/// the core labelled `label`.
pub fn active_core_status(runner_name: &str, label: &str) -> (s: String)
    ensures
        s@ == "Core for "@ + runner_name@ + ": "@ + label@,
{
    let mut t: Vec<char> = Vec::new();
    push_str(&mut t, "Core for ");
    push_str(&mut t, runner_name);
    push_str(&mut t, ": ");
    push_str(&mut t, label);
    string_from_chars(&t)
}

/// The first RetroArch runner of the list.
pub open spec fn first_retroarch(rs: Seq<RunnerView>, i: int) -> bool {
    0 <= i < rs.len() && is_retroarch(rs[i]) && forall|j: int| 0 <= j < i ==> !is_retroarch(rs[j])
}

/// The runner whose cores the core download modal offers: the form's
/// emulator when one is chosen; otherwise the active runner when it is
/// RetroArch, else the first RetroArch runner (a platform may run another
/// emulator while RetroArch is configured beside it).
pub open spec fn core_download_runner_ok(rs: Seq<RunnerView>, emu_id: Option<i64>, r: Option<usize>) -> bool {
    match emu_id {
        Some(id) => match r {
            Some(i) => resolves_to(rs, Some(id), i as int),
            None => resolves_to_none(rs, Some(id)),
        },
        None => {
            let active_ra = exists|a: int| resolves_to(rs, None, a) && is_retroarch(rs[a]);
            match r {
                Some(i) => if active_ra {
                    resolves_to(rs, None, i as int)
                } else {
                    first_retroarch(rs, i as int)
                },
                None => !active_ra && forall|j: int| 0 <= j < rs.len() ==> !is_retroarch(rs[j]),
            }
        },
    }
}

/// Pick the runner the core download modal works with.
pub fn core_download_runner(runners: &[Runner], emu_id: Option<i64>) -> (r: Option<usize>)
    ensures
        core_download_runner_ok(runner_views(runners@), emu_id, r),
{
    let ghost rs = runner_views(runners@);
    if emu_id.is_some() {
        return resolve_runner(runners, emu_id);
    }
    let active = resolve_runner(runners, None);
    match active {
        Some(a) => {
            if is_retroarch_runner(&runners[a]) {
                proof {
                    assert(resolves_to(rs, None, a as int) && is_retroarch(rs[a as int]));
                }
                return Some(a);
            }
        },
        None => {},
    }
    proof {
        assert(!(exists|a: int| resolves_to(rs, None, a) && is_retroarch(rs[a]))) by {
            if exists|a: int| resolves_to(rs, None, a) && is_retroarch(rs[a]) {
                let a = choose|a: int| resolves_to(rs, None, a) && is_retroarch(rs[a]);
                match active {
                    Some(b) => {
                        assert(a == b as int) by {
                            if a < b as int {
                                assert(!rs[a].is_active);
                            } else if a > b as int {
                                assert(!rs[b as int].is_active);
                            }
                        }
                        assert(is_retroarch(runners@[b as int]@));
                    },
                    None => {
                        assert(!rs[a].is_active);
                    },
                }
            }
        }
    }
    let mut i: usize = 0;
    while i < runners.len()
        invariant
            i <= runners.len(),
            rs == runner_views(runners@),
            emu_id is None,
            !(exists|a: int| resolves_to(rs, None, a) && is_retroarch(rs[a])),
            forall|j: int| 0 <= j < i ==> !is_retroarch(rs[j]),
        decreases runners.len() - i,
    {
        if is_retroarch_runner(&runners[i]) {
            return Some(i);
        }
        i = i + 1;
    }
    None
}

/// A core as `(key, name)`, as text.
pub open spec fn core_views(v: Seq<(String, String)>) -> Seq<(Seq<char>, Seq<char>)> {
    v.map_values(|c: (String, String)| (c.0@, c.1@))
}

/// The catalogue cores whose flag in `installed` is set, in catalogue order.
pub open spec fn installed_cores_spec(catalog: Seq<(Seq<char>, Seq<char>)>, installed: Seq<bool>) -> Seq<(Seq<char>, Seq<char>)>
    decreases catalog.len(),
{
    if catalog.len() == 0 {
        Seq::empty()
    } else {
        let rest = installed_cores_spec(catalog.drop_last(), installed);
        if installed[catalog.len() - 1] {
            rest.push(catalog.last())
        } else {
            rest
        }
    }
}

/// The cores offered for RetroArch (`CoreSource::RetroArch`): the catalogue cores (`(key, name)`) whose
/// core file is installed (`installed[i]` for the core at `i`), in
/// catalogue order.
pub fn installed_cores(catalog: &[(String, String)], installed: &[bool]) -> (r: Vec<(String, String)>)
    requires
        installed@.len() == catalog@.len(),
    ensures
        core_views(r@) == installed_cores_spec(core_views(catalog@), installed@),
{
    let mut r: Vec<(String, String)> = Vec::new();
    let mut i: usize = 0;
    while i < catalog.len()
        invariant
            i <= catalog.len(),
            installed@.len() == catalog@.len(),
            core_views(r@) == installed_cores_spec(core_views(catalog@.take(i as int)), installed@),
        decreases catalog.len() - i,
    {
        let ghost before = r@;
        assert(core_views(catalog@.take(i as int + 1)).drop_last() =~= core_views(catalog@.take(i as int)));
        if installed[i] {
            let c = (copy_string(catalog[i].0.as_str()), copy_string(catalog[i].1.as_str()));
            r.push(c);
            assert(core_views(r@) =~= core_views(before).push((catalog@[i as int].0@, catalog@[i as int].1@)));
        }
        i = i + 1;
    }
    assert(catalog@.take(catalog@.len() as int) =~= catalog@);
    r
}

/// The progress label and the status line of a core download.
pub fn core_download_labels(core_name: &str) -> (r: (String, String))
    ensures
        r.0@ == "Core: "@ + core_name@,
        r.1@ == "Downloading core "@ + core_name@ + "..."@,
{
    let mut a: Vec<char> = Vec::new();
    push_str(&mut a, "Core: ");
    push_str(&mut a, core_name);
    let mut b: Vec<char> = Vec::new();
    push_str(&mut b, "Downloading core ");
    push_str(&mut b, core_name);
    push_str(&mut b, "...");
    (string_from_chars(&a), string_from_chars(&b))
}

/// With a folder to inherit from, ◀ undoes ▶ (and ▶ undoes ◀) on the
/// emulator selector of the folder forms, from "Default" or from any
/// configured emulator, when no two configured emulators share an id.
#[verifier::spinoff_prover]
pub proof fn lemma_folder_emulator_round_trip(
    configured: Seq<RunnerView>,
    current_emu: Option<i64>,
    backward: bool,
)
    requires
        configured.len() > 0,
        forall|i: int, j: int|
            0 <= i < j < configured.len() ==> configured[i].id != configured[j].id,
        current_emu matches Some(id) ==> exists|i: int| 0 <= i < configured.len() && configured[i].id == id,
    ensures
        next_add_emulator_spec(configured, current_emu, true, backward) matches Some(next)
            && next_add_emulator_spec(configured, next, true, !backward) == Some(current_emu),
{
    let len = configured.len() as int;
    let cur = match current_emu {
        Some(id) => {
            let w = choose|i: int| 0 <= i < configured.len() && configured[i].id == id;
            assert(position_of_id(configured, id, w));
            Some(choose|i: int| position_of_id(configured, id, i))
        },
        None => None,
    };
    lemma_folder_selector_round_trip(cur, len, backward);
    let p = next_add_emulator_pos(cur, len, true, backward);
    match p {
        Some(q) => {
            let id = configured[q].id;
            assert(position_of_id(configured, id, q));
            let c = choose|i: int| position_of_id(configured, id, i);
            assert(c == q) by {
                if c < q {
                    assert(configured[c].id != id);
                } else if c > q {
                    assert(configured[q].id != id);
                }
            }
        },
        None => {},
    }
}

/// On a core list without repeated keys, ◀ undoes ▶ (and ▶ undoes ◀) on a
/// folder's core selector, from "Default" or from any listed core.
#[verifier::spinoff_prover]
pub proof fn lemma_folder_core_round_trip(keys: Seq<Seq<char>>, current: Option<Seq<char>>, backward: bool)
    requires
        keys.len() > 0,
        keys.no_duplicates(),
        current matches Some(k) ==> keys.contains(k),
    ensures
        next_folder_core_spec(keys, current, backward) matches Some(next)
            && next_folder_core_spec(keys, next, !backward) == Some(current),
{
    let cur = match current {
        Some(k) => keys.index_of_first(k),
        None => None,
    };
    match current {
        Some(k) => {
            keys.index_of_first_ensures(k);
        },
        None => {},
    }
    lemma_folder_selector_round_trip(cur, keys.len() as int, backward);
    let p = next_add_emulator_pos(cur, keys.len() as int, true, backward);
    match p {
        Some(q) => {
            keys.index_of_first_ensures(keys[q]);
            let f = keys.index_of_first(keys[q])->0;
            assert(f == q) by {
                if f != q {
                    assert(keys[f] == keys[q]);
                }
            }
        },
        None => {},
    }
    match current {
        Some(k) => {
            let i = cur->0;
            assert(keys[i] == k);
        },
        None => {},
    }
}

/// The status line after a scan folder's emulator was reassigned to `label`.
pub fn folder_assignment_status(folder_path: &str, label: &str) -> (s: String)
    ensures
        s@ == "Carpeta "@ + folder_path@ + " \u{2192} "@ + label@,
{
    let mut t: Vec<char> = Vec::new();
    push_str(&mut t, "Carpeta ");
    push_str(&mut t, folder_path);
    push_str(&mut t, " \u{2192} ");
    push_str(&mut t, label);
    string_from_chars(&t)
}

/// The status line when a folder's emulator is cycled on a platform with
/// no configured emulator.
pub fn no_folder_emulator_status(platform_name: &str) -> (s: String)
    ensures
        s@ == "No hay emulador configurado para "@ + platform_name@
            + ". Presiona [m] para configurar uno."@,
{
    let mut t: Vec<char> = Vec::new();
    push_str(&mut t, "No hay emulador configurado para ");
    push_str(&mut t, platform_name);
    push_str(&mut t, ". Presiona [m] para configurar uno.");
    string_from_chars(&t)
}

/// What the active-emulator selector of a platform does.
#[derive(Debug, Clone, Copy, PartialEq, Eq, Structural)]
pub enum ActiveEmulatorStep {
    /// No emulator is configured for the platform.
    NoneConfigured,
    /// Exactly one emulator is configured; nothing to switch to.
    OnlyOne,
    /// The selector lands on the emulator that is already active.
    Unchanged,
    /// Make the configured emulator at this position the active one.
    SwitchTo(usize),
}

/// The step of the active-emulator selector: `current` is the position of
/// the active emulator among the `len` configured ones, if it is one of them.
pub open spec fn active_emulator_step_spec(current: Option<usize>, len: usize, backward: bool) -> ActiveEmulatorStep {
    if len == 0 {
        ActiveEmulatorStep::NoneConfigured
    } else if len == 1 {
        ActiveEmulatorStep::OnlyOne
    } else {
        let next = cycle_index_spec(current, len, backward);
        if current == Some(next as usize) {
            ActiveEmulatorStep::Unchanged
        } else {
            ActiveEmulatorStep::SwitchTo(next as usize)
        }
    }
}

/// Decide what cycling the active emulator of a platform does.
pub fn active_emulator_step(current: Option<usize>, len: usize, backward: bool) -> (r: ActiveEmulatorStep)
    requires
        current matches Some(i) ==> i < len,
    ensures
        r == active_emulator_step_spec(current, len, backward),
        r matches ActiveEmulatorStep::SwitchTo(n) ==> n < len && current != Some(n),
{
    if len == 0 {
        return ActiveEmulatorStep::NoneConfigured;
    }
    if len == 1 {
        return ActiveEmulatorStep::OnlyOne;
    }
    let next = match current {
        Some(c) => step_index(c, len, backward),
        None => 0,
    };
    match current {
        Some(c) => if c == next {
            ActiveEmulatorStep::Unchanged
        } else {
            ActiveEmulatorStep::SwitchTo(next)
        },
        None => ActiveEmulatorStep::SwitchTo(next),
    }
}

/// The runner an invalid active emulator is replaced by: the first configured
/// runner other than the active one whose executable is usable.
pub open spec fn replacement_spec(configured: Seq<RunnerView>, active_id: i64, usable: Seq<bool>, i: int) -> bool {
    &&& 0 <= i < configured.len()
    &&& configured[i].id != active_id && usable[i]
    &&& forall|j: int| 0 <= j < i ==> !(configured[j].id != active_id && usable[j])
}

/// Auto-switch: when the active emulator's executable is gone (`active_ok`
/// false), pick the first other configured runner whose executable is usable
/// (`usable[i]` for `configured[i]`). `None` leaves the platform untouched.
pub fn revalidation_target(
    active_ok: bool,
    active_id: i64,
    configured: &[Runner],
    usable: &[bool],
) -> (r: Option<usize>)
    requires
        usable.len() == configured.len(),
    ensures
        active_ok ==> r is None,
        !active_ok ==> match r {
            Some(i) => replacement_spec(runner_views(configured@), active_id, usable@, i as int),
            None => forall|j: int|
                0 <= j < configured@.len() ==> !(configured@[j].id != active_id && usable@[j]),
        },
{
    if active_ok {
        return None;
    }
    let mut i: usize = 0;
    while i < configured.len()
        invariant
            i <= configured.len(),
            !active_ok,
            usable.len() == configured.len(),
            forall|j: int| 0 <= j < i ==> !(configured@[j].id != active_id && usable@[j]),
        decreases configured.len() - i,
    {
        if configured[i].id != active_id && usable[i] {
            return Some(i);
        }
        i = i + 1;
    }
    None
}

/// Where the cores of an add-scan form come from.
#[derive(Debug, Clone, Copy, PartialEq, Eq, Structural)]
pub enum CoreSource {
    /// No runner resolves, or it runs no cores: no cores.
    NoCores,
    /// RetroArch (at this runner position): the cores downloaded on disk.
    RetroArch(usize),
    /// A core-based emulator (at this runner position): its catalog cores.
    Catalog(usize),
}

/// Which list of cores an add-scan form offers for emulator `emu_id` (the
/// first runner with that id, else the platform's active runner).
pub fn add_scan_core_source(runners: &[Runner], emu_id: Option<i64>) -> (r: CoreSource)
    ensures
        match r {
            CoreSource::RetroArch(i) => 0 <= i < runners@.len() && is_retroarch(runners@[i as int]@),
            CoreSource::Catalog(i) => 0 <= i < runners@.len() && !is_retroarch(runners@[i as int]@)
                && runners@[i as int].has_default_core,
            CoreSource::NoCores => true,
        },
        match r {
            CoreSource::RetroArch(i) => add_core_runner(runner_views(runners@), emu_id, i as int),
            CoreSource::Catalog(i) => add_core_runner(runner_views(runners@), emu_id, i as int),
            CoreSource::NoCores => forall|i: int|
                add_core_runner(runner_views(runners@), emu_id, i) ==> !runs_cores(
                    runner_views(runners@)[i],
                ),
        },
{
    let idx = match emu_id {
        Some(id) => match find_runner_position(runners, id) {
            Some(p) => Some(p),
            None => resolve_runner(runners, None),
        },
        None => resolve_runner(runners, None),
    };
    match idx {
        Some(i) => {
            proof {
                lemma_add_core_runner_unique(runner_views(runners@), emu_id);
            }
            if is_retroarch_runner(&runners[i]) {
                CoreSource::RetroArch(i)
            } else if runners[i].has_default_core {
                CoreSource::Catalog(i)
            } else {
                CoreSource::NoCores
            }
        },
        None => CoreSource::NoCores,
    }
}

/// The runner an add-scan form uses for its cores: the first runner with id
/// `emu_id`, or, when there is none (or no id), the first active runner.
pub open spec fn add_core_runner(rs: Seq<RunnerView>, emu_id: Option<i64>, i: int) -> bool {
    match emu_id {
        Some(id) => if exists|k: int| position_of_id(rs, id, k) {
            position_of_id(rs, id, i)
        } else {
            resolves_to(rs, None, i)
        },
        None => resolves_to(rs, None, i),
    }
}

proof fn lemma_add_core_runner_unique(rs: Seq<RunnerView>, emu_id: Option<i64>)
    ensures
        forall|i: int, k: int| add_core_runner(rs, emu_id, i) && add_core_runner(rs, emu_id, k) ==> i == k,
{
    assert forall|i: int, k: int| add_core_runner(rs, emu_id, i) && add_core_runner(rs, emu_id, k) implies i == k by {
        if i < k {
            assert(add_core_runner(rs, emu_id, k));
        }
    }
}

} // verus!
