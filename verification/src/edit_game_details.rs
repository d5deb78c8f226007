//! Emulator and core override selectors of the "Edit Game Details" form.
use vstd::prelude::*;
use crate::runners::{Runner, RunnerView, runner_views};
use crate::text::{copy_string, opt_view, push_str, str_eq, string_from_chars};

verus! {

/// One choice of the Emulator selector.
#[derive(Debug, Clone, PartialEq, Eq)]
pub struct EmulatorOverrideChoice {
    /// `None` for "Default" (inherited), `Some(id)` for a specific configured runner.
    pub runner_id: Option<i64>,
    pub display_label: String,
}

/// One choice of the Core selector.
#[derive(Debug, Clone, PartialEq, Eq)]
pub struct CoreOverrideChoice {
    /// `None` for "Default" (inherited), `Some(key)` for a specific core key.
    pub core_key: Option<String>,
    pub display_label: String,
}

pub open spec fn emu_choice_view(c: EmulatorOverrideChoice) -> (Option<i64>, Seq<char>) {
    (c.runner_id, c.display_label@)
}

pub open spec fn core_choice_view(c: CoreOverrideChoice) -> (Option<Seq<char>>, Seq<char>) {
    (opt_view(c.core_key), c.display_label@)
}

/// The choices offered for the runners of a platform after "Default": every
/// runner with an executable path, in order, labelled with its name.
pub open spec fn configured_choices(rs: Seq<RunnerView>) -> Seq<(Option<i64>, Seq<char>)>
    decreases rs.len(),
{
    if rs.len() == 0 {
        Seq::empty()
    } else if rs.last().executable_path is Some {
        configured_choices(rs.drop_last()).push((Some(rs.last().id), rs.last().name))
    } else {
        configured_choices(rs.drop_last())
    }
}

/// Position of the choice for `ovr`: 0 for no override; for `Some(id)` the
/// first choice whose runner is `id`, or 0 when none is.
pub open spec fn choice_position(ids: Seq<Option<i64>>, ovr: Option<i64>, i: int) -> bool {
    match ovr {
        None => i == 0,
        Some(id) => if ids.contains(Some(id)) {
            0 <= i < ids.len() && ids[i] == Some(id) && forall|j: int|
                0 <= j < i ==> ids[j] != Some(id)
        } else {
            i == 0
        },
    }
}

/// The runner ids of a choice list.
pub open spec fn choice_ids(cs: Seq<EmulatorOverrideChoice>) -> Seq<Option<i64>> {
    cs.map_values(|c: EmulatorOverrideChoice| c.runner_id)
}

/// Index reached from `i` by one step in a list of `len > 0` items.
pub open spec fn step_spec(i: int, len: int, prev: bool) -> int {
    if prev {
        if i == 0 {
            len - 1
        } else {
            i - 1
        }
    } else {
        (i + 1) % len
    }
}

/// The key a core choice list holds at each position.
pub open spec fn choice_keys(cs: Seq<CoreOverrideChoice>) -> Seq<Option<Seq<char>>> {
    cs.map_values(|c: CoreOverrideChoice| opt_view(c.core_key))
}

/// Position of the choice for core `current`: 0 for none; else the first
/// choice with that key, or 0 when none has it.
pub open spec fn core_position(keys: Seq<Option<Seq<char>>>, current: Option<Seq<char>>, i: int) -> bool {
    match current {
        None => i == 0,
        Some(k) => if keys.contains(Some(k)) {
            0 <= i < keys.len() && keys[i] == Some(k) && forall|j: int|
                0 <= j < i ==> keys[j] != Some(k)
        } else {
            i == 0
        },
    }
}

/// Helper for the Emulator and Core override selectors of Edit Game Details.
pub struct EditGameFormHelper;

impl EditGameFormHelper {
    /// Build the list of choices for the Emulator selector in Edit Game
    /// Details from the runners of the game's platform.
    /// Choice 0: "Default" (no override: resolves through folder → platform).
    /// Choices 1..N: configured emulators compatible with the game's platform.
    pub fn get_emulator_choices(runners: &[Runner]) -> (r: Vec<EmulatorOverrideChoice>)
        ensures
            r@.len() >= 1,
            emu_choice_view(r@[0]) == (None::<i64>, "Default"@),
            r@.drop_first().map_values(|c: EmulatorOverrideChoice| emu_choice_view(c))
                == configured_choices(runner_views(runners@)),
    {
        let mut choices: Vec<EmulatorOverrideChoice> = Vec::new();
        choices.push(
            EmulatorOverrideChoice { runner_id: None, display_label: String::from_str("Default") },
        );
        let mut i: usize = 0;
        assert(runner_views(runners@).take(0) =~= Seq::<RunnerView>::empty());
        assert(choices@.drop_first().map_values(|c: EmulatorOverrideChoice| emu_choice_view(c))
            =~= Seq::<(Option<i64>, Seq<char>)>::empty());
        while i < runners.len()
            invariant
                i <= runners.len(),
                choices@.len() >= 1,
                emu_choice_view(choices@[0]) == (None::<i64>, "Default"@),
                choices@.drop_first().map_values(|c: EmulatorOverrideChoice| emu_choice_view(c))
                    == configured_choices(runner_views(runners@).take(i as int)),
            decreases runners.len() - i,
        {
            let ghost t = runner_views(runners@).take(i as int + 1);
            assert(t.drop_last() =~= runner_views(runners@).take(i as int));
            assert(t.last() == runners@[i as int]@);
            if runners[i].executable_path.is_some() {
                let ghost before = choices@.drop_first().map_values(
                    |c: EmulatorOverrideChoice| emu_choice_view(c),
                );
                let c = EmulatorOverrideChoice {
                    runner_id: Some(runners[i].id),
                    display_label: copy_string(runners[i].name.as_str()),
                };
                choices.push(c);
                assert(choices@.drop_first().map_values(
                    |c: EmulatorOverrideChoice| emu_choice_view(c),
                ) =~= before.push(emu_choice_view(c)));
            }
            i = i + 1;
        }
        assert(runner_views(runners@).take(runners.len() as int) =~= runner_views(runners@));
        choices
    }

    /// Return index of currently selected choice matching `emulator_override`.
    pub fn get_current_choice_idx(
        choices: &[EmulatorOverrideChoice],
        emulator_override: Option<i64>,
    ) -> (r: usize)
        ensures
            choice_position(choice_ids(choices@), emulator_override, r as int),
    {
        match emulator_override {
            None => 0,
            Some(id) => {
                let ghost ids = choice_ids(choices@);
                let mut i: usize = 0;
                while i < choices.len()
                    invariant
                        i <= choices.len(),
                        ids == choice_ids(choices@),
                        emulator_override == Some(id),
                        forall|j: int| 0 <= j < i ==> ids[j] != Some(id),
                    decreases choices.len() - i,
                {
                    if choices[i].runner_id == Some(id) {
                        assert(ids[i as int] == Some(id));
                        assert(ids.contains(Some(id)));
                        return i;
                    }
                    i = i + 1;
                }
                assert(!ids.contains(Some(id)));
                0
            },
        }
    }

    /// Cycle emulator override choice left (prev=true) or right (prev=false).
    pub fn cycle_choice(
        choices: &[EmulatorOverrideChoice],
        current_override: Option<i64>,
        prev: bool,
    ) -> (r: Option<i64>)
        ensures
            choices@.len() == 0 ==> r is None,
            choices@.len() > 0 ==> exists|i: int|
                choice_position(choice_ids(choices@), current_override, i) && r == choices@[step_spec(
                    i,
                    choices@.len() as int,
                    prev,
                )].runner_id,
    {
        if choices.len() == 0 {
            return None;
        }
        let curr_idx = Self::get_current_choice_idx(choices, current_override);
        let next_idx = if prev {
            if curr_idx == 0 {
                choices.len() - 1
            } else {
                curr_idx - 1
            }
        } else {
            (curr_idx + 1) % choices.len()
        };
        choices[next_idx].runner_id
    }

    /// Build list of choices for Core override in Edit Game Details.
    /// Choice 0: "Default" (no override: resolves through game → folder → platform),
    /// then one choice per `(key, label)` core of the resolved emulator.
    pub fn get_core_choices(cores: Vec<(String, String)>) -> (r: Vec<CoreOverrideChoice>)
        ensures
            r@.len() == cores@.len() + 1,
            core_choice_view(r@[0]) == (None::<Seq<char>>, "Default"@),
            forall|i: int|
                0 <= i < cores@.len() ==> core_choice_view(#[trigger] r@[i + 1]) == (
                    Some(cores@[i].0@),
                    cores@[i].1@,
                ),
    {
        let mut choices: Vec<CoreOverrideChoice> = Vec::new();
        choices.push(
            CoreOverrideChoice { core_key: None, display_label: String::from_str("Default") },
        );
        let mut i: usize = 0;
        while i < cores.len()
            invariant
                i <= cores.len(),
                choices@.len() == i + 1,
                core_choice_view(choices@[0]) == (None::<Seq<char>>, "Default"@),
                forall|j: int|
                    0 <= j < i ==> core_choice_view(#[trigger] choices@[j + 1]) == (
                        Some(cores@[j].0@),
                        cores@[j].1@,
                    ),
            decreases cores.len() - i,
        {
            let c = CoreOverrideChoice {
                core_key: Some(copy_string(cores[i].0.as_str())),
                display_label: copy_string(cores[i].1.as_str()),
            };
            choices.push(c);
            i = i + 1;
        }
        choices
    }

    /// Index of the core choice matching `current_core` (0 when none does).
    fn core_choice_idx(choices: &[CoreOverrideChoice], current_core: Option<&str>) -> (r: usize)
        ensures
            core_position(
                choice_keys(choices@),
                match current_core {
                    Some(k) => Some(k@),
                    None => None,
                },
                r as int,
            ),
    {
        match current_core {
            None => 0,
            Some(key) => {
                let ghost keys = choice_keys(choices@);
                let mut i: usize = 0;
                while i < choices.len()
                    invariant
                        i <= choices.len(),
                        keys == choice_keys(choices@),
                        current_core == Some(key),
                        forall|j: int| 0 <= j < i ==> keys[j] != Some(key@),
                    decreases choices.len() - i,
                {
                    let hit = match &choices[i].core_key {
                        Some(k) => str_eq(k.as_str(), key),
                        None => false,
                    };
                    if hit {
                        assert(keys[i as int] == Some(key@));
                        assert(keys.contains(Some(key@)));
                        return i;
                    }
                    i = i + 1;
                }
                assert(!keys.contains(Some(key@)));
                0
            },
        }
    }

    /// Cycle the core override choice left (prev=true) or right (prev=false).
    pub fn cycle_core_choice(
        choices: &[CoreOverrideChoice],
        current_core: Option<&str>,
        prev: bool,
    ) -> (r: Option<String>)
        ensures
            choices@.len() == 0 ==> r is None,
            choices@.len() > 0 ==> exists|i: int|
                core_position(
                    choice_keys(choices@),
                    match current_core {
                        Some(k) => Some(k@),
                        None => None,
                    },
                    i,
                ) && opt_view(r) == choice_keys(choices@)[step_spec(
                    i,
                    choices@.len() as int,
                    prev,
                )],
    {
        if choices.len() == 0 {
            return None;
        }
        let curr_idx = Self::core_choice_idx(choices, current_core);
        let ghost cur = match current_core {
            Some(k) => Some(k@),
            None => None,
        };
        assert(core_position(choice_keys(choices@), cur, curr_idx as int));
        let next_idx = if prev {
            if curr_idx == 0 {
                choices.len() - 1
            } else {
                curr_idx - 1
            }
        } else {
            (curr_idx + 1) % choices.len()
        };
        assert(choice_keys(choices@)[next_idx as int] == opt_view(choices@[next_idx as int].core_key));
        let r = match &choices[next_idx].core_key {
            Some(k) => Some(copy_string(k.as_str())),
            None => None,
        };
        assert(next_idx as int == step_spec(curr_idx as int, choices@.len() as int, prev));
        assert(opt_view(r) == choice_keys(choices@)[step_spec(curr_idx as int, choices@.len() as int, prev)]);
        r
    }
}

/// The override after cycling is always one of the offered choices.
pub proof fn lemma_cycle_choice_stays_in_list(ids: Seq<Option<i64>>, ovr: Option<i64>, i: int, prev: bool)
    requires
        ids.len() > 0,
        choice_position(ids, ovr, i),
    ensures
        0 <= step_spec(i, ids.len() as int, prev) < ids.len(),
{
    if !prev {
        assert(0 <= i < ids.len());
    }
}

/// On an Emulator selector whose first choice is "Default" and whose
/// runners are all different, stepping from an offered choice and then
/// stepping back the other way returns to it. (`cycle_choice` picks the
/// choice `step_spec` reaches from the current choice's position.)
pub proof fn lemma_cycle_choice_round_trip(ids: Seq<Option<i64>>, ovr: Option<i64>, prev: bool, i: int, j: int)
    requires
        ids.len() > 0,
        ids[0] is None,
        ids.no_duplicates(),
        ovr is Some ==> ids.contains(ovr),
        choice_position(ids, ovr, i),
        choice_position(ids, ids[step_spec(i, ids.len() as int, prev)], j),
    ensures
        ids[step_spec(j, ids.len() as int, !prev)] == ovr,
{
    let n = ids.len() as int;
    lemma_cycle_choice_stays_in_list(ids, ovr, i, prev);
    let k = step_spec(i, n, prev);
    assert(0 <= i < n);
    match ids[k] {
        None => {
            assert(k == 0) by {
                if k != 0 {
                    assert(ids[k] == ids[0]);
                }
            }
        },
        Some(id) => {
            assert(ids.contains(Some(id)));
            assert(j == k) by {
                if j != k {
                    assert(ids[j] == ids[k]);
                }
            }
        },
    }
    assert(j == k);
    crate::cycle::lemma_wrapping_round_trip(i, n);
    if prev {
        assert(k == crate::cycle::prev_wrapping(i, n));
        assert(step_spec(k, n, false) == crate::cycle::next_wrapping(k, n));
    } else {
        assert(k == crate::cycle::next_wrapping(i, n));
        assert(step_spec(k, n, true) == crate::cycle::prev_wrapping(k, n));
    }
}

/// The status line after the emulator of a game was reassigned: the label
/// of the choice the new override selects.
pub fn emulator_assigned_status(choices: &[EmulatorOverrideChoice], emulator_override: Option<i64>) -> (s: String)
    requires
        choices@.len() > 0,
    ensures
        exists|i: int|
            choice_position(choice_ids(choices@), emulator_override, i) && s@
                == "Emulator assigned to game: "@ + choices@[i].display_label@,
{
    let idx = EditGameFormHelper::get_current_choice_idx(choices, emulator_override);
    let mut t: Vec<char> = Vec::new();
    push_str(&mut t, "Emulator assigned to game: ");
    push_str(&mut t, choices[idx].display_label.as_str());
    string_from_chars(&t)
}

/// The first choice whose core is `k` (`None` naming "Default").
pub open spec fn first_core_match(keys: Seq<Option<Seq<char>>>, k: Option<Seq<char>>, i: int) -> bool {
    0 <= i < keys.len() && keys[i] == k && forall|j: int| 0 <= j < i ==> keys[j] != k
}

/// The status line after the core of a game was reassigned: the label of
/// the first choice with that core, or "Default" when none has it.
pub fn core_assigned_status(choices: &[CoreOverrideChoice], new_core: &Option<String>) -> (s: String)
    ensures
        choice_keys(choices@).contains(opt_view(*new_core)) ==> exists|i: int|
            first_core_match(choice_keys(choices@), opt_view(*new_core), i) && s@
                == "Core assigned to game: "@ + choices@[i].display_label@,
        !choice_keys(choices@).contains(opt_view(*new_core)) ==> s@ == "Core assigned to game: "@ + "Default"@,
{
    let ghost keys = choice_keys(choices@);
    let ghost k = opt_view(*new_core);
    let mut t: Vec<char> = Vec::new();
    push_str(&mut t, "Core assigned to game: ");
    let mut i: usize = 0;
    while i < choices.len()
        invariant
            i <= choices.len(),
            keys == choice_keys(choices@),
            k == opt_view(*new_core),
            t@ == "Core assigned to game: "@,
            forall|j: int| 0 <= j < i ==> keys[j] != k,
        decreases choices.len() - i,
    {
        let same = match (&choices[i].core_key, new_core) {
            (Some(a), Some(b)) => str_eq(a.as_str(), b.as_str()),
            (None, None) => true,
            _ => false,
        };
        assert(keys[i as int] == opt_view(choices@[i as int].core_key));
        if same {
            assert(first_core_match(keys, k, i as int));
            push_str(&mut t, choices[i].display_label.as_str());
            return string_from_chars(&t);
        }
        i = i + 1;
    }
    assert(!keys.contains(k)) by {
        if keys.contains(k) {
            let j = choose|j: int| 0 <= j < keys.len() && keys[j] == k;
            assert(keys[j] != k);
        }
    }
    push_str(&mut t, "Default");
    string_from_chars(&t)
}

} // verus!
