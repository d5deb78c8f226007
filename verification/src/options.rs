//! Emulator options of the runner configuration popup: their values and how
//! ◀ ▶ cycles them (toggles flip, choices move through their list).
use vstd::prelude::*;
use crate::text::{copy_string, str_eq};

verus! {

/// How an option takes its values.
pub enum EmulatorOptionKind {
    /// "1" (on) or "0" (off).
    Toggle,
    /// One of a fixed list of values.
    Choice(Vec<String>),
}

/// An emulator option, with what cycling reads of it.
pub struct EmulatorOption {
    pub key: String,
    pub default: String,
    pub kind: EmulatorOptionKind,
}

/// The values chosen for a runner's options, keyed by option key.
pub struct RunnerOptions {
    entries: Vec<(String, String)>,
}

/// The key/value view of an entry list: a later entry never shadows an
/// earlier one because keys are kept unique.
pub open spec fn entries_map(e: Seq<(String, String)>) -> Map<Seq<char>, Seq<char>>
    decreases e.len(),
{
    if e.len() == 0 {
        Map::empty()
    } else {
        entries_map(e.drop_last()).insert(e.last().0@, e.last().1@)
    }
}

pub open spec fn keys_unique(e: Seq<(String, String)>) -> bool {
    forall|i: int, j: int| 0 <= i < j < e.len() ==> e[i].0@ != e[j].0@
}

proof fn lemma_entries_map_index(e: Seq<(String, String)>, i: int)
    requires
        keys_unique(e),
        0 <= i < e.len(),
    ensures
        entries_map(e).contains_key(e[i].0@),
        entries_map(e)[e[i].0@] == e[i].1@,
    decreases e.len(),
{
    if i < e.len() - 1 {
        lemma_entries_map_index(e.drop_last(), i);
    }
}

proof fn lemma_entries_map_absent(e: Seq<(String, String)>, k: Seq<char>)
    requires
        forall|i: int| 0 <= i < e.len() ==> e[i].0@ != k,
    ensures
        !entries_map(e).contains_key(k),
    decreases e.len(),
{
    if e.len() > 0 {
        lemma_entries_map_absent(e.drop_last(), k);
    }
}

proof fn lemma_entries_map_update(e: Seq<(String, String)>, i: int, v: (String, String))
    requires
        keys_unique(e),
        0 <= i < e.len(),
        v.0@ == e[i].0@,
    ensures
        entries_map(e.update(i, v)) == entries_map(e).insert(v.0@, v.1@),
        keys_unique(e.update(i, v)),
    decreases e.len(),
{
    let u = e.update(i, v);
    if i == e.len() - 1 {
        assert(u.drop_last() =~= e.drop_last());
        lemma_entries_map_absent(e.drop_last(), v.0@);
        assert(entries_map(u) =~= entries_map(e).insert(v.0@, v.1@));
    } else {
        lemma_entries_map_update(e.drop_last(), i, v);
        assert(u.drop_last() =~= e.drop_last().update(i, v));
        assert(entries_map(u) =~= entries_map(e).insert(v.0@, v.1@));
    }
}

impl RunnerOptions {
    pub closed spec fn wf(&self) -> bool {
        keys_unique(self.entries@)
    }

    /// The values, as a map from option key to value.
    pub closed spec fn view_map(&self) -> Map<Seq<char>, Seq<char>> {
        entries_map(self.entries@)
    }

    /// No values chosen.
    pub fn new() -> (r: Self)
        ensures
            r.wf(),
            r.view_map() == Map::<Seq<char>, Seq<char>>::empty(),
    {
        RunnerOptions { entries: Vec::new() }
    }

    /// Position of `key`, if present.
    fn find(&self, key: &str) -> (r: Option<usize>)
        ensures
            match r {
                Some(i) => i < self.entries@.len() && self.entries@[i as int].0@ == key@,
                None => forall|i: int|
                    0 <= i < self.entries@.len() ==> self.entries@[i].0@ != key@,
            },
    {
        let mut i: usize = 0;
        while i < self.entries.len()
            invariant
                i <= self.entries.len(),
                forall|j: int| 0 <= j < i ==> self.entries@[j].0@ != key@,
            decreases self.entries.len() - i,
        {
            if str_eq(self.entries[i].0.as_str(), key) {
                return Some(i);
            }
            i = i + 1;
        }
        None
    }

    /// The value chosen for `key`, if any.
    pub fn get(&self, key: &str) -> (r: Option<String>)
        requires
            self.wf(),
        ensures
            match r {
                Some(v) => self.view_map().contains_key(key@) && self.view_map()[key@] == v@,
                None => !self.view_map().contains_key(key@),
            },
    {
        match self.find(key) {
            Some(i) => {
                proof {
                    lemma_entries_map_index(self.entries@, i as int);
                }
                Some(copy_string(self.entries[i].1.as_str()))
            },
            None => {
                proof {
                    lemma_entries_map_absent(self.entries@, key@);
                }
                None
            },
        }
    }

    /// Choose `value` for `key`, replacing any earlier choice.
    pub fn insert(&mut self, key: String, value: String)
        requires
            old(self).wf(),
        ensures
            final(self).wf(),
            final(self).view_map() == old(self).view_map().insert(key@, value@),
    {
        match self.find(key.as_str()) {
            Some(i) => {
                let ghost e = self.entries@;
                let ghost v = (key, value);
                self.entries.set(i, (key, value));
                proof {
                    lemma_entries_map_update(e, i as int, v);
                }
            },
            None => {
                let ghost e = self.entries@;
                self.entries.push((key, value));
                assert(self.entries@.drop_last() =~= e);
            },
        }
    }
}

/// The value after one cycling step from `current`.
pub open spec fn next_option_value_spec(kind: EmulatorOptionKind, current: Seq<char>, backward: bool) -> Seq<char> {
    match kind {
        EmulatorOptionKind::Toggle => if current == "1"@ {
            "0"@
        } else {
            "1"@
        },
        EmulatorOptionKind::Choice(choices) => {
            let cs = choices@.map_values(|c: String| c@);
            if cs.len() == 0 {
                current
            } else {
                let pos = match cs.index_of_first(current) {
                    Some(p) => p,
                    None => 0,
                };
                let next = if backward {
                    if pos == 0 {
                        cs.len() - 1
                    } else {
                        pos - 1
                    }
                } else {
                    (pos + 1) % (cs.len() as int)
                };
                cs[next]
            }
        },
    }
}

proof fn lemma_first_index_unique(cs: Seq<Seq<char>>, q: int)
    requires
        cs.no_duplicates(),
        0 <= q < cs.len(),
    ensures
        cs.index_of_first(cs[q]) == Some(q),
{
    cs.index_of_first_ensures(cs[q]);
    let i = cs.index_of_first(cs[q])->0;
    assert(i == q) by {
        if i != q {
            assert(cs[i] == cs[q]);
        }
    }
}

/// A step back undoes a step forward, and a step forward undoes a step
/// back: on a choice option whose values are all different, from any of its
/// values; on a toggle, from on or off (each step flips it).
pub proof fn lemma_option_step_round_trip(kind: EmulatorOptionKind, current: Seq<char>, backward: bool)
    requires
        kind matches EmulatorOptionKind::Choice(cs) ==> cs@.map_values(|c: String| c@).no_duplicates()
            && cs@.map_values(|c: String| c@).contains(current),
        kind is Toggle ==> (current == "1"@ || current == "0"@),
    ensures
        next_option_value_spec(kind, next_option_value_spec(kind, current, backward), !backward) == current,
{
    match kind {
        EmulatorOptionKind::Toggle => {
            reveal_strlit("1");
            reveal_strlit("0");
            assert("1"@ != "0"@) by {
                assert("1"@[0] != "0"@[0]);
            }
        },
        EmulatorOptionKind::Choice(choices) => {
            let cs = choices@.map_values(|c: String| c@);
            let n = cs.len() as int;
            let p = choose|p: int| 0 <= p < cs.len() && cs[p] == current;
            lemma_first_index_unique(cs, p);
            crate::cycle::lemma_wrapping_round_trip(p, n);
            let q = if backward {
                crate::cycle::prev_wrapping(p, n)
            } else {
                crate::cycle::next_wrapping(p, n)
            };
            assert(next_option_value_spec(kind, current, backward) == cs[q]);
            lemma_first_index_unique(cs, q);
        },
    }
}

/// First position of `current` among `choices`.
fn find_choice(choices: &Vec<String>, current: &str) -> (r: Option<usize>)
    ensures
        match r {
            Some(p) => p < choices@.len() && choices@[p as int]@ == current@ && forall|j: int|
                0 <= j < p ==> choices@[j]@ != current@,
            None => forall|j: int| 0 <= j < choices@.len() ==> choices@[j]@ != current@,
        },
{
    let mut i: usize = 0;
    while i < choices.len()
        invariant
            i <= choices.len(),
            forall|j: int| 0 <= j < i ==> choices@[j]@ != current@,
        decreases choices.len() - i,
    {
        if str_eq(choices[i].as_str(), current) {
            return Some(i);
        }
        i = i + 1;
    }
    None
}

/// One cycling step of an option's value: toggles flip on/off (both
/// directions do the same); choices move through their value list, an
/// unknown current value counting as the first.
pub fn next_option_value(kind: &EmulatorOptionKind, current: &str, backward: bool) -> (r: String)
    ensures
        r@ == next_option_value_spec(*kind, current@, backward),
{
    match kind {
        EmulatorOptionKind::Toggle => {
            if str_eq(current, "1") {
                String::from_str("0")
            } else {
                String::from_str("1")
            }
        },
        EmulatorOptionKind::Choice(choices) => {
            let ghost cs = choices@.map_values(|c: String| c@);
            if choices.len() == 0 {
                return copy_string(current);
            }
            let f = find_choice(choices, current);
            let found = f.is_some();
            let pos: usize = match f {
                Some(p) => p,
                None => 0,
            };
            proof {
                cs.index_of_first_ensures(current@);
                if found {
                    assert(cs[pos as int] == current@);
                    assert(cs.contains(current@));
                    assert(forall|j: int| 0 <= j < pos ==> cs[j] != current@);
                    let q = cs.index_of_first(current@)->0;
                    assert(q == pos) by {
                        if q < pos {
                        } else if q > pos {
                        }
                    }
                } else {
                    assert(!cs.contains(current@));
                }
            }
            let len = choices.len();
            let next = if backward {
                if pos == 0 {
                    len - 1
                } else {
                    pos - 1
                }
            } else {
                (pos + 1) % len
            };
            copy_string(choices[next].as_str())
        },
    }
}

/// Cycle option `idx` of `options` by one step, starting from its chosen
/// value or, when none is chosen, its default. An index past the options
/// changes nothing.
pub fn cycle_runner_option(
    options: &[EmulatorOption],
    values: &mut RunnerOptions,
    idx: usize,
    backward: bool,
)
    requires
        old(values).wf(),
    ensures
        final(values).wf(),
        idx >= options@.len() ==> final(values).view_map() == old(values).view_map(),
        idx < options@.len() ==> {
            let opt = options@[idx as int];
            let current = if old(values).view_map().contains_key(opt.key@) {
                old(values).view_map()[opt.key@]
            } else {
                opt.default@
            };
            final(values).view_map() == old(values).view_map().insert(
                opt.key@,
                next_option_value_spec(opt.kind, current, backward),
            )
        },
{
    if idx >= options.len() {
        return;
    }
    let opt = &options[idx];
    let current = match values.get(opt.key.as_str()) {
        Some(v) => v,
        None => copy_string(opt.default.as_str()),
    };
    let next = next_option_value(&opt.kind, current.as_str(), backward);
    values.insert(copy_string(opt.key.as_str()), next);
}

} // verus!
