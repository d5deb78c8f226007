//! Wrap-around cycling through lists, as every ◀ ▶ selector and list
//! navigation of the launcher does it.
use vstd::prelude::*;

verus! {

/// Index after `i` in a list of `len` items, wrapping to the start.
pub open spec fn next_wrapping(i: int, len: int) -> int {
    (i + 1) % len
}

/// Index before `i` in a list of `len` items, wrapping to the end.
pub open spec fn prev_wrapping(i: int, len: int) -> int {
    if i == 0 {
        len - 1
    } else {
        i - 1
    }
}

/// The index [`cycle_index`] selects.
pub open spec fn cycle_index_spec(current: Option<usize>, len: usize, backward: bool) -> int {
    match current {
        Some(i) => if len > 1 {
            (i + if backward {
                len - 1
            } else {
                1
            }) % (len as int)
        } else {
            0
        },
        None => 0,
    }
}

/// Next index when cycling a list of `len` items that wraps around both
/// directions. `current` is the selected item (or `None` when nothing is
/// selected yet). A single-item list always resolves to index 0.
pub fn cycle_index(current: Option<usize>, len: usize, backward: bool) -> (r: usize)
    requires
        current matches Some(i) ==> (len > 1 ==> if backward {
            i + len - 1 <= usize::MAX
        } else {
            i + 1 <= usize::MAX
        }),
    ensures
        r == cycle_index_spec(current, len, backward),
        len > 0 ==> r < len,
{
    match current {
        Some(i) if len > 1 => (i + if backward {
            len - 1
        } else {
            1
        }) % len,
        _ => 0,
    }
}

/// One wrap-around step from a selected position `c` of a list of `len > 1`
/// items: the same index [`cycle_index`] picks, computed without overflow.
pub fn step_index(c: usize, len: usize, backward: bool) -> (r: usize)
    requires
        c < len,
        len > 1,
    ensures
        r == cycle_index_spec(Some(c), len, backward),
        r < len,
{
    if backward {
        if c == 0 {
            proof {
                vstd::arithmetic::div_mod::lemma_small_mod((len - 1) as nat, len as nat);
            }
            len - 1
        } else {
            proof {
                vstd::arithmetic::div_mod::lemma_mod_add_multiples_vanish(c - 1, len as int);
                vstd::arithmetic::div_mod::lemma_small_mod((c - 1) as nat, len as nat);
            }
            c - 1
        }
    } else if c + 1 == len {
        proof {
            vstd::arithmetic::div_mod::lemma_mod_self_0(len as int);
        }
        0
    } else {
        proof {
            vstd::arithmetic::div_mod::lemma_small_mod((c + 1) as nat, len as nat);
        }
        c + 1
    }
}

/// Cycling forward and then backward from a selected item comes back to it,
/// and so does cycling backward and then forward.
pub proof fn lemma_cycle_index_round_trip(i: usize, len: usize)
    requires
        i < len,
        len > 1,
    ensures
        cycle_index_spec(Some(cycle_index_spec(Some(i), len, false) as usize), len, true) == i,
        cycle_index_spec(Some(cycle_index_spec(Some(i), len, true) as usize), len, false) == i,
{
    let f = cycle_index_spec(Some(i), len, false);
    let b = cycle_index_spec(Some(i), len, true);
    assert(0 <= f < len);
    assert(0 <= b < len);
    if i + 1 == len {
        assert(f == 0) by {
            vstd::arithmetic::div_mod::lemma_mod_self_0(len as int);
        }
    } else {
        assert(f == i + 1) by {
            vstd::arithmetic::div_mod::lemma_small_mod((i + 1) as nat, len as nat);
        }
    }
    if i == 0 {
        assert(b == len - 1) by {
            vstd::arithmetic::div_mod::lemma_small_mod((len - 1) as nat, len as nat);
        }
    } else {
        assert((i + len - 1) % (len as int) == i - 1) by {
            vstd::arithmetic::div_mod::lemma_mod_add_multiples_vanish(i - 1, len as int);
            vstd::arithmetic::div_mod::lemma_small_mod((i - 1) as nat, len as nat);
        }
    }
    assert((f + len - 1) % (len as int) == i) by {
        if i + 1 == len {
            vstd::arithmetic::div_mod::lemma_small_mod((len - 1) as nat, len as nat);
        } else {
            vstd::arithmetic::div_mod::lemma_mod_add_multiples_vanish(i as int, len as int);
            vstd::arithmetic::div_mod::lemma_small_mod(i as nat, len as nat);
        }
    }
    assert((b + 1) % (len as int) == i) by {
        if i == 0 {
            vstd::arithmetic::div_mod::lemma_mod_self_0(len as int);
        } else {
            vstd::arithmetic::div_mod::lemma_small_mod(i as nat, len as nat);
        }
    }
}

/// Forward and backward wrapping are inverse on every index of a non-empty
/// list.
pub proof fn lemma_wrapping_round_trip(i: int, len: int)
    requires
        0 <= i < len,
    ensures
        0 <= next_wrapping(i, len) < len,
        0 <= prev_wrapping(i, len) < len,
        prev_wrapping(next_wrapping(i, len), len) == i,
        next_wrapping(prev_wrapping(i, len), len) == i,
{
    if i + 1 == len {
        vstd::arithmetic::div_mod::lemma_mod_self_0(len);
    } else {
        vstd::arithmetic::div_mod::lemma_small_mod((i + 1) as nat, len as nat);
    }
    if i == 0 {
        vstd::arithmetic::div_mod::lemma_mod_self_0(len);
    } else {
        vstd::arithmetic::div_mod::lemma_small_mod(i as nat, len as nat);
    }
}

} // verus!
