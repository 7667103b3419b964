//! Index arithmetic on a ring: the rows and the columns of the grid each
//! close on themselves, so the grid is a torus.

use vstd::arithmetic::div_mod::lemma_fundamental_div_mod_converse;
use vstd::prelude::*;

verus! {

/// The position reached from `index` by `step` moves forward on a ring of
/// `len` positions.
pub open spec fn wrap(index: int, step: int, len: int) -> int {
    (index + step) % len
}

/// A step of at most one full turn lands on the plain sum, or on the sum
/// less one turn.
pub proof fn lemma_wrap_unfolds(index: int, step: int, len: int)
    requires
        0 <= index < len,
        0 <= step <= len,
    ensures
        wrap(index, step, len) == if index + step < len {
            index + step
        } else {
            index + step - len
        },
{
    if index + step < len {
        lemma_fundamental_div_mod_converse(index + step, len, 0, index + step);
    } else {
        lemma_fundamental_div_mod_converse(index + step, len, 1, index + step - len);
    }
}

/// Moves `step` positions forward from `index` on a ring of `len`
/// positions. A step of `len - 1` is one position backward.
pub fn wrapping_step(index: usize, step: usize, len: usize) -> (wrapped: usize)
    requires
        index < len,
        step <= len,
    ensures
        wrapped == wrap(index as int, step as int, len as int),
        wrapped < len,
{
    proof {
        lemma_wrap_unfolds(index as int, step as int, len as int);
    }
    let to_full_turn: usize = len - step;
    if index >= to_full_turn {
        index - to_full_turn
    } else {
        index + step
    }
}

} // verus!
