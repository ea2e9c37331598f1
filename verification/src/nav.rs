//! The cursor's movement rule, and the guarantee that it can never leave the
//! form, however many moves are made.

use vstd::prelude::*;

verus! {

/// Where the cursor lands after one move up: one step toward the first
/// field, floored there.
pub open spec fn nav_up(sel: nat) -> nat {
    if sel > 0 {
        (sel - 1) as nat
    } else {
        0
    }
}

/// Where the cursor lands after one move down in a form of `len` fields: one
/// step toward the last field, capped there.
pub open spec fn nav_down(sel: nat, len: nat) -> nat {
    if sel + 1 < len {
        sel + 1
    } else {
        sel
    }
}

/// Where the cursor lands after a whole sequence of moves (`true` for down,
/// `false` for up), starting from `sel` in a form of `len` fields.
pub open spec fn nav_seq(sel: nat, len: nat, moves: Seq<bool>) -> nat
    decreases moves.len(),
{
    if moves.len() == 0 {
        sel
    } else {
        nav_seq(
            if moves[0] {
                nav_down(sel, len)
            } else {
                nav_up(sel)
            },
            len,
            moves.drop_first(),
        )
    }
}

/// For every sequence of up and down moves, the cursor stays within the
/// form: starting in bounds, it never leaves `[0, len - 1]`.
pub proof fn lemma_selection_stays_in_bounds(sel: nat, len: nat, moves: Seq<bool>)
    requires
        len >= 1,
        sel < len,
    ensures
        nav_seq(sel, len, moves) < len,
    decreases moves.len(),
{
    if moves.len() > 0 {
        let next = if moves[0] {
            nav_down(sel, len)
        } else {
            nav_up(sel)
        };
        lemma_selection_stays_in_bounds(next, len, moves.drop_first());
    }
}

} // verus!
