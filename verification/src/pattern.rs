//! The cyclic diatonic interval pattern `[2, 2, 1, 2, 2, 2, 1]` and the
//! arithmetic of walking it: how many chromatic steps a run of scale degrees
//! spans, and how that interacts with mode rotation and key shift.

use vstd::arithmetic::div_mod::{lemma_add_mod_noop_right, lemma_mod_add_multiples_vanish};
use vstd::prelude::*;

verus! {

/// The diatonic interval pattern, read cyclically at position `i % 7`.
/// Position 0 starts the Ionian rotation: `[2, 2, 1, 2, 2, 2, 1]`.
pub open spec fn interval_at(i: int) -> int {
    let j = i % 7;
    if j == 0 {
        2
    } else if j == 1 {
        2
    } else if j == 2 {
        1
    } else if j == 3 {
        2
    } else if j == 4 {
        2
    } else if j == 5 {
        2
    } else {
        1
    }
}

/// Chromatic width of the first `k` intervals of the pattern, read from
/// position `rot`.
pub open spec fn pattern_sum(rot: int, k: nat) -> int
    decreases k,
{
    if k == 0 {
        0
    } else {
        pattern_sum(rot, (k - 1) as nat) + interval_at(rot + k - 1)
    }
}

/// Chromatic step index of the `k`-th value produced by a scale stream whose
/// tone stream stood at `seed` when it was wrapped with rotation `rot`.
pub open spec fn scale_step(seed: int, rot: int, k: nat) -> int {
    seed + pattern_sum(rot, k)
}

/// Reads the diatonic interval pattern at position `i % 7`.
pub fn interval(i: u32) -> (r: u32)
    ensures
        r == interval_at(i as int),
{
    let j = i % 7;
    if j == 0 {
        2
    } else if j == 1 {
        2
    } else if j == 2 {
        1
    } else if j == 3 {
        2
    } else if j == 4 {
        2
    } else if j == 5 {
        2
    } else {
        1
    }
}

/// Every interval of the pattern is a semitone or a whole tone.
pub proof fn lemma_interval_bounds(i: int)
    ensures
        1 <= interval_at(i) <= 2,
{
}

/// The pattern is cyclic with period 7.
pub proof fn lemma_interval_periodic(i: int)
    ensures
        interval_at(i + 7) == interval_at(i),
{
    lemma_mod_add_multiples_vanish(i, 7);
}

/// Reducing a nonnegative position modulo 7 reads the same interval.
pub proof fn lemma_interval_take_mod(i: int)
    requires
        i >= 0,
    ensures
        interval_at(i % 7) == interval_at(i),
{
    lemma_add_mod_noop_right(0, i, 7);
}

/// Reading one more interval extends the width by the interval at the end.
pub proof fn lemma_pattern_sum_step(rot: int, k: nat)
    ensures
        pattern_sum(rot, k + 1) == pattern_sum(rot, k) + interval_at(rot + k),
{
}

/// Any seven consecutive intervals of the pattern sum to a full octave of 12
/// chromatic steps, wherever the reading starts.
pub proof fn lemma_pattern_octave(rot: int)
    requires
        rot >= 0,
    ensures
        pattern_sum(rot, 7) == 12,
    decreases rot,
{
    if rot < 7 {
        reveal_with_fuel(pattern_sum, 8);
        if rot == 0 {
            assert(pattern_sum(0, 7) == 12);
        } else if rot == 1 {
            assert(pattern_sum(1, 7) == 12);
        } else if rot == 2 {
            assert(pattern_sum(2, 7) == 12);
        } else if rot == 3 {
            assert(pattern_sum(3, 7) == 12);
        } else if rot == 4 {
            assert(pattern_sum(4, 7) == 12);
        } else if rot == 5 {
            assert(pattern_sum(5, 7) == 12);
        } else {
            assert(pattern_sum(6, 7) == 12);
        }
    } else {
        lemma_pattern_octave(rot - 7);
        assert forall|k: nat| k < 7 implies #[trigger] interval_at(rot - 7 + k) == interval_at(
            rot + k,
        ) by {
            lemma_interval_periodic(rot - 7 + k);
        }
        reveal_with_fuel(pattern_sum, 8);
    }
}

/// Diatonic octave alignment: seven scale degrees advance a scale stream by
/// exactly one octave (12 chromatic steps), from any point of the walk and
/// in any mode rotation.
pub proof fn lemma_octave_alignment(seed: int, rot: int, k: nat)
    requires
        rot >= 0,
    ensures
        scale_step(seed, rot, k + 7) == scale_step(seed, rot, k) + 12,
    decreases k,
{
    if k == 0 {
        lemma_pattern_octave(rot);
    } else {
        lemma_octave_alignment(seed, rot, (k - 1) as nat);
        lemma_pattern_sum_step(rot, (k - 1) as nat);
        lemma_pattern_sum_step(rot, (k + 6) as nat);
        lemma_interval_periodic(rot + k - 1);
    }
}

/// Key shift and mode rotation are orthogonal: shifting the tone stream by
/// `shift` chromatic steps before wrapping it moves every scale degree by
/// exactly `shift`, whatever the rotation; and the pitch difference between
/// two rotations of the same degree does not depend on the seed.
pub proof fn lemma_key_mode_orthogonal(seed: int, shift: int, rot1: int, rot2: int, k: nat)
    ensures
        scale_step(seed + shift, rot1, k) == scale_step(seed, rot1, k) + shift,
        scale_step(seed, rot1, k) - scale_step(seed, rot2, k) == scale_step(seed + shift, rot1, k)
            - scale_step(seed + shift, rot2, k),
{
}

} // verus!
