use vstd::prelude::*;
use vstd::arithmetic::div_mod::{lemma_add_mod_noop, lemma_sub_mod_noop, lemma_small_mod};
use crate::constants::{STATE_WIDTH, NUM_ROUNDS, MDS, INV_MDS, ARK1, ARK2};
use crate::field::{P, is_felt, fadd, fsub, fmul, felt_add, felt_sub, felt_mul};
use crate::mds_inverse::lemma_inv_mds_undoes_mds;
use crate::permutation::{
    is_state, sbox, inv_sbox, sbox_state, inv_sbox_state, mat_vec, add_state, first_half, round_spec, apply_sbox,
    apply_mds, apply_inv_mds,
};

verus! {

/// Elementwise field subtraction of a constant vector from a state.
pub open spec fn sub_state(s: Seq<u64>, k: Seq<u64>) -> Seq<u64> {
    Seq::new(STATE_WIDTH as nat, |i: int| fsub(s[i], k[i]))
}

/// The state expected after the first half of a round, derived forward from `current` with
/// the first twelve constants of `ark`.
pub open spec fn step_from_current(current: Seq<u64>, ark: Seq<u64>) -> Seq<u64> {
    add_state(mat_vec(MDS, sbox_state(current)), ark.subrange(0, STATE_WIDTH as int))
}

/// The same state derived backward from `next` with the last twelve constants of `ark`:
/// remove the constants, undo the diffusion, and apply the forward S-box in place of undoing
/// the inverse S-box.
pub open spec fn step_from_next(next: Seq<u64>, ark: Seq<u64>) -> Seq<u64> {
    sbox_state(
        mat_vec(INV_MDS, sub_state(next, ark.subrange(STATE_WIDTH as int, 2 * STATE_WIDTH as int))),
    )
}

/// The constraint value of element `i`: the flag times the difference between the two
/// derivations.
pub open spec fn round_constraint(
    current: Seq<u64>,
    next: Seq<u64>,
    ark: Seq<u64>,
    flag: u64,
    i: int,
) -> u64 {
    fmul(flag, fsub(step_from_next(next, ark)[i], step_from_current(current, ark)[i]))
}

/// Adds to the first twelve slots of `result` the constraints that hold (are zero) when
/// `next` is one round of the permutation applied to `current` with constants `ark`,
/// each scaled by `flag`.
pub fn enforce_round(result: &mut [u64], current: &[u64], next: &[u64], ark: &[u64], flag: u64)
    requires
        old(result)@.len() >= STATE_WIDTH,
        current@.len() == STATE_WIDTH,
        next@.len() == STATE_WIDTH,
        ark@.len() >= 2 * STATE_WIDTH,
        is_state(current@),
    ensures
        final(result)@.len() == old(result)@.len(),
        forall|i: int|
            0 <= i < STATE_WIDTH ==> #[trigger] final(result)@[i] == fadd(
                old(result)@[i],
                round_constraint(current@, next@, ark@, flag, i),
            ),
        forall|i: int|
            STATE_WIDTH <= i < old(result)@.len() ==> #[trigger] final(result)@[i]
                == old(result)@[i],
{
    let mut step1 = [0u64; STATE_WIDTH];
    let mut i: usize = 0;
    while i < STATE_WIDTH
        invariant
            i <= STATE_WIDTH,
            current@.len() == STATE_WIDTH,
            forall|k: int| 0 <= k < i ==> step1@[k] == current@[k],
        decreases STATE_WIDTH - i,
    {
        step1[i] = current[i];
        i += 1;
    }
    assert(step1@ =~= current@);
    apply_sbox(&mut step1);
    apply_mds(&mut step1);
    let ghost mixed = step1@;
    let mut i: usize = 0;
    while i < STATE_WIDTH
        invariant
            i <= STATE_WIDTH,
            ark@.len() >= 2 * STATE_WIDTH,
            forall|k: int| 0 <= k < i ==> step1@[k] == fadd(mixed[k], ark@[k]),
            forall|k: int| i <= k < STATE_WIDTH ==> step1@[k] == mixed[k],
        decreases STATE_WIDTH - i,
    {
        step1[i] = felt_add(step1[i], ark[i]);
        i += 1;
    }
    assert(step1@ =~= step_from_current(current@, ark@));

    let mut step2 = [0u64; STATE_WIDTH];
    let mut i: usize = 0;
    while i < STATE_WIDTH
        invariant
            i <= STATE_WIDTH,
            next@.len() == STATE_WIDTH,
            ark@.len() >= 2 * STATE_WIDTH,
            forall|k: int| 0 <= k < i ==> step2@[k] == fsub(next@[k], ark@[STATE_WIDTH + k]),
        decreases STATE_WIDTH - i,
    {
        step2[i] = felt_sub(next[i], ark[STATE_WIDTH + i]);
        i += 1;
    }
    assert(step2@ =~= sub_state(next@, ark@.subrange(STATE_WIDTH as int, 2 * STATE_WIDTH as int)));
    apply_inv_mds(&mut step2);
    apply_sbox(&mut step2);
    assert(step2@ =~= step_from_next(next@, ark@));

    let ghost r0 = result@;
    let mut i: usize = 0;
    while i < STATE_WIDTH
        invariant
            i <= STATE_WIDTH,
            result@.len() == r0.len(),
            r0.len() >= STATE_WIDTH,
            step1@ == step_from_current(current@, ark@),
            step2@ == step_from_next(next@, ark@),
            forall|k: int|
                0 <= k < i ==> #[trigger] result@[k] == fadd(
                    r0[k],
                    round_constraint(current@, next@, ark@, flag, k),
                ),
            forall|k: int| i <= k < r0.len() ==> #[trigger] result@[k] == r0[k],
        decreases STATE_WIDTH - i,
    {
        let diff = felt_sub(step2[i], step1[i]);
        let scaled = felt_mul(flag, diff);
        result[i] = felt_add(result[i], scaled);
        i += 1;
    }
}

/// The constants of round `r` in the layout the constraint takes: the first twelve, then the
/// second twelve.
pub open spec fn round_ark(r: int) -> Seq<u64> {
    ARK1[r]@ + ARK2[r]@
}

/// Subtracting a constant undoes adding it, on canonical elements.
proof fn lemma_sub_undoes_add(x: u64, k: u64)
    requires
        is_felt(x),
    ensures
        fsub(fadd(x, k), k) == x,
{
    let m = P as int;
    lemma_sub_mod_noop(x + k, k as int, m);
    lemma_small_mod(x as nat, P as nat);
    lemma_add_mod_noop(x as int, k as int, m);
    assert(((x + k) % m) % m == (x + k) % m) by {
        lemma_small_mod(((x + k) % m) as nat, P as nat);
    }
    assert((x + k - k) % m == (x as int) % m);
}

/// For the true successor of `current` under round `r`, the second round constants cancel
/// and the inverse diffusion undoes the forward one, so each constraint is the flag times the
/// difference between the 7th power of the 7th root of an element of the first-half state
/// and that element itself.
pub proof fn lemma_true_successor_constraint(current: Seq<u64>, r: int, flag: u64, i: int)
    requires
        is_state(current),
        0 <= r < NUM_ROUNDS,
        0 <= i < STATE_WIDTH,
    ensures
        round_constraint(current, round_spec(current, r), round_ark(r), flag, i) == fmul(
            flag,
            fsub(sbox(inv_sbox(first_half(current, r)[i])), first_half(current, r)[i]),
        ),
{
    let z = inv_sbox_state(first_half(current, r));
    let y = mat_vec(MDS, z);
    let next = round_spec(current, r);
    let ark = round_ark(r);
    assert(ark.subrange(0, STATE_WIDTH as int) =~= ARK1[r]@);
    assert(ark.subrange(STATE_WIDTH as int, 2 * STATE_WIDTH as int) =~= ARK2[r]@);
    assert forall|k: int| 0 <= k < STATE_WIDTH implies #[trigger] sub_state(next, ARK2[r]@)[k] == y[k] by {
        assert(is_felt(y[k]));
        lemma_sub_undoes_add(y[k], ARK2[r]@[k]);
    }
    assert(sub_state(next, ARK2[r]@) =~= y);
    assert(is_state(z));
    lemma_inv_mds_undoes_mds(z);
    assert(step_from_current(current, ark) =~= first_half(current, r));
}

} // verus!
