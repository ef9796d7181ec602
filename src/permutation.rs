use vstd::prelude::*;
use vstd::arithmetic::power2::{pow2, lemma2_to64, lemma_pow2_unfold};
use vstd::arithmetic::div_mod::lemma_add_mod_noop;
use crate::constants::{STATE_WIDTH, NUM_ROUNDS, MDS, INV_MDS, ARK1, ARK2};
use crate::field::{
    P, is_felt, fadd, fmul, fpow, felt_add, felt_mul, felt_square, lemma_fpow_one,
    lemma_fpow_mul, lemma_fpow_fpow,
};

verus! {

/// The exponent of the inverse S-box: the inverse of 7 modulo p - 1.
pub const INV_ALPHA: u64 = 10540996611094048183;

/// A state is twelve canonical field elements.
pub open spec fn is_state(s: Seq<u64>) -> bool {
    &&& s.len() == STATE_WIDTH
    &&& forall|i: int| 0 <= i < STATE_WIDTH ==> is_felt(#[trigger] s[i])
}

/// The forward S-box: the 7th power.
pub open spec fn sbox(x: u64) -> u64 {
    fpow(x, 7)
}

/// The inverse S-box: the power `INV_ALPHA`, the 7th root.
pub open spec fn inv_sbox(x: u64) -> u64 {
    fpow(x, INV_ALPHA as nat)
}

/// The forward S-box applied to every element.
pub open spec fn sbox_state(s: Seq<u64>) -> Seq<u64> {
    Seq::new(s.len(), |i: int| sbox(s[i]))
}

/// The inverse S-box applied to every element.
pub open spec fn inv_sbox_state(s: Seq<u64>) -> Seq<u64> {
    Seq::new(s.len(), |i: int| inv_sbox(s[i]))
}

/// The sum of `row[j] * s[j]` over the first `n` positions, as an integer.
pub open spec fn dot(row: Seq<u64>, s: Seq<u64>, n: nat) -> int
    decreases n,
{
    if n == 0 {
        0
    } else {
        dot(row, s, (n - 1) as nat) + (row[n - 1] as int) * (s[n - 1] as int)
    }
}

/// The product of a 12 by 12 matrix and a state over the field.
pub open spec fn mat_vec(m: [[u64; STATE_WIDTH]; STATE_WIDTH], s: Seq<u64>) -> Seq<u64> {
    Seq::new(STATE_WIDTH as nat, |i: int| (dot(m[i]@, s, STATE_WIDTH as nat) % (P as int)) as u64)
}

/// Elementwise field addition of a constant vector to a state.
pub open spec fn add_state(s: Seq<u64>, k: Seq<u64>) -> Seq<u64> {
    Seq::new(STATE_WIDTH as nat, |i: int| fadd(s[i], k[i]))
}

/// The state after the first half of round `r`: S-box, diffusion, first round constants.
pub open spec fn first_half(s: Seq<u64>, r: int) -> Seq<u64> {
    add_state(mat_vec(MDS, sbox_state(s)), ARK1[r]@)
}

/// One full round `r` of the permutation.
pub open spec fn round_spec(s: Seq<u64>, r: int) -> Seq<u64> {
    add_state(mat_vec(MDS, inv_sbox_state(first_half(s, r))), ARK2[r]@)
}

/// The first `n` rounds of the permutation, in order.
pub open spec fn rounds(s: Seq<u64>, n: nat) -> Seq<u64>
    decreases n,
{
    if n == 0 {
        s
    } else {
        round_spec(rounds(s, (n - 1) as nat), n - 1)
    }
}

/// The full permutation.
pub open spec fn permutation(s: Seq<u64>) -> Seq<u64> {
    rounds(s, NUM_ROUNDS as nat)
}

/// Replaces every element of the state by its 7th power.
pub fn apply_sbox(state: &mut [u64; STATE_WIDTH])
    requires
        is_state(old(state)@),
    ensures
        final(state)@ == sbox_state(old(state)@),
        is_state(final(state)@),
{
    let ghost s0 = state@;
    let mut i: usize = 0;
    while i < STATE_WIDTH
        invariant
            i <= STATE_WIDTH,
            is_state(s0),
            state@.len() == STATE_WIDTH,
            forall|k: int| 0 <= k < i ==> state@[k] == sbox(s0[k]),
            forall|k: int| i <= k < STATE_WIDTH ==> state@[k] == s0[k],
        decreases STATE_WIDTH - i,
    {
        let v = state[i];
        let t2 = felt_square(v);
        let t4 = felt_square(t2);
        let t6 = felt_mul(t2, t4);
        let r = felt_mul(v, t6);
        proof {
            assert(is_felt(s0[i as int]));
            lemma_fpow_one(v);
            lemma_fpow_mul(v, 1, 1);
            lemma_fpow_mul(v, 2, 2);
            lemma_fpow_mul(v, 2, 4);
            lemma_fpow_mul(v, 1, 6);
        }
        state[i] = r;
        i += 1;
    }
    assert(state@ =~= sbox_state(s0));
}

/// Squares every element of the state.
fn square_each(s: [u64; STATE_WIDTH]) -> (r: [u64; STATE_WIDTH])
    ensures
        forall|k: int| 0 <= k < STATE_WIDTH ==> r@[k] == fmul(s@[k], s@[k]),
{
    let mut r = s;
    let mut i: usize = 0;
    while i < STATE_WIDTH
        invariant
            i <= STATE_WIDTH,
            forall|k: int| 0 <= k < i ==> r@[k] == fmul(s@[k], s@[k]),
            forall|k: int| i <= k < STATE_WIDTH ==> r@[k] == s@[k],
        decreases STATE_WIDTH - i,
    {
        r[i] = felt_square(r[i]);
        i += 1;
    }
    r
}

/// Squares every element of `base` `m` times, then multiplies it elementwise by `tail`.
fn exp_acc(base: [u64; STATE_WIDTH], tail: [u64; STATE_WIDTH], m: usize) -> (r: [u64; STATE_WIDTH])
    requires
        m < 64,
        is_state(base@),
    ensures
        forall|k: int| 0 <= k < STATE_WIDTH ==> r@[k] == fmul(fpow(base@[k], pow2(m as nat)), tail@[k]),
{
    let mut result = base;
    let mut n: usize = 0;
    proof {
        lemma2_to64();
        assert forall|k: int| 0 <= k < STATE_WIDTH implies result@[k] == fpow(base@[k], pow2(0)) by {
            lemma_fpow_one(base@[k]);
        }
    }
    while n < m
        invariant
            n <= m,
            forall|k: int| 0 <= k < STATE_WIDTH ==> result@[k] == fpow(base@[k], pow2(n as nat)),
        decreases m - n,
    {
        result = square_each(result);
        proof {
            assert forall|k: int| 0 <= k < STATE_WIDTH implies result@[k] == fpow(base@[k], pow2((n + 1) as nat)) by {
                lemma_pow2_unfold((n + 1) as nat);
                lemma_fpow_mul(base@[k], pow2(n as nat), pow2(n as nat));
            }
        }
        n += 1;
    }
    let mut i: usize = 0;
    let ghost squared = result;
    while i < STATE_WIDTH
        invariant
            i <= STATE_WIDTH,
            forall|k: int| 0 <= k < i ==> result@[k] == fmul(squared@[k], tail@[k]),
            forall|k: int| i <= k < STATE_WIDTH ==> result@[k] == squared@[k],
        decreases STATE_WIDTH - i,
    {
        result[i] = felt_mul(result[i], tail[i]);
        i += 1;
    }
    result
}

/// Replaces every element of the state by its 7th root, the power `INV_ALPHA`, by a fixed
/// chain of 72 squarings and multiplications per element.
pub fn apply_inv_sbox(state: &mut [u64; STATE_WIDTH])
    requires
        is_state(old(state)@),
    ensures
        final(state)@ == inv_sbox_state(old(state)@),
{
    let ghost s0 = state@;
    // INV_ALPHA = 0b1001001001001001001001001001000110110110110110110110110110110111
    let t1 = square_each(*state);
    let t2 = square_each(t1);
    proof {
        assert forall|k: int| 0 <= k < STATE_WIDTH implies #[trigger] t1@[k] == fpow(s0[k], 2) by {
            assert(is_felt(s0[k]));
            lemma_fpow_one(s0[k]);
            lemma_fpow_mul(s0[k], 1, 1);
        }
        assert forall|k: int| 0 <= k < STATE_WIDTH implies is_felt(#[trigger] t2@[k])
            && t2@[k] == fpow(s0[k], 4) by {
            assert(t1@[k] == fpow(s0[k], 2));
            lemma_fpow_mul(s0[k], 2, 2);
        }
    }
    let t3 = exp_acc(t2, t2, 3);
    proof {
        lemma2_to64();
        assert forall|k: int| 0 <= k < STATE_WIDTH implies is_felt(#[trigger] t3@[k])
            && t3@[k] == fpow(s0[k], 36) by {
            lemma_fpow_fpow(s0[k], 4, 8);
            lemma_fpow_mul(s0[k], 32, 4);
        }
    }
    let t4 = exp_acc(t3, t3, 6);
    proof {
        assert forall|k: int| 0 <= k < STATE_WIDTH implies is_felt(#[trigger] t4@[k])
            && t4@[k] == fpow(s0[k], 2340) by {
            lemma_fpow_fpow(s0[k], 36, 64);
            lemma_fpow_mul(s0[k], 2304, 36);
        }
    }
    let t5 = exp_acc(t4, t4, 12);
    proof {
        assert forall|k: int| 0 <= k < STATE_WIDTH implies is_felt(#[trigger] t5@[k])
            && t5@[k] == fpow(s0[k], 9586980) by {
            lemma_fpow_fpow(s0[k], 2340, 4096);
            lemma_fpow_mul(s0[k], 9584640, 2340);
        }
    }
    let t6 = exp_acc(t5, t3, 6);
    proof {
        assert forall|k: int| 0 <= k < STATE_WIDTH implies is_felt(#[trigger] t6@[k])
            && t6@[k] == fpow(s0[k], 613566756) by {
            lemma_fpow_fpow(s0[k], 9586980, 64);
            lemma_fpow_mul(s0[k], 613566720, 36);
        }
    }
    let t7 = exp_acc(t6, t6, 31);
    proof {
        assert forall|k: int| 0 <= k < STATE_WIDTH implies is_felt(#[trigger] t7@[k])
            && t7@[k] == fpow(s0[k], 1317624576079972644) by {
            lemma_fpow_fpow(s0[k], 613566756, 2147483648);
            lemma_fpow_mul(s0[k], 1317624575466405888, 613566756);
        }
    }
    let mut i: usize = 0;
    while i < STATE_WIDTH
        invariant
            i <= STATE_WIDTH,
            is_state(s0),
            state@.len() == STATE_WIDTH,
            forall|k: int| 0 <= k < STATE_WIDTH ==> t1@[k] == fpow(s0[k], 2),
            forall|k: int| 0 <= k < STATE_WIDTH ==> t2@[k] == fpow(s0[k], 4),
            forall|k: int| 0 <= k < STATE_WIDTH ==> t6@[k] == fpow(s0[k], 613566756),
            forall|k: int| 0 <= k < STATE_WIDTH ==> t7@[k] == fpow(s0[k], 1317624576079972644),
            forall|k: int| 0 <= k < i ==> state@[k] == inv_sbox(s0[k]),
            forall|k: int| i <= k < STATE_WIDTH ==> state@[k] == s0[k],
        decreases STATE_WIDTH - i,
    {
        let x = state[i];
        let a = felt_square(felt_mul(felt_square(t7[i]), t6[i]));
        let a = felt_square(a);
        let b = felt_mul(felt_mul(t1[i], t2[i]), x);
        let r = felt_mul(a, b);
        proof {
            let ghost v = s0[i as int];
            assert(is_felt(v));
            lemma_fpow_one(v);
            lemma_fpow_mul(v, 1317624576079972644, 1317624576079972644);
            lemma_fpow_mul(v, 2635249152159945288, 613566756);
            lemma_fpow_mul(v, 2635249152773512044, 2635249152773512044);
            lemma_fpow_mul(v, 5270498305547024088, 5270498305547024088);
            lemma_fpow_mul(v, 2, 4);
            lemma_fpow_mul(v, 6, 1);
            lemma_fpow_mul(v, 10540996611094048176, 7);
        }
        state[i] = r;
        i += 1;
    }
    assert(state@ =~= inv_sbox_state(s0));
}

/// Multiplies the state by a 12 by 12 matrix over the field.
fn apply_matrix(m: &[[u64; STATE_WIDTH]; STATE_WIDTH], state: &mut [u64; STATE_WIDTH])
    ensures
        final(state)@ == mat_vec(*m, old(state)@),
        is_state(final(state)@),
{
    let mut result = [0u64; STATE_WIDTH];
    let mut i: usize = 0;
    while i < STATE_WIDTH
        invariant
            i <= STATE_WIDTH,
            forall|k: int| 0 <= k < i ==> result@[k] == mat_vec(*m, state@)[k],
        decreases STATE_WIDTH - i,
    {
        let mut acc: u64 = 0;
        let mut j: usize = 0;
        while j < STATE_WIDTH
            invariant
                i < STATE_WIDTH,
                j <= STATE_WIDTH,
                acc as int == dot(m[i as int]@, state@, j as nat) % (P as int),
            decreases STATE_WIDTH - j,
        {
            let prod = felt_mul(m[i][j], state[j]);
            proof {
                lemma_add_mod_noop(
                    dot(m[i as int]@, state@, j as nat),
                    (m[i as int][j as int] as int) * (state@[j as int] as int),
                    P as int,
                );
            }
            acc = felt_add(acc, prod);
            j += 1;
        }
        result[i] = acc;
        i += 1;
    }
    assert(result@ =~= mat_vec(*m, state@));
    *state = result;
}

/// Multiplies the state by the forward diffusion matrix.
pub fn apply_mds(state: &mut [u64; STATE_WIDTH])
    ensures
        final(state)@ == mat_vec(MDS, old(state)@),
        is_state(final(state)@),
{
    apply_matrix(&MDS, state);
}

/// Multiplies the state by the inverse diffusion matrix.
pub fn apply_inv_mds(state: &mut [u64; STATE_WIDTH])
    ensures
        final(state)@ == mat_vec(INV_MDS, old(state)@),
        is_state(final(state)@),
{
    apply_matrix(&INV_MDS, state);
}

/// Adds a vector of constants to the state elementwise.
fn add_constants(state: &mut [u64; STATE_WIDTH], ark: &[u64; STATE_WIDTH])
    ensures
        final(state)@ == add_state(old(state)@, ark@),
        is_state(final(state)@),
{
    let ghost s0 = state@;
    let mut i: usize = 0;
    while i < STATE_WIDTH
        invariant
            i <= STATE_WIDTH,
            forall|k: int| 0 <= k < i ==> state@[k] == fadd(s0[k], ark@[k]),
            forall|k: int| i <= k < STATE_WIDTH ==> state@[k] == s0[k],
        decreases STATE_WIDTH - i,
    {
        state[i] = felt_add(state[i], ark[i]);
        i += 1;
    }
    assert(state@ =~= add_state(s0, ark@));
}

/// Applies round `round` of the permutation to the state.
pub fn apply_round(state: &mut [u64; STATE_WIDTH], round: usize)
    requires
        is_state(old(state)@),
        round < NUM_ROUNDS,
    ensures
        final(state)@ == round_spec(old(state)@, round as int),
        is_state(final(state)@),
{
    apply_sbox(state);
    apply_mds(state);
    add_constants(state, &ARK1[round]);

    apply_inv_sbox(state);
    apply_mds(state);
    add_constants(state, &ARK2[round]);
}

/// Applies the full permutation, all rounds in order, to the state.
pub fn apply_permutation(state: &mut [u64; STATE_WIDTH])
    requires
        is_state(old(state)@),
    ensures
        final(state)@ == permutation(old(state)@),
        is_state(final(state)@),
{
    let ghost s0 = state@;
    let mut i: usize = 0;
    while i < NUM_ROUNDS
        invariant
            i <= NUM_ROUNDS,
            state@ == rounds(s0, i as nat),
            is_state(state@),
        decreases NUM_ROUNDS - i,
    {
        apply_round(state, i);
        i += 1;
    }
}

} // verus!
