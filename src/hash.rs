use vstd::prelude::*;
use crate::constants::{STATE_WIDTH, NUM_ROUNDS, HASH_CYCLE_LEN, CAPACITY_WIDTH, DIGEST_WIDTH, ARK1, ARK2};
use crate::field::is_felt;
use crate::permutation::{permutation, apply_permutation};

verus! {

/// Value of the first capacity element when two digests are merged.
pub const MERGE_DOMAIN: u64 = 1;

/// The output of the compression function: four field elements.
#[derive(Clone, Copy, Debug, PartialEq, Eq)]
pub struct Digest {
    pub elements: [u64; DIGEST_WIDTH],
}

impl Digest {
    /// Wraps four field elements as a digest.
    pub fn new(elements: [u64; DIGEST_WIDTH]) -> (r: Digest)
        ensures
            r.elements == elements,
    {
        Digest { elements }
    }

    /// The four field elements of the digest.
    pub fn as_elements(&self) -> (r: [u64; DIGEST_WIDTH])
        ensures
            r == self.elements,
    {
        self.elements
    }
}

/// A digest holds four canonical field elements.
pub open spec fn is_digest(d: Seq<u64>) -> bool {
    &&& d.len() == DIGEST_WIDTH
    &&& forall|i: int| 0 <= i < DIGEST_WIDTH ==> is_felt(#[trigger] d[i])
}

/// The state the compression function starts from: the domain value and three zeros in the
/// capacity segment, then the elements of `a` and of `b` in the rate segment.
pub open spec fn merge_initial_state(a: Seq<u64>, b: Seq<u64>) -> Seq<u64> {
    seq![MERGE_DOMAIN, 0u64, 0u64, 0u64] + a + b
}

/// The digest of two digests: the four elements after the capacity segment of the permuted
/// initial state.
pub open spec fn merge_spec(a: Seq<u64>, b: Seq<u64>) -> Seq<u64> {
    permutation(merge_initial_state(a, b)).subrange(
        CAPACITY_WIDTH as int,
        (CAPACITY_WIDTH + DIGEST_WIDTH) as int,
    )
}

/// Compresses two digests into one with the permutation.
pub fn merge_evil(values: &[Digest; 2]) -> (r: Digest)
    requires
        is_digest(values[0].elements@),
        is_digest(values[1].elements@),
    ensures
        r.elements@ == merge_spec(values[0].elements@, values[1].elements@),
        is_digest(r.elements@),
{
    let ghost a = values[0].elements@;
    let ghost b = values[1].elements@;
    let mut state = [0u64; STATE_WIDTH];
    state[0] = MERGE_DOMAIN;
    let mut i: usize = 0;
    while i < DIGEST_WIDTH
        invariant
            i <= DIGEST_WIDTH,
            a == values[0].elements@,
            b == values[1].elements@,
            forall|k: int| 0 <= k < STATE_WIDTH ==> state@[k] == if k == 0 {
                MERGE_DOMAIN
            } else if 4 <= k < 4 + i {
                a[k - 4]
            } else if 8 <= k < 8 + i {
                b[k - 8]
            } else {
                0u64
            },
        decreases DIGEST_WIDTH - i,
    {
        state[CAPACITY_WIDTH + i] = values[0].elements[i];
        state[CAPACITY_WIDTH + DIGEST_WIDTH + i] = values[1].elements[i];
        i += 1;
    }
    assert(state@ =~= merge_initial_state(a, b));
    apply_permutation(&mut state);
    let out = [state[4], state[5], state[6], state[7]];
    assert(out@ =~= merge_spec(a, b));
    Digest::new(out)
}

/// The entry of the column-major round-constant table at column `j` and row `i`: the first
/// constants in columns below the state width, the second constants above it, and zero in
/// the idle row.
pub open spec fn round_constant_at(j: int, i: int) -> u64 {
    if i >= NUM_ROUNDS {
        0u64
    } else if j < STATE_WIDTH {
        ARK1[i][j]
    } else {
        ARK2[i][j - STATE_WIDTH]
    }
}

/// Returns both round-constant tables in column-major form: one column of `HASH_CYCLE_LEN`
/// rows per state element, first-half columns then second-half columns, the last row zero.
pub fn get_round_constants() -> (r: Vec<Vec<u64>>)
    ensures
        r@.len() == 2 * STATE_WIDTH,
        forall|j: int| 0 <= j < 2 * STATE_WIDTH ==> (#[trigger] r@[j])@.len() == HASH_CYCLE_LEN,
        forall|j: int, i: int|
            0 <= j < 2 * STATE_WIDTH && 0 <= i < HASH_CYCLE_LEN ==> #[trigger] r@[j]@[i]
                == round_constant_at(j, i),
{
    let mut constants: Vec<Vec<u64>> = Vec::new();
    let mut j: usize = 0;
    while j < 2 * STATE_WIDTH
        invariant
            j <= 2 * STATE_WIDTH,
            constants@.len() == j,
            forall|c: int| 0 <= c < j ==> (#[trigger] constants@[c])@.len() == HASH_CYCLE_LEN,
            forall|c: int, i: int|
                0 <= c < j && 0 <= i < HASH_CYCLE_LEN ==> #[trigger] constants@[c]@[i]
                    == round_constant_at(c, i),
        decreases 2 * STATE_WIDTH - j,
    {
        let mut column: Vec<u64> = Vec::new();
        let mut i: usize = 0;
        while i < NUM_ROUNDS
            invariant
                j < 2 * STATE_WIDTH,
                i <= NUM_ROUNDS,
                column@.len() == i,
                forall|k: int| 0 <= k < i ==> column@[k] == round_constant_at(j as int, k),
            decreases NUM_ROUNDS - i,
        {
            if j < STATE_WIDTH {
                column.push(ARK1[i][j]);
            } else {
                column.push(ARK2[i][j - STATE_WIDTH]);
            }
            i += 1;
        }
        column.push(0);
        constants.push(column);
        j += 1;
    }
    constants
}

} // verus!
