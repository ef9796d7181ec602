use rescue_air::air::enforce_round;
use rescue_air::constants::{ARK1, ARK2, HASH_CYCLE_LEN, INV_MDS, MDS, NUM_ROUNDS, STATE_WIDTH};
use rescue_air::field::P;
use rescue_air::hash::{get_round_constants, merge_evil, Digest, MERGE_DOMAIN};
use rescue_air::permutation::{
    apply_inv_mds, apply_inv_sbox, apply_mds, apply_permutation, apply_round, apply_sbox,
};

fn sample_state() -> [u64; 12] {
    [
        1,
        2,
        3,
        P - 1,
        0,
        123456789,
        P - 2,
        1 << 63,
        0xdeadbeef,
        42,
        7,
        P - 12345,
    ]
}

fn round_constant_row(r: usize) -> Vec<u64> {
    let mut ark = Vec::new();
    ark.extend_from_slice(&ARK1[r]);
    ark.extend_from_slice(&ARK2[r]);
    ark
}

#[test]
fn permutation_of_zero_state_matches_golden_vector() {
    let mut state = [0u64; 12];
    apply_permutation(&mut state);
    assert_eq!(
        state,
        [
            101388698849418122,
            9778956018704057171,
            16436180040651605410,
            11627109805559323268,
            17316687291377951191,
            504883129833010857,
            3680616560826554072,
            2709829368087187398,
            16514918333825264213,
            14932644035703503140,
            5390874107065675133,
            5904851535032084851,
        ]
    );
}

#[test]
fn permutation_is_deterministic() {
    let mut a = sample_state();
    let mut b = sample_state();
    apply_permutation(&mut a);
    apply_permutation(&mut b);
    assert_eq!(a, b);
    assert_ne!(a, sample_state());
}

#[test]
fn single_round_matches_golden_vectors() {
    let mut state = [0u64; 12];
    apply_round(&mut state, 0);
    assert_eq!(
        state,
        [
            2902144124587043374,
            4441469381093090323,
            15236008683741120093,
            12992699487999064326,
            14813880677204292083,
            15401640285286289143,
            1067563162761148786,
            12198015406568938794,
            5542762115526756905,
            13593768791046432766,
            17407357591029570738,
            8533712385885521101,
        ]
    );
    let mut state = [1u64, 2, 3, 4, 5, 6, 7, 8, 9, 10, 11, 12];
    apply_round(&mut state, 3);
    assert_eq!(
        state,
        [
            6709006100976761491,
            9856954619881305298,
            6164302604422283857,
            17262747756637291446,
            17013831659499981926,
            3480975505269547346,
            18418992839988547061,
            222226079302305849,
            15506611789602358269,
            16306010464510013374,
            8027731723695059094,
            7389938427435030072,
        ]
    );
}

#[test]
fn permutation_is_seven_rounds_in_order() {
    let mut whole = sample_state();
    apply_permutation(&mut whole);
    let mut stepped = sample_state();
    for r in 0..NUM_ROUNDS {
        apply_round(&mut stepped, r);
    }
    assert_eq!(whole, stepped);
}

#[test]
fn sbox_is_seventh_power() {
    let mut state = [0u64, 1, 2, 3, P - 1, 10, 0, 0, 0, 0, 0, 0];
    apply_sbox(&mut state);
    assert_eq!(state[0], 0);
    assert_eq!(state[1], 1);
    assert_eq!(state[2], 128);
    assert_eq!(state[3], 2187);
    assert_eq!(state[4], P - 1);
    assert_eq!(state[5], 10_000_000);
}

#[test]
fn sbox_reduces_large_powers() {
    let mut state = [0u64; 12];
    state[0] = 1 << 32;
    apply_sbox(&mut state);
    // 2^224 mod p; with 2^96 = -1 mod p, 2^224 = 2^(2*96+32) = 2^32
    assert_eq!(state[0], 1 << 32);
}

#[test]
fn inv_sbox_undoes_sbox() {
    let original = sample_state();
    let mut state = original;
    apply_sbox(&mut state);
    apply_inv_sbox(&mut state);
    assert_eq!(state, original);
}

#[test]
fn sbox_undoes_inv_sbox() {
    let original = sample_state();
    let mut state = original;
    apply_inv_sbox(&mut state);
    assert_ne!(state, original);
    apply_sbox(&mut state);
    assert_eq!(state, original);
}

#[test]
fn inv_sbox_of_fixed_points() {
    let mut state = [0u64; 12];
    state[1] = 1;
    state[2] = P - 1;
    apply_inv_sbox(&mut state);
    assert_eq!(state[0], 0);
    assert_eq!(state[1], 1);
    assert_eq!(state[2], P - 1);
    // 128 = 2^7, so its 7th root is 2
    let mut state = [128u64; 12];
    apply_inv_sbox(&mut state);
    assert_eq!(state, [2u64; 12]);
}

#[test]
fn mds_of_unit_vector_is_first_column() {
    let mut state = [0u64; 12];
    state[0] = 1;
    apply_mds(&mut state);
    let mut column = [0u64; 12];
    for i in 0..STATE_WIDTH {
        column[i] = MDS[i][0];
    }
    assert_eq!(state, column);
    assert_eq!(state[0], 2108866337646019936);
    assert_eq!(state[11], 10318314766641004576);
}

#[test]
fn inv_mds_undoes_mds() {
    let original = sample_state();
    let mut state = original;
    apply_mds(&mut state);
    assert_ne!(state, original);
    apply_inv_mds(&mut state);
    assert_eq!(state, original);
}

#[test]
fn mds_undoes_inv_mds() {
    let original = sample_state();
    let mut state = original;
    apply_inv_mds(&mut state);
    apply_mds(&mut state);
    assert_eq!(state, original);
}

#[test]
fn inv_mds_of_unit_vector_is_first_column() {
    let mut state = [0u64; 12];
    state[0] = 1;
    apply_inv_mds(&mut state);
    for i in 0..STATE_WIDTH {
        assert_eq!(state[i], INV_MDS[i][0]);
    }
}

#[test]
fn round_constants_are_column_major_with_idle_row() {
    let constants = get_round_constants();
    assert_eq!(constants.len(), 2 * STATE_WIDTH);
    for column in constants.iter() {
        assert_eq!(column.len(), HASH_CYCLE_LEN);
        assert_eq!(column[HASH_CYCLE_LEN - 1], 0);
    }
    for i in 0..NUM_ROUNDS {
        for j in 0..STATE_WIDTH {
            assert_eq!(constants[j][i], ARK1[i][j]);
            assert_eq!(constants[j + STATE_WIDTH][i], ARK2[i][j]);
        }
    }
}

#[test]
fn merge_of_ones_matches_golden_digest() {
    let d = Digest::new([1, 1, 1, 1]);
    let r = merge_evil(&[d, d]);
    assert_eq!(
        r.as_elements(),
        [
            8489886482357853090,
            5806520712527137906,
            2306837461038510208,
            11311572728283049995,
        ]
    );
}

#[test]
fn merge_matches_permutation_of_initial_state() {
    let a = Digest::new([1, 2, 3, 4]);
    let b = Digest::new([5, 6, 7, 8]);
    let r = merge_evil(&[a, b]);
    assert_eq!(
        r.as_elements(),
        [
            11634730874501446055,
            16568683260350479340,
            10900520811906445816,
            13331977041677908215,
        ]
    );
    let mut state = [MERGE_DOMAIN, 0, 0, 0, 1, 2, 3, 4, 5, 6, 7, 8];
    apply_permutation(&mut state);
    assert_eq!(r.as_elements(), [state[4], state[5], state[6], state[7]]);
}

#[test]
fn merge_is_deterministic_and_order_sensitive() {
    let a = Digest::new([1, 2, 3, 4]);
    let b = Digest::new([5, 6, 7, 8]);
    assert_eq!(merge_evil(&[a, b]), merge_evil(&[a, b]));
    assert_ne!(merge_evil(&[a, b]), merge_evil(&[b, a]));
}

#[test]
fn merge_changes_when_any_input_element_changes() {
    let base = [Digest::new([1, 2, 3, 4]), Digest::new([5, 6, 7, 8])];
    let reference = merge_evil(&base);
    for which in 0..2 {
        for k in 0..4 {
            let mut perturbed = base;
            let mut elements = perturbed[which].as_elements();
            elements[k] = (elements[k] + 1) % P;
            perturbed[which] = Digest::new(elements);
            assert_ne!(merge_evil(&perturbed), reference);
        }
    }
}

#[test]
fn enforce_round_is_zero_on_true_transition() {
    for r in 0..NUM_ROUNDS {
        let current = sample_state();
        let mut next = current;
        apply_round(&mut next, r);
        let ark = round_constant_row(r);
        let mut result = vec![0u64; STATE_WIDTH];
        enforce_round(&mut result, &current, &next, &ark, 1);
        assert_eq!(result, vec![0u64; STATE_WIDTH]);
    }
}

#[test]
fn enforce_round_detects_any_changed_element() {
    let current = sample_state();
    let mut next = current;
    apply_round(&mut next, 2);
    let ark = round_constant_row(2);
    for k in 0..STATE_WIDTH {
        let mut wrong = next;
        wrong[k] = (wrong[k] + 1) % P;
        let mut result = vec![0u64; STATE_WIDTH];
        enforce_round(&mut result, &current, &wrong, &ark, 1);
        assert!(result.iter().any(|&v| v != 0));
    }
}

#[test]
fn enforce_round_with_zero_flag_is_vacuous() {
    let current = sample_state();
    let next = [5u64; 12];
    let ark = round_constant_row(0);
    let mut result = vec![0u64; STATE_WIDTH];
    enforce_round(&mut result, &current, &next, &ark, 0);
    assert_eq!(result, vec![0u64; STATE_WIDTH]);
}

#[test]
fn enforce_round_accumulates_into_result() {
    let current = sample_state();
    let mut next = current;
    apply_round(&mut next, 4);
    next[0] = (next[0] + 1) % P;
    let ark = round_constant_row(4);
    let mut once = vec![0u64; STATE_WIDTH + 2];
    enforce_round(&mut once, &current, &next, &ark, 1);
    assert_ne!(once[0], 0);
    let mut preset = vec![3u64; STATE_WIDTH + 2];
    enforce_round(&mut preset, &current, &next, &ark, 1);
    for i in 0..STATE_WIDTH {
        assert_eq!(preset[i], (once[i] + 3) % P);
    }
    assert_eq!(preset[STATE_WIDTH], 3);
    assert_eq!(preset[STATE_WIDTH + 1], 3);
    let mut doubled = vec![0u64; STATE_WIDTH];
    enforce_round(&mut doubled, &current, &next, &ark, 2);
    for i in 0..STATE_WIDTH {
        assert_eq!(doubled[i], ((once[i] as u128 * 2) % (P as u128)) as u64);
    }
}
