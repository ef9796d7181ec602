//! The Rescue-XLIX permutation over the 64-bit prime field 2^64 - 2^32 + 1, its use as a
//! two-to-one compression function, and the algebraic constraint that checks one round of it.
pub mod air;
pub mod constants;
pub mod field;
pub mod hash;
pub mod permutation;
pub mod mds_inverse;
