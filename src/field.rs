use vstd::prelude::*;
use vstd::arithmetic::power::{pow, lemma_pow1, lemma_pow_adds, lemma_pow_mod_noop, lemma_pow_multiplies};
use vstd::arithmetic::div_mod::{lemma_mul_mod_noop_general, lemma_small_mod};
use winterfell::math::fields::f64::BaseElement;
use winterfell::math::FieldElement;

verus! {

/// The field modulus, 2^64 - 2^32 + 1.
pub const P: u64 = 0xffffffff00000001;

/// A field element is held as its canonical integer, below the modulus.
pub open spec fn is_felt(x: u64) -> bool {
    x < P
}

/// Field addition on canonical integers.
pub open spec fn fadd(a: u64, b: u64) -> u64 {
    ((a + b) % (P as int)) as u64
}

/// Field subtraction on canonical integers.
pub open spec fn fsub(a: u64, b: u64) -> u64 {
    ((a - b) % (P as int)) as u64
}

/// Field multiplication on canonical integers.
pub open spec fn fmul(a: u64, b: u64) -> u64 {
    ((a * b) % (P as int)) as u64
}

/// `x` raised to the power `e` in the field.
pub open spec fn fpow(x: u64, e: nat) -> u64 {
    (pow(x as int, e) % (P as int)) as u64
}

/// Relies on winterfell's f64 `BaseElement` addition: the sum modulo the field modulus,
/// returned in canonical form by `as_int`.
#[verifier::external_body]
pub(crate) fn felt_add(a: u64, b: u64) -> (r: u64)
    ensures
        r == fadd(a, b),
{
    (BaseElement::new(a) + BaseElement::new(b)).as_int()
}

/// Relies on winterfell's f64 `BaseElement` subtraction: the difference modulo the field
/// modulus, returned in canonical form by `as_int`.
#[verifier::external_body]
pub(crate) fn felt_sub(a: u64, b: u64) -> (r: u64)
    ensures
        r == fsub(a, b),
{
    (BaseElement::new(a) - BaseElement::new(b)).as_int()
}

/// Relies on winterfell's f64 `BaseElement` multiplication: the product modulo the field
/// modulus, returned in canonical form by `as_int`.
#[verifier::external_body]
pub(crate) fn felt_mul(a: u64, b: u64) -> (r: u64)
    ensures
        r == fmul(a, b),
{
    (BaseElement::new(a) * BaseElement::new(b)).as_int()
}

/// Relies on winterfell's `FieldElement::square` for the f64 `BaseElement`: the square modulo
/// the field modulus, returned in canonical form by `as_int`.
#[verifier::external_body]
pub(crate) fn felt_square(a: u64) -> (r: u64)
    ensures
        r == fmul(a, a),
{
    BaseElement::new(a).square().as_int()
}

/// A canonical element is its own first power.
pub proof fn lemma_fpow_one(x: u64)
    requires
        is_felt(x),
    ensures
        fpow(x, 1) == x,
{
    lemma_pow1(x as int);
    lemma_small_mod(x as nat, P as nat);
}

/// Multiplying two powers of the same element adds the exponents.
pub proof fn lemma_fpow_mul(x: u64, a: nat, b: nat)
    ensures
        fmul(fpow(x, a), fpow(x, b)) == fpow(x, a + b),
{
    lemma_mul_mod_noop_general(pow(x as int, a), pow(x as int, b), P as int);
    lemma_pow_adds(x as int, a, b);
}

/// Raising a power of an element to a further power multiplies the exponents.
pub proof fn lemma_fpow_fpow(x: u64, a: nat, n: nat)
    ensures
        pow(fpow(x, a) as int, n) % (P as int) == fpow(x, a * n) as int,
{
    lemma_pow_mod_noop(pow(x as int, a), n, P as int);
    lemma_pow_multiplies(x as int, a, n);
}

} // verus!
