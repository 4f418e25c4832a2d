//! Exact rational numbers of any size.
//!
//! A [`Rational`] is held as plain bytes, so that its value is visible to contracts; the arithmetic
//! itself is done by the `num` crate.
use num::bigint::BigInt;
use num::rational::BigRational;
use num::traits::cast::{FromPrimitive, ToPrimitive};
use num::traits::identities::One;
use vstd::arithmetic::power::pow;
use vstd::prelude::*;

verus! {

/// The value of `bytes` read as an unsigned number, least significant byte first.
pub open spec fn unsigned_le(bytes: Seq<u8>) -> int
    decreases bytes.len(),
{
    if bytes.len() == 0 {
        0
    } else {
        bytes[0] + 256 * unsigned_le(bytes.drop_first())
    }
}

/// The value of `bytes` read as a two's complement number, least significant byte first.
pub open spec fn signed_le(bytes: Seq<u8>) -> int {
    if bytes.len() > 0 && bytes.last() >= 0x80 {
        unsigned_le(bytes) - pow(256, bytes.len())
    } else {
        unsigned_le(bytes)
    }
}

/// `base` multiplied by itself `exp` times.
pub open spec fn real_pow(base: real, exp: nat) -> real
    decreases exp,
{
    if exp == 0 {
        1 as real
    } else {
        base * real_pow(base, (exp - 1) as nat)
    }
}

/// The least integer that is not below `x`.
pub open spec fn ceiling(x: real) -> int {
    -((-x).floor())
}

/// The integer part of `x`, rounding towards zero.
pub open spec fn truncation(x: real) -> int {
    if x >= 0 as real {
        x.floor()
    } else {
        -((-x).floor())
    }
}

/// `n` as a `u64`, if it is in range.
pub open spec fn int_to_u64(n: int) -> Option<u64> {
    if 0 <= n <= u64::MAX {
        Some(n as u64)
    } else {
        None
    }
}

/// An exact fraction of two whole numbers of any size.
#[derive(Debug)]
pub struct Rational {
    /// Numerator, in two's complement, least significant byte first
    pub numer: Vec<u8>,
    /// Denominator, in two's complement, least significant byte first
    pub denom: Vec<u8>,
}

impl View for Rational {
    type V = real;

    open spec fn view(&self) -> real {
        signed_le(self.numer@) as real / signed_le(self.denom@) as real
    }
}

impl Rational {
    /// The denominator is not zero.
    pub open spec fn wf(&self) -> bool {
        signed_le(self.denom@) != 0
    }

    /// The fraction of two numbers given in two's complement, least significant byte first, or
    /// `None` if the denominator is zero.
    pub fn new(numer: Vec<u8>, denom: Vec<u8>) -> (r: Option<Rational>)
        ensures
            r is None <==> signed_le(denom@) == 0,
            r matches Some(q) ==> q.numer == numer && q.denom == denom && q.wf(),
    {
        if all_zero(&denom) {
            None
        } else {
            Some(Rational { numer, denom })
        }
    }

    /// Is this number zero?
    pub fn is_zero(&self) -> (r: bool)
        requires
            self.wf(),
        ensures
            r <==> self@ == 0 as real,
    {
        let zero = all_zero(&self.numer);
        proof {
            let n = signed_le(self.numer@) as real;
            let d = signed_le(self.denom@) as real;
            assert(n / d * d == n) by (nonlinear_arith)
                requires
                    d != 0 as real,
            ;
            assert(n == 0 as real ==> n / d == 0 as real) by (nonlinear_arith)
                requires
                    d != 0 as real,
            ;
            assert(n / d == 0 as real ==> n / d * d == 0 as real) by (nonlinear_arith);
        }
        zero
    }
}

proof fn lemma_unsigned_le_bounds(bytes: Seq<u8>)
    ensures
        0 <= unsigned_le(bytes) < pow(256, bytes.len()),
        (forall|i: int| 0 <= i < bytes.len() ==> bytes[i] == 0) <==> unsigned_le(bytes) == 0,
    decreases bytes.len(),
{
    reveal(pow);
    if bytes.len() > 0 {
        let rest = bytes.drop_first();
        lemma_unsigned_le_bounds(rest);
        assert(forall|i: int| 0 <= i < rest.len() ==> rest[i] == bytes[i + 1]);
        if unsigned_le(bytes) == 0 {
            assert forall|i: int| 0 <= i < bytes.len() implies bytes[i] == 0 by {
                if i > 0 {
                    assert(rest[i - 1] == 0);
                }
            }
        }
    }
}

/// Are all the bytes zero? That is the case exactly for the number zero.
fn all_zero(bytes: &Vec<u8>) -> (r: bool)
    ensures
        r <==> signed_le(bytes@) == 0,
{
    proof {
        lemma_unsigned_le_bounds(bytes@);
    }
    let mut i: usize = 0;
    while i < bytes.len()
        invariant
            i <= bytes.len(),
            forall|j: int| 0 <= j < i ==> bytes[j] == 0,
            (forall|j: int| 0 <= j < bytes.len() ==> bytes@[j] == 0) <==> unsigned_le(bytes@) == 0,
            0 <= unsigned_le(bytes@) < pow(256, bytes@.len()),
        decreases bytes.len() - i,
    {
        if bytes[i] != 0 {
            return false;
        }
        i += 1;
    }
    true
}

/// `BigRational::one` of `num`: the number one.
#[verifier::external_body]
pub(crate) fn rational_one() -> (r: Rational)
    ensures
        r.wf(),
        r@ == 1 as real,
{
    let z = BigRational::one();
    Rational { numer: z.numer().to_signed_bytes_le(), denom: z.denom().to_signed_bytes_le() }
}

/// `BigRational::from_u64` of `num`: the whole number `n`, always present.
#[verifier::external_body]
pub(crate) fn rational_from_u64(n: u64) -> (r: Option<Rational>)
    ensures
        r is Some,
        r->0.wf(),
        r->0@ == n as real,
{
    BigRational::from_u64(n).map(|z| Rational {
        numer: z.numer().to_signed_bytes_le(),
        denom: z.denom().to_signed_bytes_le(),
    })
}

/// Multiplication of `BigRational`s of `num`: the exact product.
#[verifier::external_body]
pub(crate) fn rational_mul(a: &Rational, b: &Rational) -> (r: Rational)
    requires
        a.wf(),
        b.wf(),
    ensures
        r.wf(),
        r@ == a@ * b@,
{
    let x = BigRational::new(
        BigInt::from_signed_bytes_le(&a.numer),
        BigInt::from_signed_bytes_le(&a.denom),
    );
    let y = BigRational::new(
        BigInt::from_signed_bytes_le(&b.numer),
        BigInt::from_signed_bytes_le(&b.denom),
    );
    let z = x * y;
    Rational { numer: z.numer().to_signed_bytes_le(), denom: z.denom().to_signed_bytes_le() }
}

/// Division of `BigRational`s of `num`: the exact quotient, for a divisor that is not zero.
#[verifier::external_body]
pub(crate) fn rational_div(a: &Rational, b: &Rational) -> (r: Rational)
    requires
        a.wf(),
        b.wf(),
        b@ != 0 as real,
    ensures
        r.wf(),
        r@ == a@ / b@,
{
    let x = BigRational::new(
        BigInt::from_signed_bytes_le(&a.numer),
        BigInt::from_signed_bytes_le(&a.denom),
    );
    let y = BigRational::new(
        BigInt::from_signed_bytes_le(&b.numer),
        BigInt::from_signed_bytes_le(&b.denom),
    );
    let z = x / y;
    Rational { numer: z.numer().to_signed_bytes_le(), denom: z.denom().to_signed_bytes_le() }
}

/// Subtraction of `BigRational`s of `num`: the exact difference.
#[verifier::external_body]
pub(crate) fn rational_sub(a: &Rational, b: &Rational) -> (r: Rational)
    requires
        a.wf(),
        b.wf(),
    ensures
        r.wf(),
        r@ == a@ - b@,
{
    let x = BigRational::new(
        BigInt::from_signed_bytes_le(&a.numer),
        BigInt::from_signed_bytes_le(&a.denom),
    );
    let y = BigRational::new(
        BigInt::from_signed_bytes_le(&b.numer),
        BigInt::from_signed_bytes_le(&b.denom),
    );
    let z = x - y;
    Rational { numer: z.numer().to_signed_bytes_le(), denom: z.denom().to_signed_bytes_le() }
}

/// `pow` of `num::traits` on a `BigRational`: the exact power, which is one for the exponent zero.
#[verifier::external_body]
pub(crate) fn rational_pow(base: &Rational, exp: u8) -> (r: Rational)
    requires
        base.wf(),
    ensures
        r.wf(),
        r@ == real_pow(base@, exp as nat),
{
    let x = BigRational::new(
        BigInt::from_signed_bytes_le(&base.numer),
        BigInt::from_signed_bytes_le(&base.denom),
    );
    let z = num::traits::pow::pow(x, exp as usize);
    Rational { numer: z.numer().to_signed_bytes_le(), denom: z.denom().to_signed_bytes_le() }
}

/// `BigRational::ceil` of `num`: rounds up to a whole number.
#[verifier::external_body]
pub(crate) fn rational_ceil(a: &Rational) -> (r: Rational)
    requires
        a.wf(),
    ensures
        r.wf(),
        r@ == ceiling(a@) as real,
{
    let x = BigRational::new(
        BigInt::from_signed_bytes_le(&a.numer),
        BigInt::from_signed_bytes_le(&a.denom),
    );
    let z = x.ceil();
    Rational { numer: z.numer().to_signed_bytes_le(), denom: z.denom().to_signed_bytes_le() }
}

/// `BigRational::to_integer` of `num`: the integer part, rounding towards zero, in two's
/// complement, least significant byte first.
#[verifier::external_body]
pub(crate) fn rational_to_integer(a: &Rational) -> (r: Vec<u8>)
    requires
        a.wf(),
    ensures
        signed_le(r@) == truncation(a@),
{
    let x = BigRational::new(
        BigInt::from_signed_bytes_le(&a.numer),
        BigInt::from_signed_bytes_le(&a.denom),
    );
    x.to_integer().to_signed_bytes_le()
}

/// `BigInt::to_u64` of `num`: the number, if it fits into a `u64`.
#[verifier::external_body]
pub(crate) fn integer_to_u64(bytes: &Vec<u8>) -> (r: Option<u64>)
    ensures
        r == int_to_u64(signed_le(bytes@)),
{
    BigInt::from_signed_bytes_le(bytes).to_u64()
}

/// Bytes are two's complement, least significant byte first: no bytes are zero, the last byte counts
/// from minus 128 to 127, and a byte in front of others counts once where those count 256 times.
pub proof fn law_bytes_are_twos_complement(low: u8, rest: Seq<u8>)
    ensures
        signed_le(Seq::<u8>::empty()) == 0,
        signed_le(seq![low]) == if low < 128 {
            low as int
        } else {
            low - 256
        },
        rest.len() > 0 ==> signed_le(seq![low] + rest) == low + 256 * signed_le(rest),
{
    reveal(pow);
    reveal_with_fuel(unsigned_le, 2);
    reveal_with_fuel(pow, 2);
    assert(seq![low].drop_first() == Seq::<u8>::empty());
    assert((seq![low] + rest).drop_first() == rest);
    if rest.len() > 0 {
        assert((seq![low] + rest).last() == rest.last());
    }
}

/// A fraction times its denominator is its numerator.
pub proof fn law_value_is_quotient(q: Rational)
    requires
        q.wf(),
    ensures
        signed_le(q.denom@) != 0,
        q@ * signed_le(q.denom@) as real == signed_le(q.numer@) as real,
{
    let n = signed_le(q.numer@) as real;
    let d = signed_le(q.denom@) as real;
    assert(n / d * d == n) by (nonlinear_arith)
        requires
            d != 0 as real,
    ;
}

/// Rounding up gives the only whole number that is not below `x` and less than one above it;
/// truncation gives that number for a negative `x`, and otherwise the only one that is not above
/// `x` and less than one below it.
pub proof fn law_rounding(x: real, n: int)
    ensures
        ceiling(x) == n <==> ((n - 1) as real) < x && x <= n as real,
        x < 0 as real ==> truncation(x) == ceiling(x),
        x >= 0 as real ==> (truncation(x) == n <==> n as real <= x && x < (n + 1) as real),
        int_to_u64(n) is Some <==> 0 <= n < 0x1_0000_0000_0000_0000,
        int_to_u64(n) matches Some(m) ==> m == n,
{
}

} // verus!
