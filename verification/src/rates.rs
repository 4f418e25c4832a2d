//! Conversion of source amounts into minimum destination amounts.
use crate::rational::{
    integer_to_u64, rational_ceil, rational_div, rational_from_u64, rational_mul, rational_one,
    rational_pow, rational_sub, rational_to_integer, Rational,
};
use vstd::arithmetic::power::pow;
use vstd::prelude::*;

verus! {

/// Prices of the two assets of a payment, in a common unit. A price is absent if it is no finite
/// number.
#[derive(Debug)]
pub struct Prices {
    /// Price of the asset that is sent
    pub source: Option<Rational>,
    /// Price of the asset that is delivered
    pub destination: Option<Rational>,
}

impl Prices {
    /// The prices are well-formed numbers.
    pub open spec fn wf(&self) -> bool {
        &&& self.source matches Some(p) ==> p.wf()
        &&& self.destination matches Some(p) ==> p.wf()
    }
}

/// The number of destination base units per source base unit: one within the same asset, otherwise
/// the quotient of the two prices, if both are known and the destination price is not zero.
pub open spec fn exchange_rate(
    source_code: Seq<char>,
    dest_code: Seq<char>,
    prices: Option<Prices>,
) -> Option<real> {
    if source_code == dest_code {
        Some(1 as real)
    } else {
        match prices {
            Some(Prices { source: Some(s), destination: Some(d) }) => if d@ == 0 as real {
                None
            } else {
                Some(s@ / d@)
            },
            _ => None,
        }
    }
}

/// `source_amount`, in units of ten to the minus `source_scale`, converted at `rate` less
/// `slippage` into units of ten to the minus `dest_scale`, before rounding.
pub open spec fn converted_amount(
    source_amount: int,
    source_scale: nat,
    dest_scale: nat,
    rate: real,
    slippage: real,
) -> real {
    source_amount as real / crate::rational::real_pow(10 as real, source_scale) * rate * (1 as real
        - slippage) * crate::rational::real_pow(10 as real, dest_scale)
}

/// The converted amount, rounded up. There is none if the destination asset, the rate or the
/// slippage is unknown, or if the rounded amount is no `u64`.
pub open spec fn min_destination_amount(
    prices: Option<Prices>,
    source_amount: u64,
    source_scale: u8,
    source_code: Seq<char>,
    dest_scale: Option<u8>,
    dest_code: Option<Seq<char>>,
    slippage: Option<real>,
) -> Option<u64> {
    match (dest_code, dest_scale, slippage) {
        (Some(code), Some(scale), Some(slip)) => match exchange_rate(source_code, code, prices) {
            Some(rate) => crate::rational::int_to_u64(
                crate::rational::ceiling(
                    converted_amount(
                        source_amount as int,
                        source_scale as nat,
                        scale as nat,
                        rate,
                        slip,
                    ),
                ),
            ),
            None => None,
        },
        _ => None,
    }
}

/// The view of an optional string.
pub open spec fn code_view(code: Option<&str>) -> Option<Seq<char>> {
    match code {
        Some(c) => Some(c@),
        None => None,
    }
}

/// The value of an optional number.
pub open spec fn rational_view(number: Option<Rational>) -> Option<real> {
    match number {
        Some(q) => Some(q@),
        None => None,
    }
}

pub(crate) proof fn lemma_ten_pow_positive(exp: nat)
    ensures
        crate::rational::real_pow(10 as real, exp) >= 1 as real,
    decreases exp,
{
    if exp > 0 {
        lemma_ten_pow_positive((exp - 1) as nat);
    }
}

/// Convert the given source amount into a destination amount, at the given prices, and subtract
/// slippage to determine a minimum destination amount.
/// Returns None if destination asset details are unknown or rate cannot be calculated.
pub fn get_min_destination_amount(
    prices: &Option<Prices>,
    source_amount: u64,
    source_scale: u8,
    source_code: &str,
    dest_scale: Option<u8>,
    dest_code: Option<&str>,
    slippage: &Option<Rational>,
) -> (r: Option<u64>)
    requires
        *prices matches Some(p) ==> p.wf(),
        *slippage matches Some(s) ==> s.wf(),
    ensures
        r == min_destination_amount(
            *prices,
            source_amount,
            source_scale,
            source_code@,
            dest_scale,
            code_view(dest_code),
            rational_view(*slippage),
        ),
{
    let dest_code = dest_code?;
    let dest_scale = dest_scale?;

    // Fetch the exchange rate
    let rate = if source_code.to_owned() == dest_code.to_owned() {
        rational_one()
    } else {
        match prices {
            Some(p) => match (&p.source, &p.destination) {
                (Some(source), Some(destination)) => {
                    if destination.is_zero() {
                        return None;
                    }
                    rational_div(source, destination)
                },
                _ => {
                    return None;
                },
            },
            None => {
                return None;
            },
        }
    };

    // Subtract slippage from rate
    let slippage = match slippage {
        Some(s) => s,
        None => {
            return None;
        },
    };
    let net_rate = rational_mul(&rate, &rational_sub(&rational_one(), slippage));

    let ten = rational_from_u64(10)?;
    let source_units = rational_pow(&ten, source_scale);
    let dest_units = rational_pow(&ten, dest_scale);
    proof {
        lemma_ten_pow_positive(source_scale as nat);
    }

    // First, convert scaled source amount to base unit
    let base_amount = rational_div(&rational_from_u64(source_amount)?, &source_units);

    // Apply exchange rate
    let dest_base_amount = rational_mul(&base_amount, &net_rate);

    // Convert destination amount in base units to scaled units
    let dest_amount = rational_mul(&dest_base_amount, &dest_units);

    // For safety, always round up
    let rounded = rational_ceil(&dest_amount);

    proof {
        let a = base_amount@;
        let b = rate@;
        let c = 1 as real - slippage@;
        assert(a * (b * c) == a * b * c) by (nonlinear_arith);
        assert(dest_amount@ == converted_amount(
            source_amount as int,
            source_scale as nat,
            dest_scale as nat,
            b,
            slippage@,
        ));
        assert(exchange_rate(source_code@, dest_code@, *prices) == Some(b));
    }
    integer_to_u64(&rational_to_integer(&rounded))
}

/// There is no minimum if the destination asset or its scale is unknown, if the two assets differ and
/// one of the prices is unknown or the destination price is zero, or if the slippage is no finite
/// number.
pub proof fn law_no_minimum_without_rate(
    prices: Option<Prices>,
    source_amount: u64,
    source_scale: u8,
    source_code: Seq<char>,
    dest_scale: Option<u8>,
    dest_code: Option<Seq<char>>,
    slippage: Option<real>,
)
    requires
        dest_scale is None || dest_code is None || slippage is None || (dest_code != Some(
            source_code,
        ) && (prices is None || prices->0.source is None || prices->0.destination is None
            || prices->0.destination->0@ == 0 as real)),
    ensures
        min_destination_amount(
            prices,
            source_amount,
            source_scale,
            source_code,
            dest_scale,
            dest_code,
            slippage,
        ) is None,
{
}

/// The minimum is the converted amount rounded up: not below it, and less than one unit above it.
pub proof fn law_minimum_rounds_up(
    prices: Option<Prices>,
    source_amount: u64,
    source_scale: u8,
    source_code: Seq<char>,
    dest_scale: u8,
    dest_code: Seq<char>,
    slippage: real,
)
    ensures
        min_destination_amount(
            prices,
            source_amount,
            source_scale,
            source_code,
            Some(dest_scale),
            Some(dest_code),
            Some(slippage),
        ) matches Some(n) ==> {
            let rate = exchange_rate(source_code, dest_code, prices)->0;
            let exact = converted_amount(
                source_amount as int,
                source_scale as nat,
                dest_scale as nat,
                rate,
                slippage,
            );
            exact <= n as real && (n as real) < exact + 1 as real
        },
{
}

/// A payment of some money at a rate above zero, of which slippage leaves something, never has a
/// minimum of zero, however little the money is worth.
pub proof fn law_minimum_is_not_zero(
    prices: Option<Prices>,
    source_amount: u64,
    source_scale: u8,
    source_code: Seq<char>,
    dest_scale: u8,
    dest_code: Seq<char>,
    slippage: real,
)
    requires
        source_amount > 0,
        slippage < 1 as real,
        exchange_rate(source_code, dest_code, prices) matches Some(rate) ==> rate > 0 as real,
    ensures
        min_destination_amount(
            prices,
            source_amount,
            source_scale,
            source_code,
            Some(dest_scale),
            Some(dest_code),
            Some(slippage),
        ) != Some(0u64),
{
    if let Some(rate) = exchange_rate(source_code, dest_code, prices) {
        lemma_ten_pow_positive(source_scale as nat);
        lemma_ten_pow_positive(dest_scale as nat);
        let a = source_amount as real;
        let p = crate::rational::real_pow(10 as real, source_scale as nat);
        let q = crate::rational::real_pow(10 as real, dest_scale as nat);
        let c = 1 as real - slippage;
        assert(a / p > 0 as real) by (nonlinear_arith)
            requires
                a > 0 as real,
                p > 0 as real,
        ;
        let x = a / p;
        assert(x * rate * c * q > 0 as real) by (nonlinear_arith)
            requires
                x > 0 as real,
                rate > 0 as real,
                c > 0 as real,
                q > 0 as real,
        ;
    }
}

/// Within one scale, amounts are converted without regard to the scale.
pub proof fn law_equal_scales_cancel(source_amount: int, scale: nat, rate: real, slippage: real)
    ensures
        converted_amount(source_amount, scale, scale, rate, slippage) == source_amount as real * rate
            * (1 as real - slippage),
{
    lemma_ten_pow_positive(scale);
    let a = source_amount as real;
    let p = crate::rational::real_pow(10 as real, scale);
    let c = 1 as real - slippage;
    assert(a / p * p == a) by (nonlinear_arith)
        requires
            p != 0 as real,
    ;
    let x = a / p;
    assert(x * rate * c * p == x * p * rate * c) by (nonlinear_arith);
}

/// Within one asset and scale and without slippage, the minimum is the source amount itself.
pub proof fn law_same_asset_is_exact(
    prices: Option<Prices>,
    source_amount: u64,
    scale: u8,
    code: Seq<char>,
)
    ensures
        min_destination_amount(
            prices,
            source_amount,
            scale,
            code,
            Some(scale),
            Some(code),
            Some(0 as real),
        ) == Some(source_amount),
{
    law_equal_scales_cancel(source_amount as int, scale as nat, 1 as real, 0 as real);
    let a = source_amount as real;
    assert(a * (1 as real) * (1 as real - 0 as real) == a) by (nonlinear_arith);
}

proof fn lemma_ten_pow_splits(a: nat, b: nat)
    ensures
        crate::rational::real_pow(10 as real, a + b) == crate::rational::real_pow(10 as real, a)
            * crate::rational::real_pow(10 as real, b),
    decreases a,
{
    let q = crate::rational::real_pow(10 as real, b);
    if a == 0 {
        assert(1 as real * q == q) by (nonlinear_arith);
    } else {
        lemma_ten_pow_splits((a - 1) as nat, b);
        let p = crate::rational::real_pow(10 as real, (a - 1) as nat);
        assert((a + b - 1) as nat == (a - 1) as nat + b);
        assert(10 as real * (p * q) == (10 as real * p) * q) by (nonlinear_arith);
    }
}

pub(crate) proof fn lemma_ten_pow_is_whole(exp: nat)
    ensures
        crate::rational::real_pow(10 as real, exp) == pow(10, exp) as real,
    decreases exp,
{
    reveal(pow);
    if exp > 0 {
        lemma_ten_pow_is_whole((exp - 1) as nat);
    }
}

/// Within one asset and without slippage, going to a scale that is not smaller multiplies the amount
/// by a power of ten, and the result converts back to the amount itself: nothing is lost.
pub proof fn law_same_asset_rescales_exactly(
    prices: Option<Prices>,
    source_amount: u64,
    source_scale: u8,
    dest_scale: u8,
    code: Seq<char>,
)
    requires
        source_scale <= dest_scale,
    ensures
        ({
            let minimum = min_destination_amount(
                prices,
                source_amount,
                source_scale,
                code,
                Some(dest_scale),
                Some(code),
                Some(0 as real),
            );
            &&& minimum == crate::rational::int_to_u64(
                source_amount * pow(10, (dest_scale - source_scale) as nat),
            )
            &&& minimum matches Some(n) ==> min_destination_amount(
                prices,
                n,
                dest_scale,
                code,
                Some(source_scale),
                Some(code),
                Some(0 as real),
            ) == Some(source_amount)
        }),
{
    let k = (dest_scale - source_scale) as nat;
    lemma_ten_pow_positive(source_scale as nat);
    lemma_ten_pow_positive(k);
    lemma_ten_pow_splits(source_scale as nat, k);
    lemma_ten_pow_is_whole(k);
    let a = source_amount as real;
    let p = crate::rational::real_pow(10 as real, source_scale as nat);
    let t = crate::rational::real_pow(10 as real, k);
    let q = crate::rational::real_pow(10 as real, dest_scale as nat);
    assert((source_scale as nat) + k == dest_scale as nat);
    assert(q == p * t);
    let slip = 1 as real - 0 as real;
    assert(a / p * p == a) by (nonlinear_arith)
        requires
            p != 0 as real,
    ;
    let x = a / p;
    assert(x * (1 as real) * slip * q == a * t) by (nonlinear_arith)
        requires
            x * p == a,
            q == p * t,
            slip == 1 as real,
    ;
    let ten = pow(10, k);
    let whole = source_amount * ten;
    assert((source_amount * ten) as real == source_amount as real * ten as real)
        by (nonlinear_arith);
    assert(whole as real == a * t);
    assert(p * t > 0 as real) by (nonlinear_arith)
        requires
            p > 0 as real,
            t > 0 as real,
    ;
    let n = whole as real;
    assert(n / q * q == n) by (nonlinear_arith)
        requires
            q != 0 as real,
    ;
    let y = n / q;
    assert(y * p == a) by (nonlinear_arith)
        requires
            y * q == a * t,
            q == p * t,
            t > 0 as real,
    ;
    assert(y * (1 as real) * slip * p == a) by (nonlinear_arith)
        requires
            y * p == a,
            slip == 1 as real,
    ;
}

/// At a rate and slippage that leave something, more money never has a lower minimum.
pub proof fn law_minimum_grows_with_amount(
    lower: int,
    higher: int,
    source_scale: nat,
    dest_scale: nat,
    rate: real,
    slippage: real,
)
    requires
        lower <= higher,
        rate >= 0 as real,
        slippage <= 1 as real,
    ensures
        crate::rational::ceiling(converted_amount(lower, source_scale, dest_scale, rate, slippage))
            <= crate::rational::ceiling(
            converted_amount(higher, source_scale, dest_scale, rate, slippage),
        ),
{
    lemma_ten_pow_positive(source_scale);
    lemma_ten_pow_positive(dest_scale);
    let a = lower as real;
    let b = higher as real;
    let p = crate::rational::real_pow(10 as real, source_scale);
    let q = crate::rational::real_pow(10 as real, dest_scale);
    let c = 1 as real - slippage;
    assert(a / p <= b / p) by (nonlinear_arith)
        requires
            a <= b,
            p > 0 as real,
    ;
    lemma_product_order(a / p, b / p, rate, c, q);
}

/// At a rate that is not below zero, more slippage never has a higher minimum.
pub proof fn law_slippage_lowers_minimum(
    source_amount: u64,
    source_scale: nat,
    dest_scale: nat,
    rate: real,
    less_slippage: real,
    more_slippage: real,
)
    requires
        rate >= 0 as real,
        less_slippage <= more_slippage,
    ensures
        crate::rational::ceiling(
            converted_amount(source_amount as int, source_scale, dest_scale, rate, more_slippage),
        ) <= crate::rational::ceiling(
            converted_amount(source_amount as int, source_scale, dest_scale, rate, less_slippage),
        ),
{
    lemma_ten_pow_positive(source_scale);
    lemma_ten_pow_positive(dest_scale);
    let a = source_amount as real;
    let p = crate::rational::real_pow(10 as real, source_scale);
    let q = crate::rational::real_pow(10 as real, dest_scale);
    let c = 1 as real - more_slippage;
    let d = 1 as real - less_slippage;
    assert(a / p >= 0 as real) by (nonlinear_arith)
        requires
            a >= 0 as real,
            p > 0 as real,
    ;
    let x = a / p;
    assert(x * rate >= 0 as real) by (nonlinear_arith)
        requires
            x >= 0 as real,
            rate >= 0 as real,
    ;
    let y = x * rate;
    assert(y * c <= y * d) by (nonlinear_arith)
        requires
            y >= 0 as real,
            c <= d,
    ;
    let u = y * c;
    let v = y * d;
    assert(u * q <= v * q) by (nonlinear_arith)
        requires
            u <= v,
            q > 0 as real,
    ;
}

proof fn lemma_product_order(x: real, y: real, rate: real, c: real, q: real)
    requires
        x <= y,
        rate >= 0 as real,
        c >= 0 as real,
        q >= 0 as real,
    ensures
        x * rate * c * q <= y * rate * c * q,
{
    assert(x * rate <= y * rate) by (nonlinear_arith)
        requires
            x <= y,
            rate >= 0 as real,
    ;
    let u = x * rate;
    let v = y * rate;
    assert(u * c <= v * c) by (nonlinear_arith)
        requires
            u <= v,
            c >= 0 as real,
    ;
    let s = u * c;
    let t = v * c;
    assert(s * q <= t * q) by (nonlinear_arith)
        requires
            s <= t,
            q >= 0 as real,
    ;
}

} // verus!
