//! What the conversion of amounts does, in terms of the rate, the slippage and the two scales.
use crate::rates::Prices;
use vstd::arithmetic::power::pow;
use vstd::prelude::*;

verus! {

proof fn lemma_factor_out_rate(x: real, rate: real, c: real, q: real, out: real, one: real)
    by (nonlinear_arith)
    requires
        out == x * rate * c * q,
        one == x * (1 as real) * c * q,
    ensures
        out == rate * one,
{
}

proof fn lemma_factor_out_share(x: real, c: real, q: real, out: real, one: real)
    by (nonlinear_arith)
    requires
        out == x * (1 as real) * c * q,
        one == x * (1 as real) * (1 as real) * q,
    ensures
        out == c * one,
{
}

proof fn lemma_cancel_scale(x: real, a: real, p: real, q: real, out: real)
    by (nonlinear_arith)
    requires
        x * p == a,
        out == x * (1 as real) * (1 as real) * q,
    ensures
        out * p == a * q,
{
}

/// Whatever the scales are, the converted amount is proportional to the rate.
pub proof fn law_conversion_is_proportional_to_rate(
    source_amount: int,
    source_scale: nat,
    dest_scale: nat,
    rate: real,
    slippage: real,
)
    ensures
        crate::rates::converted_amount(source_amount, source_scale, dest_scale, rate, slippage)
            == rate * crate::rates::converted_amount(
            source_amount,
            source_scale,
            dest_scale,
            1 as real,
            slippage,
        ),
{
    lemma_factor_out_rate(
        source_amount as real / crate::rational::real_pow(10 as real, source_scale),
        rate,
        1 as real - slippage,
        crate::rational::real_pow(10 as real, dest_scale),
        crate::rates::converted_amount(source_amount, source_scale, dest_scale, rate, slippage),
        crate::rates::converted_amount(
            source_amount,
            source_scale,
            dest_scale,
            1 as real,
            slippage,
        ),
    );
}

/// Whatever the scales are, slippage takes its share of the amount converted at the rate one.
pub proof fn law_conversion_subtracts_slippage(
    source_amount: int,
    source_scale: nat,
    dest_scale: nat,
    slippage: real,
)
    ensures
        crate::rates::converted_amount(source_amount, source_scale, dest_scale, 1 as real, slippage)
            == (1 as real - slippage) * crate::rates::converted_amount(
            source_amount,
            source_scale,
            dest_scale,
            1 as real,
            0 as real,
        ),
{
    lemma_factor_out_share(
        source_amount as real / crate::rational::real_pow(10 as real, source_scale),
        1 as real - slippage,
        crate::rational::real_pow(10 as real, dest_scale),
        crate::rates::converted_amount(
            source_amount,
            source_scale,
            dest_scale,
            1 as real,
            slippage,
        ),
        crate::rates::converted_amount(
            source_amount,
            source_scale,
            dest_scale,
            1 as real,
            0 as real,
        ),
    );
}

/// At the rate one and without slippage, the converted amount is worth the source amount: times ten
/// to the source scale, it is the source amount times ten to the destination scale.
pub proof fn law_conversion_keeps_value(source_amount: int, source_scale: nat, dest_scale: nat)
    ensures
        crate::rates::converted_amount(
            source_amount,
            source_scale,
            dest_scale,
            1 as real,
            0 as real,
        ) * crate::rational::real_pow(10 as real, source_scale) == source_amount as real
            * crate::rational::real_pow(10 as real, dest_scale),
{
    crate::rates::lemma_ten_pow_positive(source_scale);
    let a = source_amount as real;
    let p = crate::rational::real_pow(10 as real, source_scale);
    assert(a / p * p == a) by (nonlinear_arith)
        requires
            p != 0 as real,
    ;
    lemma_cancel_scale(
        a / p,
        a,
        p,
        crate::rational::real_pow(10 as real, dest_scale),
        crate::rates::converted_amount(
            source_amount,
            source_scale,
            dest_scale,
            1 as real,
            0 as real,
        ),
    );
}

/// The unit of a scale is a power of ten.
pub proof fn law_scale_is_power_of_ten(scale: nat)
    ensures
        crate::rational::real_pow(10 as real, scale) == pow(10, scale) as real,
{
    crate::rates::lemma_ten_pow_is_whole(scale);
}

/// Within one asset the rate is one. Otherwise there is a rate exactly if both prices are known and
/// the destination price is not zero, and times the destination price it is the source price.
pub proof fn law_rate_is_price_quotient(
    source_code: Seq<char>,
    dest_code: Seq<char>,
    prices: Option<Prices>,
)
    ensures
        source_code == dest_code ==> crate::rates::exchange_rate(source_code, dest_code, prices)
            == Some(1 as real),
        source_code != dest_code ==> (crate::rates::exchange_rate(
            source_code,
            dest_code,
            prices,
        ) is Some <==> prices is Some && prices->0.source is Some && prices->0.destination is Some
            && prices->0.destination->0@ != 0 as real),
        source_code != dest_code ==> (crate::rates::exchange_rate(
            source_code,
            dest_code,
            prices,
        ) matches Some(rate) ==> rate * prices->0.destination->0@ == prices->0.source->0@),
{
    if source_code != dest_code && crate::rates::exchange_rate(
        source_code,
        dest_code,
        prices,
    ) is Some {
        let s = prices->0.source->0@;
        let d = prices->0.destination->0@;
        assert(s / d * d == s) by (nonlinear_arith)
            requires
                d != 0 as real,
        ;
    }
}

/// With a rate and slippage there is a minimum exactly if the converted amount is above minus one
/// and not above the largest `u64`. The minimum is then not below the converted amount, and less
/// than one above it.
pub proof fn law_minimum_brackets_conversion(
    prices: Option<Prices>,
    source_amount: u64,
    source_scale: u8,
    source_code: Seq<char>,
    dest_scale: u8,
    dest_code: Seq<char>,
    slippage: real,
    rate: real,
    exact: real,
)
    requires
        crate::rates::exchange_rate(source_code, dest_code, prices) == Some(rate),
        exact == crate::rates::converted_amount(
            source_amount as int,
            source_scale as nat,
            dest_scale as nat,
            rate,
            slippage,
        ),
    ensures
        match crate::rates::min_destination_amount(
            prices,
            source_amount,
            source_scale,
            source_code,
            Some(dest_scale),
            Some(dest_code),
            Some(slippage),
        ) {
            Some(n) => (n as real - 1 as real) < exact && exact <= n as real,
            None => exact <= -1 as real || exact > u64::MAX as real,
        },
{
}

} // verus!
