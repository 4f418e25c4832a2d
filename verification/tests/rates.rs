use interledger_stream::rates::{get_min_destination_amount, Prices};
use interledger_stream::rational::Rational;
use num::bigint::BigInt;
use num::rational::BigRational;
use num::traits::cast::FromPrimitive;

fn rational(value: f64) -> Option<Rational> {
    let exact = BigRational::from_f64(value)?;
    Rational::new(
        exact.numer().to_signed_bytes_le(),
        exact.denom().to_signed_bytes_le(),
    )
}

fn fraction(numer: i64, denom: i64) -> Rational {
    Rational::new(
        BigInt::from(numer).to_signed_bytes_le(),
        BigInt::from(denom).to_signed_bytes_le(),
    )
    .unwrap()
}

fn prices(price_1: Option<f64>, price_2: Option<f64>) -> Option<Prices> {
    match (price_1, price_2) {
        (Some(source), Some(destination)) => Some(Prices {
            source: rational(source),
            destination: rational(destination),
        }),
        _ => None,
    }
}

struct TestData<'a> {
    name: &'a str,
    price_1: Option<f64>,
    price_2: Option<f64>,
    source_amount: u64,
    source_scale: u8,
    source_code: &'a str,
    dest_scale: Option<u8>,
    dest_code: Option<&'a str>,
    slippage: f64,
    expected_result: Option<u64>,
}

#[test]
fn computes_min_destination_amount() {
    let test_data = vec![
        TestData {
            name: "Fails if rate is unavailable",
            price_1: None,
            price_2: Some(3.0),
            source_amount: 100,
            source_scale: 2,
            source_code: "ABC",
            dest_scale: Some(6),
            dest_code: Some("XYZ"),
            slippage: 0.0,
            expected_result: None,
        },
        TestData {
            name: "Fails if destination asset code is unavailable",
            price_1: Some(1.9),
            price_2: Some(3.0),
            source_amount: 100,
            source_scale: 2,
            source_code: "ABC",
            dest_scale: Some(6),
            dest_code: None,
            slippage: 0.0,
            expected_result: None,
        },
        TestData {
            name: "Fails if destination asset code is unavailable",
            price_1: Some(1.9),
            price_2: Some(3.0),
            source_amount: 100,
            source_scale: 2,
            source_code: "ABC",
            dest_scale: None,
            dest_code: Some("ABC"),
            slippage: 0.0,
            expected_result: None,
        },
        TestData {
            name: "Computes result when amount gets larger",
            price_1: Some(6.0),
            price_2: Some(1.5),
            source_amount: 100,
            source_scale: 2,
            source_code: "ABC",
            dest_scale: Some(2),
            dest_code: Some("XYZ"),
            slippage: 0.0,
            expected_result: Some(400),
        },
        TestData {
            name: "Computes result when amount gets smaller",
            price_1: Some(1.5),
            price_2: Some(6.0),
            source_amount: 100,
            source_scale: 2,
            source_code: "ABC",
            dest_scale: Some(2),
            dest_code: Some("XYZ"),
            slippage: 0.0,
            expected_result: Some(25),
        },
        TestData {
            name: "Converts from small to large scale",
            price_1: Some(1.0),
            price_2: Some(1.0),
            source_amount: 33,
            source_scale: 2,
            source_code: "ABC",
            dest_scale: Some(6),
            dest_code: Some("XYZ"),
            slippage: 0.0,
            expected_result: Some(330_000),
        },
        TestData {
            name: "Converts from large to small scale",
            price_1: Some(1.0),
            price_2: Some(1.0),
            source_amount: 123_456_000_000,
            source_scale: 9,
            source_code: "ABC",
            dest_scale: Some(4),
            dest_code: Some("XYZ"),
            slippage: 0.0,
            expected_result: Some(1_234_560),
        },
        TestData {
            name: "Subtracts slippage in simple case",
            price_1: Some(1.0),
            price_2: Some(1.0),
            source_amount: 100,
            source_scale: 2,
            source_code: "ABC",
            dest_scale: Some(2),
            dest_code: Some("XYZ"),
            slippage: 0.01,
            expected_result: Some(99),
        },
        TestData {
            name: "Rounds up after subtracting slippage",
            price_1: Some(1.0),
            price_2: Some(1.0),
            source_amount: 100,
            source_scale: 2,
            source_code: "ABC",
            dest_scale: Some(2),
            dest_code: Some("XYZ"),
            slippage: 0.035,
            expected_result: Some(97),
        },
        TestData {
            name: "Rounds up even when destination amount is very close to 0",
            price_1: Some(0.000_000_5),
            price_2: Some(1.0),
            source_amount: 100,
            source_scale: 0,
            source_code: "ABC",
            dest_scale: Some(0),
            dest_code: Some("XYZ"),
            slippage: 0.0,
            expected_result: Some(1),
        },
        TestData {
            // f64 multiplication errors would cause this to be 101 after rounding up, big rationals fix this
            name: "No floating point errors",
            price_1: Some(1.0),
            price_2: Some(1.0),
            source_amount: 100,
            source_scale: 9,
            source_code: "ABC",
            dest_scale: Some(9),
            dest_code: Some("XYZ"),
            slippage: 0.0,
            expected_result: Some(100),
        },
        TestData {
            name: "Converts when using the largest possible scale",
            price_1: Some(1.0),
            price_2: Some(1.0),
            source_amount: 421,
            source_scale: 255,
            source_code: "ABC",
            dest_scale: Some(255),
            dest_code: Some("XYZ"),
            slippage: 0.0,
            expected_result: Some(421),
        },
    ];

    for t in &test_data {
        let dest_amount = get_min_destination_amount(
            &prices(t.price_1, t.price_2),
            t.source_amount,
            t.source_scale,
            t.source_code,
            t.dest_scale,
            t.dest_code,
            &rational(t.slippage),
        );
        assert_eq!(dest_amount, t.expected_result, "{}", t.name);
    }
}

#[test]
fn same_asset_needs_no_prices() {
    let amount = get_min_destination_amount(
        &None,
        u64::MAX,
        9,
        "XYZ",
        Some(9),
        Some("XYZ"),
        &rational(0.0),
    );
    assert_eq!(amount, Some(u64::MAX));
    // Prices are not even looked at
    let amount = get_min_destination_amount(
        &prices(Some(2.0), Some(3.0)),
        7,
        0,
        "XYZ",
        Some(0),
        Some("XYZ"),
        &rational(0.0),
    );
    assert_eq!(amount, Some(7));
}

#[test]
fn numbers_that_are_not_finite_have_no_minimum() {
    assert!(rational(f64::NAN).is_none());
    assert!(rational(f64::INFINITY).is_none());
    let amount = get_min_destination_amount(
        &prices(Some(f64::INFINITY), Some(1.0)),
        100,
        2,
        "ABC",
        Some(2),
        Some("XYZ"),
        &rational(0.0),
    );
    assert_eq!(amount, None);
    let amount = get_min_destination_amount(
        &prices(Some(1.0), Some(f64::NAN)),
        100,
        2,
        "ABC",
        Some(2),
        Some("XYZ"),
        &rational(0.0),
    );
    assert_eq!(amount, None);
    let amount = get_min_destination_amount(
        &None,
        100,
        2,
        "ABC",
        Some(2),
        Some("ABC"),
        &rational(f64::NAN),
    );
    assert_eq!(amount, None);
}

#[test]
fn amounts_out_of_range_have_no_minimum() {
    // Above the largest u64
    let amount =
        get_min_destination_amount(&None, u64::MAX, 0, "ABC", Some(1), Some("ABC"), &rational(0.0));
    assert_eq!(amount, None);
    // Below zero: the slippage is more than everything
    let amount =
        get_min_destination_amount(&None, 100, 0, "ABC", Some(0), Some("ABC"), &rational(2.0));
    assert_eq!(amount, None);
    // Between minus one and zero: rounds up to zero
    let amount =
        get_min_destination_amount(&None, 1, 1, "ABC", Some(0), Some("ABC"), &rational(2.0));
    assert_eq!(amount, Some(0));
    // All of it may slip
    let amount =
        get_min_destination_amount(&None, 100, 0, "ABC", Some(0), Some("ABC"), &rational(1.0));
    assert_eq!(amount, Some(0));
}

#[test]
fn combines_rate_slippage_and_scales() {
    // 12.34 * (7/3 / (2/5)) * (1 - 1/8) = 62.9854..., in thousandths
    let quoted = Some(Prices {
        source: Some(fraction(7, 3)),
        destination: Some(fraction(2, 5)),
    });
    let amount = get_min_destination_amount(
        &quoted,
        1234,
        2,
        "ABC",
        Some(3),
        Some("XYZ"),
        &Some(fraction(1, 8)),
    );
    assert_eq!(amount, Some(62_986));
}

#[test]
fn minimum_grows_with_amount_and_shrinks_with_slippage() {
    let minimum = |amount: u64, slippage: f64| {
        get_min_destination_amount(
            &prices(Some(1.3), Some(0.7)),
            amount,
            3,
            "ABC",
            Some(2),
            Some("XYZ"),
            &rational(slippage),
        )
        .unwrap()
    };
    let mut last: u64 = 0;
    for amount in 0..200u64 {
        let next = minimum(amount, 0.01);
        assert!(last <= next);
        assert!(minimum(amount, 0.25) <= next);
        last = next;
    }
    assert_eq!(minimum(0, 0.01), 0);
    assert_eq!(minimum(1, 0.01), 1);
}

#[test]
fn rationals_have_a_denominator() {
    assert!(Rational::new(vec![1], vec![0, 0]).is_none());
    assert!(Rational::new(vec![1], vec![]).is_none());
    let r = Rational::new(vec![1], vec![0, 1]).unwrap();
    assert_eq!(r.numer, vec![1]);
    assert_eq!(r.denom, vec![0, 1]);
    assert!(!r.is_zero());
    assert!(fraction(0, -5).is_zero());
    assert!(!fraction(-5, 3).is_zero());
}

#[test]
fn bytes_are_twos_complement() {
    // 0xFF is minus one: (-6) / (-3) as price of the source
    let quoted = Some(Prices {
        source: Some(Rational::new(vec![0xFA], vec![0xFD, 0xFF]).unwrap()),
        destination: Some(fraction(1, 1)),
    });
    let amount = get_min_destination_amount(
        &quoted,
        10,
        0,
        "ABC",
        Some(0),
        Some("XYZ"),
        &rational(0.0),
    );
    assert_eq!(amount, Some(20));
}

#[test]
fn destination_price_of_zero_has_no_minimum() {
    let minimum = |price_1: f64, price_2: f64, dest_code: &str| {
        get_min_destination_amount(
            &prices(Some(price_1), Some(price_2)),
            100,
            2,
            "ABC",
            Some(2),
            Some(dest_code),
            &rational(0.0),
        )
    };
    assert_eq!(minimum(1.0, 0.0, "XYZ"), None);
    assert_eq!(minimum(0.0, 0.0, "XYZ"), None);
    // A source price of zero is a rate of zero
    assert_eq!(minimum(0.0, 1.0, "XYZ"), Some(0));
    // Within one asset the prices are not needed
    assert_eq!(minimum(1.0, 0.0, "ABC"), Some(100));
}

#[test]
fn same_asset_rescales_without_loss() {
    let convert = |amount: u64, from: u8, to: u8| {
        get_min_destination_amount(&None, amount, from, "ABC", Some(to), Some("ABC"), &rational(0.0))
    };
    assert_eq!(convert(37, 2, 9), Some(370_000_000));
    assert_eq!(convert(370_000_000, 9, 2), Some(37));
    assert_eq!(convert(u64::MAX, 250, 250), Some(u64::MAX));
    assert_eq!(convert(1, 0, 19), Some(10_000_000_000_000_000_000));
    assert_eq!(convert(1, 0, 20), None);
}
