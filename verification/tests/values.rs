//! The basic chain value types: thresholds, fractions and mint rates,
//! with the decimal conversions held against rust_decimal's own reading
//! of the numbers.

use cis4_client::base::{
    AccountThreshold, MintRate, MintRateError, PartsPerHundredThousands,
    PartsPerHundredThousandsError, RewardFraction, UpdateKeysThreshold,
};
use rust_decimal::Decimal;
use std::str::FromStr;

fn parts_of(text: &str) -> Result<PartsPerHundredThousands, PartsPerHundredThousandsError> {
    let mut d = Decimal::from_str(text).unwrap();
    d.normalize_assign();
    PartsPerHundredThousands::from_decimal(d.mantissa(), d.scale())
}

#[test]
fn account_threshold_rejects_zero() {
    assert!(AccountThreshold::try_from(0).is_err());
    let t = AccountThreshold::try_from(5).unwrap();
    assert_eq!(t.threshold(), 5);
    assert!(UpdateKeysThreshold::try_from(0).is_err());
    assert_eq!(UpdateKeysThreshold::try_from(7).unwrap().threshold(), 7);
}

#[test]
fn parts_from_decimal_rescales_to_five_digits() {
    assert_eq!(parts_of("0.12345").unwrap().parts(), 12345);
    assert_eq!(parts_of("0.123450").unwrap().parts(), 12345);
    assert_eq!(parts_of("0.5").unwrap().parts(), 50000);
    assert_eq!(parts_of("1").unwrap().parts(), 100000);
    assert_eq!(parts_of("0").unwrap().parts(), 0);
}

#[test]
fn parts_from_decimal_rejects_out_of_range() {
    assert_eq!(parts_of("0.123456"), Err(PartsPerHundredThousandsError::TooManyDecimals));
    assert_eq!(parts_of("-0.5"), Err(PartsPerHundredThousandsError::Negative));
    assert_eq!(parts_of("1.00001"), Err(PartsPerHundredThousandsError::OutOfBounds));
    assert_eq!(parts_of("2"), Err(PartsPerHundredThousandsError::OutOfBounds));
}

#[test]
fn parts_addition_is_checked() {
    let a = parts_of("0.4").unwrap();
    let b = parts_of("0.5").unwrap();
    assert_eq!(a.add(b).unwrap().parts(), 90000);
    let c = parts_of("0.7").unwrap();
    assert!(b.add(c).is_none());
}

#[test]
fn reward_fraction_addition_is_checked() {
    let a = RewardFraction::new(parts_of("0.25").unwrap());
    let b = RewardFraction::new(parts_of("0.75").unwrap());
    assert_eq!(a.add(b).unwrap().fraction().parts(), 100000);
    let c = RewardFraction::new(parts_of("0.5").unwrap());
    assert!(b.add(c).is_none());
}

#[test]
fn mint_rate_from_decimal() {
    let mut d = Decimal::from_str("0.05").unwrap();
    d.normalize_assign();
    let m = MintRate::from_decimal(d.mantissa(), d.scale()).unwrap();
    assert_eq!(m.mantissa, 5);
    assert_eq!(m.exponent, 2);
    assert_eq!(
        MintRate::from_decimal(-1, 0),
        Err(MintRateError::UnsupportedMantissa)
    );
    assert_eq!(
        MintRate::from_decimal(0x1_0000_0000, 0),
        Err(MintRateError::UnsupportedMantissa)
    );
}
