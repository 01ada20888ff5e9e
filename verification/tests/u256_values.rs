use aave_portfolio_manager::data_fetchers::{u256_cast, ConversionError};
use aave_portfolio_manager::u256::U256Value;

#[test]
fn from_u128_splits_into_limbs() {
    let v = U256Value::from_u128((5u128 << 64) + 9);
    assert_eq!(v, U256Value { limbs: [9, 5, 0, 0] });
}

#[test]
fn zero_test() {
    assert!(U256Value { limbs: [0, 0, 0, 0] }.is_zero());
    assert!(!U256Value { limbs: [0, 0, 0, 1] }.is_zero());
}

#[test]
fn narrowing_to_u128() {
    assert_eq!(U256Value::from_u128(u128::MAX).to_u128(), Some(u128::MAX));
    assert_eq!(U256Value { limbs: [0, 0, 1, 0] }.to_u128(), None);
    assert_eq!(U256Value { limbs: [3, 0, 0, 0] }.to_u128(), Some(3));
}

#[test]
fn subtraction_with_borrows() {
    let a = U256Value { limbs: [0, 0, 0, 1] };
    let b = U256Value { limbs: [1, 0, 0, 0] };
    assert_eq!(a.sub(&b), U256Value { limbs: [u64::MAX, u64::MAX, u64::MAX, 0] });
    let c = U256Value::from_u128(1000);
    let d = U256Value::from_u128(1);
    assert_eq!(c.sub(&d), U256Value::from_u128(999));
    assert_eq!(c.sub(&c), U256Value::from_u128(0));
}

#[test]
fn cast_of_fitting_and_too_large_values() {
    assert_eq!(u256_cast(&U256Value::from_u128(77)), Ok(77));
    let big = U256Value { limbs: [0, 0, 0, 5] };
    assert_eq!(u256_cast(&big), Err(ConversionError { value: big }));
}
