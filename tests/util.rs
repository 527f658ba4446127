use token_swap::error::AmmError;
use token_swap::util::{
    amount_to_canonical_amount, canonical_amount_to_amount, constant_product_amount_out,
    MAX_DECIMAL, MIN_DECIMAL,
};

#[test]
fn test_amount_to_canonical_amount() {
    let expected_balance = 100u128;
    let balance = amount_to_canonical_amount(1, 22);
    assert_eq!(Ok(expected_balance), balance);
}

#[test]
fn test_canonical_amount_to_amount() {
    let expected_balance = 1u128;
    let balance = canonical_amount_to_amount(100u128, 22);
    assert_eq!(expected_balance, balance);
}

#[test]
fn canonical_scale_at_the_bounds() {
    assert_eq!(amount_to_canonical_amount(7, MAX_DECIMAL), Ok(7));
    assert_eq!(
        amount_to_canonical_amount(7, MIN_DECIMAL),
        Ok(700_000_000_000_000_000_000_000)
    );
    assert_eq!(canonical_amount_to_amount(7, MAX_DECIMAL), 7);
    assert_eq!(
        canonical_amount_to_amount(799_999_999_999_999_999_999_999, MIN_DECIMAL),
        7
    );
}

#[test]
fn canonical_conversion_overflow_is_refused() {
    assert_eq!(
        amount_to_canonical_amount(u128::MAX, 23),
        Err(AmmError::InternalOverflow)
    );
    assert_eq!(amount_to_canonical_amount(u128::MAX, 24), Ok(u128::MAX));
    let largest = u128::MAX / 100;
    assert_eq!(amount_to_canonical_amount(largest, 22), Ok(largest * 100));
    assert_eq!(
        amount_to_canonical_amount(largest + 1, 22),
        Err(AmmError::InternalOverflow)
    );
}

#[test]
fn canonical_round_trip_gives_the_amount_back() {
    for decimal in MIN_DECIMAL..=MAX_DECIMAL {
        for amount in [0u128, 1, 9, 10, 12_345, 1_000_000_007] {
            let c = amount_to_canonical_amount(amount, decimal).unwrap();
            assert_eq!(canonical_amount_to_amount(c, decimal), amount);
        }
    }
}

#[test]
fn conversion_back_rounds_down() {
    assert_eq!(canonical_amount_to_amount(199, 22), 1);
    assert_eq!(canonical_amount_to_amount(99, 22), 0);
}

#[test]
fn constant_product_output() {
    assert_eq!(constant_product_amount_out(100, 1000, 2000), 181);
    assert_eq!(constant_product_amount_out(0, 1000, 2000), 0);
    // the product of the two largest u128 values needs 256 bits
    assert_eq!(
        constant_product_amount_out(u128::MAX, u128::MAX, u128::MAX),
        u128::MAX / 2
    );
    assert_eq!(
        constant_product_amount_out(10_000_000, 1_000_000_000, 1_000_000_000_000_000_000_000),
        9_900_990_099_009_900_990
    );
}
