use token_swap::error::AmmError;
use token_swap::token::Token;

#[test]
fn test_get_set_methods() {
    let address = String::from("test.near");
    let mut token = Token::new(address.clone());
    let name = "test-name".to_string();
    let symbol = "TST".to_string();
    let decimals = 3u8;
    assert_eq!(token.set_metadata(name.clone(), symbol.clone(), decimals), Ok(()));
    assert_eq!(token.get_metadata().unwrap().address.as_str(), address.as_str());
    assert_eq!(token.get_metadata().unwrap().name, name);
    assert_eq!(token.get_metadata().unwrap().ticker, symbol);
    assert_eq!(token.get_metadata().unwrap().decimal, decimals);
    assert_eq!(token.get_address().as_str(), address.as_str());
    assert!(token.check_address(&address));
    assert_eq!(token.get_decimal(), Ok(decimals));

    assert_eq!(token.get_balance(), 0);
    assert_eq!(token.add_balance(10), Ok(()));
    assert_eq!(token.get_balance(), 10);
    assert_eq!(token.subtract_balance(5), Ok(()));
    assert_eq!(token.get_balance(), 5);
}

#[test]
fn token_test_illegal_get_metadata() {
    let address = String::from("test.near");
    let token = Token::new(address.clone());
    assert!(matches!(
        token.get_metadata(),
        Err(AmmError::TokenMetadataNotInitialised)
    ));
}

#[test]
fn test_illegal_set_metadata_min() {
    let address = String::from("test.near");
    let mut token = Token::new(address.clone());
    assert_eq!(
        token.set_metadata("test-name".to_string(), "test-sym".to_string(), 0),
        Err(AmmError::InvalidTokenDecimal)
    );
    assert_eq!(token.get_decimal(), Err(AmmError::TokenMetadataNotInitialised));
}

#[test]
fn test_illegal_set_metadata_max() {
    let address = String::from("test.near");
    let mut token = Token::new(address.clone());
    assert_eq!(
        token.set_metadata("test-name".to_string(), "test-sym".to_string(), 30),
        Err(AmmError::InvalidTokenDecimal)
    );
    assert_eq!(token.get_decimal(), Err(AmmError::TokenMetadataNotInitialised));
}

#[test]
fn test_illegal_subtract_balance() {
    let address = String::from("test.near");
    let mut token = Token::new(address.clone());

    assert_eq!(token.get_balance(), 0);
    assert_eq!(token.add_balance(10), Ok(()));
    assert_eq!(token.get_balance(), 10);
    assert_eq!(token.subtract_balance(10), Err(AmmError::InvalidTokenBalance));
    assert_eq!(token.get_balance(), 10);
}

#[test]
fn subtracting_more_than_the_reserve_is_refused() {
    let mut token = Token::new(String::from("test.near"));
    assert_eq!(token.add_balance(10), Ok(()));
    assert_eq!(token.subtract_balance(11), Err(AmmError::InternalOverflow));
    assert_eq!(token.get_balance(), 10);
}

#[test]
fn adding_past_the_largest_balance_is_refused() {
    let mut token = Token::new(String::from("test.near"));
    assert_eq!(token.add_balance(u128::MAX), Ok(()));
    assert_eq!(token.add_balance(1), Err(AmmError::InternalOverflow));
    assert_eq!(token.get_balance(), u128::MAX);
}

#[test]
fn metadata_bounds_are_accepted_and_overwritten() {
    let mut token = Token::new(String::from("test.near"));
    assert_eq!(token.set_metadata("a".to_string(), "A".to_string(), 1), Ok(()));
    assert_eq!(token.get_decimal(), Ok(1));
    assert_eq!(token.set_metadata("b".to_string(), "B".to_string(), 24), Ok(()));
    assert_eq!(token.get_decimal(), Ok(24));
    assert_eq!(token.get_metadata().unwrap().name, "b");
    assert_eq!(token.get_metadata().unwrap().ratio_numerator, 1);
    assert_eq!(token.get_metadata().unwrap().ratio_denominator, 1);
}

#[test]
fn canonical_balance_needs_metadata() {
    let mut token = Token::new(String::from("test.near"));
    assert_eq!(token.add_balance(5), Ok(()));
    assert_eq!(
        token.get_canonical_balance(),
        Err(AmmError::TokenMetadataNotInitialised)
    );
    assert_eq!(token.set_metadata("n".to_string(), "N".to_string(), 20), Ok(()));
    assert_eq!(token.get_canonical_balance(), Ok(50_000));
    assert!(!token.check_address(&String::from("other.near")));
}
