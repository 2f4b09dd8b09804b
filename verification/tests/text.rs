use lp_bot::text::remove_decimals;

#[test]
fn remove_decimals_drops_point_and_leading_zeros() {
    assert_eq!(remove_decimals("0.0015".to_string()), "15");
    assert_eq!(remove_decimals("1.2300".to_string()), "12300");
    assert_eq!(remove_decimals("1234".to_string()), "1234");
}

#[test]
fn remove_decimals_drops_every_point() {
    assert_eq!(remove_decimals("1.2.3".to_string()), "123");
    assert_eq!(remove_decimals("0.10.0".to_string()), "100");
}

#[test]
fn remove_decimals_keeps_inner_zeros() {
    assert_eq!(remove_decimals("100.05".to_string()), "10005");
}

#[test]
fn remove_decimals_of_all_zeros_is_empty() {
    assert_eq!(remove_decimals("000".to_string()), "");
    assert_eq!(remove_decimals("0.000".to_string()), "");
    assert_eq!(remove_decimals(".".to_string()), "");
    assert_eq!(remove_decimals(String::new()), "");
}

#[test]
fn remove_decimals_is_idempotent_on_examples() {
    for s in ["0.0015", "1.2.3", "000", "7", "0.10.0", "12a.0"] {
        let once = remove_decimals(s.to_string());
        let twice = remove_decimals(once.clone());
        assert_eq!(once, twice);
        assert!(!once.contains('.'));
        assert!(!once.starts_with('0'));
    }
}

#[test]
fn remove_decimals_keeps_other_characters() {
    assert_eq!(remove_decimals("0x.5".to_string()), "x5");
}
