use muchat::decimal::to_decimal;

#[test]
fn zero_is_one_digit() {
    assert_eq!(to_decimal(0), "0");
}

#[test]
fn single_digits() {
    for n in 0..10u64 {
        assert_eq!(to_decimal(n), n.to_string());
    }
}

#[test]
fn several_digits() {
    assert_eq!(to_decimal(10), "10");
    assert_eq!(to_decimal(42), "42");
    assert_eq!(to_decimal(1005), "1005");
    assert_eq!(to_decimal(65535), "65535");
}

#[test]
fn largest_number() {
    assert_eq!(to_decimal(u64::MAX), "18446744073709551615");
}

#[test]
fn agrees_with_the_standard_library() {
    let mut n: u64 = 1;
    for _ in 0..60 {
        assert_eq!(to_decimal(n), n.to_string());
        assert_eq!(to_decimal(n - 1), (n - 1).to_string());
        n = n.wrapping_mul(3).wrapping_add(7);
        if n == 0 {
            n = 1;
        }
    }
}

#[test]
fn different_numbers_are_written_differently() {
    let mut seen: Vec<String> = Vec::new();
    for n in 0..300u64 {
        let text = to_decimal(n);
        assert!(!seen.contains(&text));
        seen.push(text);
    }
}
