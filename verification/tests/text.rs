use network_discovery::text::{enclosed, prefixed, push_count, push_decimal};

fn decimal(n: u64) -> String {
    let mut out = String::new();
    push_decimal(&mut out, n);
    out
}

#[test]
fn single_digits() {
    let digits = ["0", "1", "2", "3", "4", "5", "6", "7", "8", "9"];
    for (n, digit) in digits.iter().enumerate() {
        assert_eq!(decimal(n as u64), *digit);
    }
}

#[test]
fn several_digits() {
    assert_eq!(decimal(10), "10");
    assert_eq!(decimal(99), "99");
    assert_eq!(decimal(100), "100");
    assert_eq!(decimal(1_234_567_890), "1234567890");
    assert_eq!(decimal(9_007_199_254_740_993), "9007199254740993");
    assert_eq!(decimal(u64::MAX), "18446744073709551615");
}

#[test]
fn decimal_is_appended_to_what_is_there() {
    let mut out = String::from("height ");
    push_decimal(&mut out, 42);
    assert_eq!(out, "height 42");
    push_count(&mut out, 0);
    assert_eq!(out, "height 420");
    push_count(&mut out, usize::MAX);
    assert_eq!(out, format!("height 420{}", usize::MAX));
}

#[test]
fn decimal_matches_the_standard_format() {
    let mut n: u64 = 1;
    for _ in 0..64 {
        assert_eq!(decimal(n), format!("{}", n));
        assert_eq!(decimal(n - 1), format!("{}", n - 1));
        n = n.wrapping_mul(3).wrapping_add(7);
    }
}

#[test]
fn text_behind_a_prefix() {
    assert_eq!(prefixed("Error: ", "boom"), "Error: boom");
    assert_eq!(prefixed("", "boom"), "boom");
    assert_eq!(prefixed("Error: ", ""), "Error: ");
}

#[test]
fn text_between_brackets() {
    assert_eq!(enclosed("Waiting(", "30s"), "Waiting(30s)");
    assert_eq!(enclosed("Errored(", ""), "Errored()");
    assert_eq!(enclosed("", "x"), "x)");
}
