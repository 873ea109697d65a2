use user_registry::decimal::decimal_string;

#[test]
fn single_digits() {
    let expected = ["0", "1", "2", "3", "4", "5", "6", "7", "8", "9"];
    for (n, text) in expected.iter().enumerate() {
        assert_eq!(decimal_string(n as u32), *text);
    }
}

#[test]
fn exact_values() {
    assert_eq!(decimal_string(10), "10");
    assert_eq!(decimal_string(42), "42");
    assert_eq!(decimal_string(99), "99");
    assert_eq!(decimal_string(100), "100");
    assert_eq!(decimal_string(1001), "1001");
    assert_eq!(decimal_string(123456789), "123456789");
    assert_eq!(decimal_string(4294967295), "4294967295");
}

#[test]
fn agrees_with_std_formatting() {
    for n in 0..2000u32 {
        assert_eq!(decimal_string(n), n.to_string());
    }
    for n in [9999, 10000, 65535, 65536, 999999999, 1000000000, 4294967294] {
        assert_eq!(decimal_string(n), format!("{}", n));
    }
}
