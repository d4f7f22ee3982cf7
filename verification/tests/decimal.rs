use cretonne::decimal::decimal_string;

#[test]
fn single_digits() {
    assert_eq!(decimal_string(0), "0");
    assert_eq!(decimal_string(1), "1");
    assert_eq!(decimal_string(5), "5");
    assert_eq!(decimal_string(9), "9");
}

#[test]
fn several_digits() {
    assert_eq!(decimal_string(10), "10");
    assert_eq!(decimal_string(64), "64");
    assert_eq!(decimal_string(100), "100");
    assert_eq!(decimal_string(128), "128");
    assert_eq!(decimal_string(256), "256");
    assert_eq!(decimal_string(1009), "1009");
    assert_eq!(decimal_string(16384), "16384");
    assert_eq!(decimal_string(65535), "65535");
}

#[test]
fn agrees_with_the_standard_numeral() {
    let mut n: u16 = 0;
    loop {
        assert_eq!(decimal_string(n), format!("{}", n));
        if n == u16::MAX {
            break;
        }
        n += 1;
    }
}
