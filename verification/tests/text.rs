use bincode_fuzz::text::{decimal, padded_hex};

#[test]
fn decimal_of_zero_is_one_digit() {
    assert_eq!(decimal(0), "0");
}

#[test]
fn decimal_of_single_digits() {
    let expected = ["0", "1", "2", "3", "4", "5", "6", "7", "8", "9"];
    for n in 0..10u64 {
        assert_eq!(decimal(n), expected[n as usize]);
    }
}

#[test]
fn decimal_of_several_digits() {
    assert_eq!(decimal(10), "10");
    assert_eq!(decimal(42), "42");
    assert_eq!(decimal(2048), "2048");
    assert_eq!(decimal(65536), "65536");
    assert_eq!(decimal(1_000_000_007), "1000000007");
}

#[test]
fn decimal_of_largest_number() {
    assert_eq!(decimal(u64::MAX), "18446744073709551615");
}

#[test]
fn decimal_agrees_with_std_formatting() {
    let mut n: u64 = 1;
    for _ in 0..64 {
        assert_eq!(decimal(n), n.to_string());
        assert_eq!(decimal(n - 1), (n - 1).to_string());
        n = n.wrapping_mul(3).wrapping_add(7);
    }
}

#[test]
fn padded_hex_pads_one_digit() {
    assert_eq!(padded_hex(0), "00");
    assert_eq!(padded_hex(9), "09");
    assert_eq!(padded_hex(10), "0a");
    assert_eq!(padded_hex(14), "0e");
    assert_eq!(padded_hex(15), "0f");
}

#[test]
fn padded_hex_of_two_digits() {
    assert_eq!(padded_hex(16), "10");
    assert_eq!(padded_hex(171), "ab");
    assert_eq!(padded_hex(255), "ff");
}

#[test]
fn padded_hex_grows_beyond_two_digits() {
    assert_eq!(padded_hex(256), "100");
    assert_eq!(padded_hex(0xdead_beef), "deadbeef");
    assert_eq!(padded_hex(u64::MAX), "ffffffffffffffff");
}

#[test]
fn padded_hex_agrees_with_std_formatting() {
    for n in 0..600u64 {
        assert_eq!(padded_hex(n), format!("{:02x}", n));
    }
}
