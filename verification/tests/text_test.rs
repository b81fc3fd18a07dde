use process_monitor::float_bits::u32_to_f32_bits;
use process_monitor::text::{push_decimal, str_contains, string_of};

#[test]
fn substring_search() {
    assert!(str_contains("process_monitor", "mon"));
    assert!(str_contains("abc", ""));
    assert!(str_contains("abc", "abc"));
    assert!(!str_contains("abc", "abcd"));
    assert!(!str_contains("abc", "ca"));
    assert!(str_contains("aab", "ab"));
}

#[test]
fn copies_and_decimals() {
    assert_eq!(string_of("copy"), "copy");
    let mut s = String::from("n=");
    push_decimal(&mut s, 0);
    push_decimal(&mut s, 907);
    assert_eq!(s, "n=0907");
}

#[test]
fn integer_to_float_bits_rounds_to_nearest_even() {
    for n in [0u32, 1, 2, 59, 60, 16_777_216, 16_777_217, 16_777_219, 4_294_967_295] {
        assert_eq!(u32_to_f32_bits(n), (n as f32).to_bits());
    }
}
