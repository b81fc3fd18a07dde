use process_monitor::fixed_byte_array::FixedByteArray;

#[test]
fn test_fixed_byte_array_fits() {
    let a: FixedByteArray<16> = FixedByteArray::from_str_trunc("hello");
    assert_eq!(a.as_str(), "hello");
    assert_eq!(a.len(), 5);
    assert_eq!(a.capacity(), 16);
}

#[test]
fn test_fixed_byte_array_truncates_ascii() {
    let a: FixedByteArray<3> = FixedByteArray::from_str_trunc("hello");
    assert_eq!(a.as_str(), "hel");
    assert_eq!(a.len(), 3);
}

#[test]
fn test_fixed_byte_array_truncates_at_char_boundary() {
    // 'é' takes two bytes, so a capacity of 2 keeps only "h".
    let a: FixedByteArray<2> = FixedByteArray::from_str_trunc("héllo");
    assert_eq!(a.as_str(), "h");
    assert_eq!(a.len(), 1);
    let b: FixedByteArray<3> = FixedByteArray::from_str_trunc("héllo");
    assert_eq!(b.as_str(), "hé");
    assert_eq!(b.len(), 3);
}

#[test]
fn test_fixed_byte_array_empty_and_zero_capacity() {
    let a: FixedByteArray<4> = FixedByteArray::from_str_trunc("");
    assert_eq!(a.as_str(), "");
    assert_eq!(a.len(), 0);
    let b: FixedByteArray<0> = FixedByteArray::from_str_trunc("abc");
    assert_eq!(b.as_str(), "");
    assert_eq!(b.capacity(), 0);
}
