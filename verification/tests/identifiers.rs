use blockdrive::ids::{file_id_eq, Handle};

#[test]
fn handle_equality_is_byte_wise() {
    let a = Handle { bytes: [5u8; 32] };
    let b = Handle { bytes: [5u8; 32] };
    let mut c = Handle { bytes: [5u8; 32] };
    c.bytes[31] = 6;
    assert!(a.equals(&b));
    assert!(!a.equals(&c));
}

#[test]
fn zero_handle_is_all_zero_bytes() {
    let zero = Handle::zero();
    assert_eq!(zero.bytes, [0u8; 32]);
}

#[test]
fn file_identifier_equality_is_byte_wise() {
    let a = [9u8; 16];
    let mut b = [9u8; 16];
    assert!(file_id_eq(&a, &b));
    b[0] = 8;
    assert!(!file_id_eq(&a, &b));
}
