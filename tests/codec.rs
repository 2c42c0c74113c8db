use dissect::codec::{swap_u16, swap_u32, swap_u64, vec_slice_to_u16, vec_slice_to_u32, vec_slice_to_u64};
use dissect::text::{push_decimal, push_hex};

#[test]
fn u16_window_is_big_endian() {
    assert_eq!(vec_slice_to_u16(&[0x12, 0x34]), Some(0x1234));
    assert_eq!(vec_slice_to_u16(&[0xFF, 0xFF]), Some(0xFFFF));
    assert_eq!(vec_slice_to_u16(&[0x00, 0x01]), Some(1));
}

#[test]
fn u32_window_is_big_endian() {
    assert_eq!(vec_slice_to_u32(&[0x12, 0x34, 0x56, 0x78]), Some(0x1234_5678));
    assert_eq!(vec_slice_to_u32(&[0x34, 0x00, 0x00, 0x00]), Some(0x3400_0000));
}

#[test]
fn u64_window_is_big_endian() {
    assert_eq!(
        vec_slice_to_u64(&[0x01, 0x23, 0x45, 0x67, 0x89, 0xAB, 0xCD, 0xEF]),
        Some(0x0123_4567_89AB_CDEF)
    );
    assert_eq!(vec_slice_to_u64(&[0xFF; 8]), Some(u64::MAX));
}

#[test]
fn windows_of_other_lengths_give_no_value() {
    assert_eq!(vec_slice_to_u16(&[]), None);
    assert_eq!(vec_slice_to_u16(&[1]), None);
    assert_eq!(vec_slice_to_u16(&[1, 2, 3]), None);
    assert_eq!(vec_slice_to_u32(&[1, 2]), None);
    assert_eq!(vec_slice_to_u32(&[1, 2, 3, 4, 5]), None);
    assert_eq!(vec_slice_to_u64(&[1, 2, 3, 4]), None);
    assert_eq!(vec_slice_to_u64(&[0; 9]), None);
}

#[test]
fn swaps_reverse_the_bytes() {
    assert_eq!(swap_u16(0x1234), 0x3412);
    assert_eq!(swap_u32(0x1234_5678), 0x7856_3412);
    assert_eq!(swap_u64(0x0123_4567_89AB_CDEF), 0xEFCD_AB89_6745_2301);
}

#[test]
fn numbers_as_text() {
    let mut s = String::new();
    push_decimal(&mut s, 0);
    assert_eq!(s, "0");
    let mut s = String::from("n=");
    push_decimal(&mut s, 4096);
    assert_eq!(s, "n=4096");
    let mut s = String::new();
    push_decimal(&mut s, u64::MAX);
    assert_eq!(s, "18446744073709551615");
    let mut s = String::new();
    push_hex(&mut s, 0x8048000);
    assert_eq!(s, "8048000");
    let mut s = String::new();
    push_hex(&mut s, 0xDEAD_BEEF);
    assert_eq!(s, "DEADBEEF");
}
