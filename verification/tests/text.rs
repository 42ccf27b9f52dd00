use folder_creator::text::{
    copy_bytes, concat_bytes, digits_u64, eq_ignore_ascii_case, padded4_bytes, trim_bytes,
    two_digit_bytes, year_bytes,
};

#[test]
fn trim_removes_leading_and_trailing_whitespace() {
    let s = b" \t 2024 trip \r\n".to_vec();
    assert_eq!(trim_bytes(&s), b"2024 trip".to_vec());
}

#[test]
fn trim_keeps_a_clean_name() {
    let s = b"trip".to_vec();
    assert_eq!(trim_bytes(&s), b"trip".to_vec());
}

#[test]
fn trim_of_all_whitespace_is_empty() {
    let s = b" \t\r\n ".to_vec();
    assert_eq!(trim_bytes(&s), Vec::<u8>::new());
}

#[test]
fn trim_of_empty_is_empty() {
    let s = Vec::<u8>::new();
    assert_eq!(trim_bytes(&s), Vec::<u8>::new());
}

#[test]
fn case_insensitive_equality_accepts_case_variants() {
    let a = b"YouTube".to_vec();
    let b = b"yOUtUBE".to_vec();
    assert!(eq_ignore_ascii_case(&a, &b));
}

#[test]
fn case_insensitive_equality_rejects_different_names() {
    let a = b"Youtube".to_vec();
    let b = b"Videos".to_vec();
    assert!(!eq_ignore_ascii_case(&a, &b));
}

#[test]
fn case_insensitive_equality_rejects_different_lengths() {
    let a = b"Youtube".to_vec();
    let b = b"Youtube2".to_vec();
    assert!(!eq_ignore_ascii_case(&a, &b));
}

#[test]
fn case_insensitive_equality_is_exact_outside_ascii_letters() {
    let a = vec![0xC3, 0xA9];
    let b = vec![0xC3, 0x89];
    assert!(!eq_ignore_ascii_case(&a, &b));
    assert!(eq_ignore_ascii_case(&a, &a.clone()));
}

#[test]
fn digits_render_decimal() {
    assert_eq!(digits_u64(0), b"0".to_vec());
    assert_eq!(digits_u64(7), b"7".to_vec());
    assert_eq!(digits_u64(2024), b"2024".to_vec());
    assert_eq!(digits_u64(u64::MAX), b"18446744073709551615".to_vec());
}

#[test]
fn two_digits_pad_below_ten() {
    assert_eq!(two_digit_bytes(3), b"03".to_vec());
    assert_eq!(two_digit_bytes(12), b"12".to_vec());
}

#[test]
fn padded4_pads_short_years() {
    assert_eq!(padded4_bytes(7), b"0007".to_vec());
    assert_eq!(padded4_bytes(77), b"0077".to_vec());
    assert_eq!(padded4_bytes(777), b"0777".to_vec());
    assert_eq!(padded4_bytes(2024), b"2024".to_vec());
    assert_eq!(padded4_bytes(12345), b"12345".to_vec());
}

#[test]
fn year_bytes_signs_negative_years() {
    assert_eq!(year_bytes(2024), b"2024".to_vec());
    assert_eq!(year_bytes(-42), b"-0042".to_vec());
    assert_eq!(year_bytes(0), b"0000".to_vec());
}

#[test]
fn concat_and_copy_preserve_bytes() {
    let a = b"ab".to_vec();
    let b = b"cd".to_vec();
    assert_eq!(concat_bytes(&a, &b), b"abcd".to_vec());
    assert_eq!(copy_bytes(&a), a);
}
