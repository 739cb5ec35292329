use sonic_pi_tool::digits::{i32_to_dec, parse_i32_bytes, parse_u16_bytes, u64_to_dec};

#[test]
fn u16_bounds() {
    assert_eq!(parse_u16_bytes(&b"0".to_vec()), Some(0));
    assert_eq!(parse_u16_bytes(&b"65535".to_vec()), Some(65535));
    assert_eq!(parse_u16_bytes(&b"65536".to_vec()), None);
    assert_eq!(parse_u16_bytes(&b"".to_vec()), None);
    assert_eq!(parse_u16_bytes(&b"12a4".to_vec()), None);
    assert_eq!(parse_u16_bytes(&b"007".to_vec()), Some(7));
}

#[test]
fn i32_bounds() {
    assert_eq!(parse_i32_bytes(&b"2147483647".to_vec()), Some(2147483647));
    assert_eq!(parse_i32_bytes(&b"2147483648".to_vec()), None);
    assert_eq!(parse_i32_bytes(&b"-2147483648".to_vec()), Some(-2147483648));
    assert_eq!(parse_i32_bytes(&b"-2147483649".to_vec()), None);
    assert_eq!(parse_i32_bytes(&b"-".to_vec()), None);
    assert_eq!(parse_i32_bytes(&b"--1".to_vec()), None);
}

#[test]
fn rendering_is_canonical_decimal() {
    assert_eq!(u64_to_dec(0), b"0".to_vec());
    assert_eq!(u64_to_dec(65535), b"65535".to_vec());
    assert_eq!(i32_to_dec(-1), b"-1".to_vec());
    assert_eq!(i32_to_dec(2070055865), b"2070055865".to_vec());
}
