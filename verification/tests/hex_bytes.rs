use pci_config::bytes::combine64;
use pci_config::bytes::high32;
use pci_config::bytes::low32;
use pci_config::bytes::u16_from_le;
use pci_config::bytes::u16_to_le;
use pci_config::bytes::u32_from_le;
use pci_config::bytes::u32_to_le;
use pci_config::bytes::u64_from_le;
use pci_config::bytes::u64_to_le;
use pci_config::error::Error;
use pci_config::hex::is_hex_digit;
use pci_config::hex::parse_hex_u16;

#[test]
fn hex_digit_classification() {
    assert!(is_hex_digit('0'));
    assert!(is_hex_digit('9'));
    assert!(is_hex_digit('a'));
    assert!(is_hex_digit('f'));
    assert!(is_hex_digit('A'));
    assert!(is_hex_digit('F'));
    assert!(!is_hex_digit('g'));
    assert!(!is_hex_digit('z'));
    assert!(!is_hex_digit(':'));
    assert!(!is_hex_digit(' '));
}

#[test]
fn hex_parse_with_and_without_prefix() {
    assert_eq!(parse_hex_u16(&b"0x10de".to_vec()), Ok(0x10de));
    assert_eq!(parse_hex_u16(&b"10de".to_vec()), Ok(0x10de));
}

#[test]
fn hex_parse_rejects_empty_and_nonhex() {
    assert_eq!(parse_hex_u16(&b"".to_vec()), Err(Error::Parse));
    assert_eq!(parse_hex_u16(&b"zz".to_vec()), Err(Error::Parse));
    assert_eq!(parse_hex_u16(&b"0x".to_vec()), Err(Error::Parse));
    assert_eq!(parse_hex_u16(&b"12g4".to_vec()), Err(Error::Parse));
}

#[test]
fn hex_parse_trims_whitespace() {
    assert_eq!(parse_hex_u16(&b"0x8086\n".to_vec()), Ok(0x8086));
    assert_eq!(parse_hex_u16(&b"  1234\t\r\n".to_vec()), Ok(0x1234));
}

#[test]
fn hex_parse_case_insensitive() {
    assert_eq!(parse_hex_u16(&b"AbCd".to_vec()), Ok(0xabcd));
    assert_eq!(parse_hex_u16(&b"0xFFFF".to_vec()), Ok(0xffff));
}

#[test]
fn hex_parse_range() {
    assert_eq!(parse_hex_u16(&b"0xffff".to_vec()), Ok(0xffff));
    assert_eq!(parse_hex_u16(&b"10000".to_vec()), Err(Error::Parse));
    assert_eq!(parse_hex_u16(&b"000000ffff".to_vec()), Ok(0xffff));
    assert_eq!(parse_hex_u16(&b"0x0".to_vec()), Ok(0));
}

#[test]
fn hex_parse_strips_one_prefix_only() {
    assert_eq!(parse_hex_u16(&b"0x0x10".to_vec()), Err(Error::Parse));
}

#[test]
fn word_composition_64() {
    assert_eq!(combine64(0x11223344, 0xaabbccdd), 0xaabb_ccdd_1122_3344);
    assert_eq!(low32(0xaabb_ccdd_1122_3344), 0x11223344);
    assert_eq!(high32(0xaabb_ccdd_1122_3344), 0xaabbccdd);
    assert_eq!(combine64(low32(0x0123_4567_89ab_cdef), high32(0x0123_4567_89ab_cdef)),
        0x0123_4567_89ab_cdef);
}

#[test]
fn le_round_trips() {
    assert_eq!(u16_to_le(0xbeef), vec![0xef, 0xbe]);
    assert_eq!(u16_from_le(&vec![0xef, 0xbe]), 0xbeef);
    assert_eq!(u32_to_le(0xdeadbeef), vec![0xef, 0xbe, 0xad, 0xde]);
    assert_eq!(u32_from_le(&vec![0xef, 0xbe, 0xad, 0xde]), 0xdeadbeef);
    assert_eq!(
        u64_to_le(0x0123_4567_89ab_cdef),
        vec![0xef, 0xcd, 0xab, 0x89, 0x67, 0x45, 0x23, 0x01]
    );
    assert_eq!(
        u64_from_le(&vec![0xef, 0xcd, 0xab, 0x89, 0x67, 0x45, 0x23, 0x01]),
        0x0123_4567_89ab_cdef
    );
}

#[test]
fn read64_composes_from_32_bit_halves() {
    let bytes = vec![0x10, 0x32, 0x54, 0x76, 0x98, 0xba, 0xdc, 0xfe];
    let lo = u32_from_le(&bytes[0..4].to_vec());
    let hi = u32_from_le(&bytes[4..8].to_vec());
    let whole = u64_from_le(&bytes);
    assert_eq!(whole, ((hi as u64) << 32) | (lo as u64));
    assert_eq!(whole, combine64(lo, hi));
}
