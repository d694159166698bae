use evm_fixtures::word::Word;

#[test]
fn from_u128_splits_into_limbs() {
    let w = Word::from_u128((1u128 << 64) + 3);
    assert_eq!(w.limbs, [3, 1, 0, 0]);
    assert_eq!(Word::from_u128(0).limbs, [0, 0, 0, 0]);
    assert_eq!(Word::from_u128(u128::MAX).limbs, [u64::MAX, u64::MAX, 0, 0]);
}

#[test]
fn be_bytes_of_one_word() {
    let mut b = vec![0u8; 32];
    b[31] = 5;
    assert_eq!(Word::from_be_bytes(&b).unwrap().limbs, [5, 0, 0, 0]);
    b[0] = 0x80;
    assert_eq!(Word::from_be_bytes(&b).unwrap().limbs, [5, 0, 0, 0x8000_0000_0000_0000]);
}

#[test]
fn be_bytes_short_and_empty() {
    assert_eq!(Word::from_be_bytes(&[]).unwrap().limbs, [0, 0, 0, 0]);
    assert_eq!(Word::from_be_bytes(&[1, 2]).unwrap().limbs, [0x0102, 0, 0, 0]);
    let nine = [1u8, 0, 0, 0, 0, 0, 0, 0, 7];
    assert_eq!(Word::from_be_bytes(&nine).unwrap().limbs, [7, 1, 0, 0]);
}

#[test]
fn be_bytes_leading_zeros_beyond_a_word() {
    let mut b = vec![0u8; 40];
    b[39] = 9;
    assert_eq!(Word::from_be_bytes(&b).unwrap().limbs, [9, 0, 0, 0]);
}

#[test]
fn be_bytes_too_large() {
    let mut b = vec![0u8; 33];
    b[0] = 1;
    assert!(Word::from_be_bytes(&b).is_none());
    let all = vec![0xffu8; 32];
    assert_eq!(Word::from_be_bytes(&all).unwrap().limbs, [u64::MAX; 4]);
}
