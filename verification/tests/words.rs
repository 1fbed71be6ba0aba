use synapse_sdk::codec::{
    bytes_equal, bytes_less, canonical_pair, channel_id, encode_u256, Address,
};
use synapse_sdk::word::U256;

fn addr_ending(last: u8) -> Address {
    let mut bytes = [0u8; 20];
    bytes[19] = last;
    Address(bytes)
}

#[test]
fn encode_u256_is_big_endian_and_zero_padded() {
    let mut expected = [0u8; 32];
    assert_eq!(encode_u256(&U256::zero()), expected);
    expected[31] = 1;
    assert_eq!(encode_u256(&U256::one()), expected);
    let mut expected = [0u8; 32];
    expected[30] = 0x01;
    expected[31] = 0x02;
    assert_eq!(encode_u256(&U256::from_u64(0x0102)), expected);
    assert_eq!(encode_u256(&U256::max_value()), [0xffu8; 32]);
}

#[test]
fn encode_u256_places_each_limb() {
    let x = U256 {
        w3: 0x0102030405060708,
        w2: 0x1112131415161718,
        w1: 0x2122232425262728,
        w0: 0x3132333435363738,
    };
    let expected: [u8; 32] = [
        0x01, 0x02, 0x03, 0x04, 0x05, 0x06, 0x07, 0x08, 0x11, 0x12, 0x13, 0x14, 0x15, 0x16, 0x17,
        0x18, 0x21, 0x22, 0x23, 0x24, 0x25, 0x26, 0x27, 0x28, 0x31, 0x32, 0x33, 0x34, 0x35, 0x36,
        0x37, 0x38,
    ];
    assert_eq!(x.to_be_bytes(), expected);
    assert_eq!(U256::from_be_bytes(&expected), x);
}

#[test]
fn encode_u256_agrees_with_ethers() {
    let x = U256 { w3: 5, w2: 0xdead_beef, w1: u64::MAX, w0: 42 };
    let theirs = ethers::types::U256([x.w0, x.w1, x.w2, x.w3]);
    let mut expected = [0u8; 32];
    theirs.to_big_endian(&mut expected);
    assert_eq!(encode_u256(&x), expected);
}

#[test]
fn be_bytes_round_trip() {
    let mut bytes = [0u8; 32];
    for i in 0..32 {
        bytes[i] = (i as u8) * 7 + 3;
    }
    let x = U256::from_be_bytes(&bytes);
    assert_eq!(x.to_be_bytes(), bytes);
}

#[test]
fn from_u128_splits_into_two_limbs() {
    let x = U256::from_u128(0x0123_4567_89ab_cdef_1122_3344_5566_7788);
    assert_eq!(x, U256 { w3: 0, w2: 0, w1: 0x0123_4567_89ab_cdef, w0: 0x1122_3344_5566_7788 });
    assert_eq!(U256::from_u128(7), U256::from_u64(7));
}

#[test]
fn to_u64_only_where_it_fits() {
    assert_eq!(U256::from_u64(9550).to_u64(), Some(9550));
    assert_eq!(U256::from_u64(u64::MAX).to_u64(), Some(u64::MAX));
    assert_eq!(U256::from_u128(u64::MAX as u128 + 1).to_u64(), None);
    assert_eq!(U256::max_value().to_u64(), None);
}

#[test]
fn checked_add_carries_across_limbs() {
    let a = U256 { w3: 0, w2: 0, w1: 0, w0: u64::MAX };
    assert_eq!(a.checked_add(&U256::one()), Some(U256 { w3: 0, w2: 0, w1: 1, w0: 0 }));
    let b = U256 { w3: 0, w2: u64::MAX, w1: u64::MAX, w0: u64::MAX };
    assert_eq!(b.checked_add(&U256::one()), Some(U256 { w3: 1, w2: 0, w1: 0, w0: 0 }));
    assert_eq!(
        U256::from_u64(100).checked_add(&U256::from_u64(50)),
        Some(U256::from_u64(150))
    );
}

#[test]
fn checked_add_refuses_overflow() {
    assert_eq!(U256::max_value().checked_add(&U256::one()), None);
    assert_eq!(U256::max_value().checked_add(&U256::zero()), Some(U256::max_value()));
    assert_eq!(U256::max_value().checked_add(&U256::max_value()), None);
}

#[test]
fn carrying_add_reports_the_carry() {
    let (sum, carry) = U256::max_value().carrying_add(&U256::from_u64(2));
    assert!(carry);
    assert_eq!(sum, U256::one());
    let (sum, carry) = U256::from_u64(3).carrying_add(&U256::from_u64(4));
    assert!(!carry);
    assert_eq!(sum, U256::from_u64(7));
}

#[test]
fn checked_sub_borrows_across_limbs() {
    let a = U256 { w3: 1, w2: 0, w1: 0, w0: 0 };
    assert_eq!(
        a.checked_sub(&U256::one()),
        Some(U256 { w3: 0, w2: u64::MAX, w1: u64::MAX, w0: u64::MAX })
    );
    assert_eq!(U256::from_u64(5).checked_sub(&U256::from_u64(6)), None);
    assert_eq!(U256::from_u64(6).checked_sub(&U256::from_u64(6)), Some(U256::zero()));
}

#[test]
fn successor_stops_at_the_largest() {
    assert_eq!(U256::zero().successor(), Some(U256::one()));
    assert_eq!(U256::from_u64(u64::MAX).successor(), Some(U256 { w3: 0, w2: 0, w1: 1, w0: 0 }));
    assert_eq!(U256::max_value().successor(), None);
}

#[test]
fn comparison_is_numeric() {
    let small = U256 { w3: 0, w2: 0, w1: 0, w0: u64::MAX };
    let large = U256 { w3: 0, w2: 0, w1: 1, w0: 0 };
    assert!(small.lt(&large));
    assert!(!large.lt(&small));
    assert!(!small.lt(&small));
    assert!(small.le(&small));
    assert!(small.le(&large));
    assert!(!large.le(&small));
    assert!(small < large);
    assert!(U256::zero().is_zero());
    assert!(!large.is_zero());
}

#[test]
fn bytes_compare_in_unsigned_order() {
    assert!(bytes_less(&[0x00, 0xff], &[0x01, 0x00]));
    assert!(!bytes_less(&[0x01, 0x00], &[0x00, 0xff]));
    assert!(bytes_less(&[0x7f], &[0x80]));
    assert!(!bytes_less(&[5, 5], &[5, 5]));
    assert!(bytes_less(&[5], &[5, 0]));
    assert!(!bytes_less(&[5, 0], &[5]));
    assert!(bytes_equal(&[1, 2, 3], &[1, 2, 3]));
    assert!(!bytes_equal(&[1, 2, 3], &[1, 2, 4]));
    assert!(!bytes_equal(&[1, 2, 3], &[1, 2]));
}

#[test]
fn canonical_pair_puts_the_lower_address_first() {
    let a = addr_ending(1);
    let b = addr_ending(2);
    assert_eq!(canonical_pair(a, b), (a, b));
    assert_eq!(canonical_pair(b, a), (a, b));
    assert_eq!(canonical_pair(a, a), (a, a));
    let high = Address([0x80; 20]);
    let low = Address([0x7f; 20]);
    assert_eq!(canonical_pair(high, low), (low, high));
    assert!(a.lt(&b));
    assert!(!b.lt(&a));
    assert_eq!(Address::zero(), Address([0u8; 20]));
}

#[test]
fn channel_id_is_symmetric() {
    let a = addr_ending(1);
    let b = addr_ending(2);
    assert_eq!(channel_id(&a, &b), channel_id(&b, &a));
    let c = Address([0xc3; 20]);
    let d = Address([0x11; 20]);
    assert_eq!(channel_id(&c, &d), channel_id(&d, &c));
    assert_ne!(channel_id(&a, &b), channel_id(&a, &c));
}

#[test]
fn channel_id_hashes_the_ordered_pair() {
    let a = addr_ending(1);
    let b = addr_ending(2);
    let mut data = Vec::new();
    data.extend_from_slice(&a.0);
    data.extend_from_slice(&b.0);
    let expected = ethers::utils::keccak256(&data);
    assert_eq!(channel_id(&a, &b), expected);
    assert_eq!(channel_id(&b, &a), expected);
    assert_ne!(&channel_id(&a, &b)[..20], &a.0[..]);
}

#[test]
fn checked_times_ten_stops_at_the_range() {
    assert_eq!(U256::from_u64(7).checked_times_ten(), Some(U256::from_u64(70)));
    assert_eq!(U256::zero().checked_times_ten(), Some(U256::zero()));
    let above = U256 { w3: 0x1999_9999_9999_9999, w2: u64::MAX, w1: u64::MAX, w0: u64::MAX };
    assert_eq!(above.checked_times_ten(), None);
    let carried = U256 { w3: 0, w2: 0, w1: 0, w0: u64::MAX };
    assert_eq!(
        carried.checked_times_ten(),
        Some(U256 { w3: 0, w2: 0, w1: 9, w0: 0xffff_ffff_ffff_fff6 })
    );
    let tenth = U256 {
        w3: 0x1999_9999_9999_9999,
        w2: 0x9999_9999_9999_9999,
        w1: 0x9999_9999_9999_9999,
        w0: 0x9999_9999_9999_9999,
    };
    let product = tenth.checked_times_ten().unwrap();
    assert_eq!(product.checked_add(&U256::from_u64(5)), Some(U256::max_value()));
    assert_eq!(tenth.successor().unwrap().checked_times_ten(), None);
    assert_eq!(U256::max_value().checked_times_ten(), None);
}
