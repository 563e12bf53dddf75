use chopnow::digest::{new_id, stamp_bytes};
use chopnow::identity::Address;

#[test]
fn stamp_frames_kind_key_label_and_time() {
    let who = Address::contract([5; 32]);
    let bytes = stamp_bytes(&who, Some(3), 0x0102030405060708);
    let mut expected = vec![1u8];
    expected.extend_from_slice(&[5; 32]);
    expected.push(3);
    expected.extend_from_slice(&[8, 7, 6, 5, 4, 3, 2, 1]);
    assert_eq!(bytes, expected);

    let plain = stamp_bytes(&Address::account([5; 32]), None, 1000);
    assert_eq!(plain.len(), 41);
    assert_eq!(plain[0], 0);
    assert_eq!(plain[33..], [0xe8, 0x03, 0, 0, 0, 0, 0, 0]);
}

#[test]
fn id_is_the_sha256_of_the_stamp() {
    assert_eq!(
        new_id(&Address::contract([5; 32]), Some(3), 0x0102030405060708),
        [
            0xe2, 0x2e, 0x45, 0x6a, 0xf8, 0xfa, 0x57, 0xec, 0x15, 0xda, 0x00, 0x59, 0x6a, 0x6e,
            0x69, 0x99, 0x9e, 0x95, 0xaa, 0x11, 0x71, 0x26, 0x39, 0xcf, 0xed, 0x10, 0xd8, 0x98,
            0xaa, 0xc2, 0xdf, 0x50
        ]
    );
    assert_eq!(
        new_id(&Address::account([5; 32]), None, 1000),
        [
            0x8c, 0xd4, 0xa2, 0x92, 0xf3, 0xa4, 0xa2, 0x4f, 0x38, 0x57, 0xd1, 0x51, 0x9a, 0xc6,
            0xca, 0x69, 0x75, 0x08, 0xcd, 0x71, 0x5d, 0x08, 0x4b, 0x52, 0xd3, 0xd9, 0x34, 0x0c,
            0x37, 0x6b, 0xda, 0x3d
        ]
    );
}
