use snpkey::key::{encode_key, DeriveError, DerivedKey, KEY_LEN};
use snpkey::request::{build, RootKeyKind};

#[test]
fn key_wraps_exactly_32_bytes() {
    let key = DerivedKey::from_bytes(vec![7u8; KEY_LEN]).unwrap();
    assert_eq!(key.as_bytes().as_slice(), &[7u8; KEY_LEN]);
}

#[test]
fn key_refuses_other_lengths() {
    assert!(DerivedKey::from_bytes(Vec::new()).is_none());
    assert!(DerivedKey::from_bytes(vec![0u8; 31]).is_none());
    assert!(DerivedKey::from_bytes(vec![0u8; 33]).is_none());
}

#[test]
fn encoding_is_le_length_prefix_then_key() {
    let bytes: Vec<u8> = (0..KEY_LEN as u8).collect();
    let key = DerivedKey::from_bytes(bytes.clone()).unwrap();
    let encoded = encode_key(&key);
    assert_eq!(encoded.len(), 40);
    assert_eq!(&encoded[..8], &[32, 0, 0, 0, 0, 0, 0, 0]);
    assert_eq!(&encoded[8..], bytes.as_slice());
}

#[test]
fn encoding_matches_bincode_layout() {
    let bytes = vec![0xABu8; KEY_LEN];
    let key = DerivedKey::from_bytes(bytes.clone()).unwrap();
    assert_eq!(encode_key(&key), bincode::serialize(&bytes).unwrap());
}

#[test]
fn loaded_bytes_hold_the_key_after_the_prefix() {
    let bytes: Vec<u8> = (100..100 + KEY_LEN as u8).collect();
    let key = DerivedKey::from_bytes(bytes.clone()).unwrap();
    let on_disk = encode_key(&key);
    assert_eq!(&on_disk[8..40], bytes.as_slice());
}

#[test]
fn selector_bit_is_zero_for_vcek_and_one_for_vmrk() {
    assert!(!snpkey::key::root_key_select_bit(RootKeyKind::Vcek));
    assert!(snpkey::key::root_key_select_bit(RootKeyKind::Vmrk));
}

#[test]
fn derive_without_firmware_device_is_unavailable() {
    let request = build(RootKeyKind::Vcek, 0, 0, 0, 0);
    match snpkey::key::derive(&request) {
        Err(DeriveError::FirmwareUnavailable) => {},
        Err(DeriveError::DerivationRejected) => panic!("no device, so no firmware rejection"),
        Ok(_) => panic!("a derived key cannot come from a machine without the device"),
    }
}
