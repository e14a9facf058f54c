use prost::Message;
use vss_ffi::{open_value, seal_value, VssError};

#[test]
fn sealed_values_open_to_themselves() {
    let key = [3u8; 32];
    let bytes = seal_value(&key, vec![1, 2, 3], -1);
    assert_ne!(bytes, vec![1, 2, 3]);
    let (value, version) = open_value(&key, &bytes).ok().unwrap();
    assert_eq!(value, vec![1, 2, 3]);
    assert_eq!(version, -1);
}

#[test]
fn empty_value_round_trips() {
    let key = [0u8; 32];
    let bytes = seal_value(&key, vec![], 7);
    let (value, version) = open_value(&key, &bytes).ok().unwrap();
    assert!(value.is_empty());
    assert_eq!(version, 7);
}

#[test]
fn sealing_twice_uses_fresh_nonces() {
    let key = [5u8; 32];
    let a = seal_value(&key, vec![9; 16], -1);
    let b = seal_value(&key, vec![9; 16], -1);
    assert_ne!(a, b);
}

#[test]
fn wrong_key_is_a_read_error() {
    let bytes = seal_value(&[1u8; 32], vec![4, 5, 6], -1);
    match open_value(&[2u8; 32], &bytes) {
        Err(VssError::GetError { error_details }) => {
            assert!(error_details.starts_with("Failed to decrypt data: "))
        }
        _ => panic!("a value sealed under another key must not open"),
    }
}

#[test]
fn undecodable_bytes_are_a_read_error() {
    match open_value(&[1u8; 32], &[0xff, 0xff, 0xff]) {
        Err(VssError::GetError { error_details }) => {
            assert!(error_details.starts_with("Failed to decode storable: "))
        }
        _ => panic!("garbage must not open"),
    }
}

#[test]
fn malformed_metadata_is_a_read_error_not_a_panic() {
    let missing = vss_client::types::Storable { data: vec![1, 2], encryption_metadata: None };
    assert!(matches!(
        open_value(&[1u8; 32], &missing.encode_to_vec()),
        Err(VssError::GetError { .. })
    ));
    let short_nonce = vss_client::types::Storable {
        data: vec![1, 2],
        encryption_metadata: Some(vss_client::types::EncryptionMetadata {
            cipher_format: "ChaCha20Poly1305".to_string(),
            nonce: vec![0; 5],
            tag: vec![0; 16],
        }),
    };
    assert!(matches!(
        open_value(&[1u8; 32], &short_nonce.encode_to_vec()),
        Err(VssError::GetError { .. })
    ));
    let short_tag = vss_client::types::Storable {
        data: vec![1, 2],
        encryption_metadata: Some(vss_client::types::EncryptionMetadata {
            cipher_format: "ChaCha20Poly1305".to_string(),
            nonce: vec![0; 12],
            tag: vec![0; 3],
        }),
    };
    assert!(matches!(
        open_value(&[1u8; 32], &short_tag.encode_to_vec()),
        Err(VssError::GetError { .. })
    ));
}
