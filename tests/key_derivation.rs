use bitcoin::bip32::{ChildNumber, Xpriv};
use bitcoin::hashes::{sha256, HashEngine, Hmac, HmacEngine};
use bitcoin::secp256k1::Secp256k1;
use bitcoin::Network;
use vss_ffi::{
    derive_data_encryption_and_obfuscation_keys, derive_session_keys, seed_from_mnemonic,
    VssError,
};

const ABANDON_MNEMONIC: &str = "abandon abandon abandon abandon abandon abandon abandon abandon abandon abandon abandon about";

fn hmac(key: &[u8], message: &[u8]) -> [u8; 32] {
    let mut engine = HmacEngine::<sha256::Hash>::new(key);
    engine.input(message);
    let h = <Hmac<sha256::Hash> as bitcoin::hashes::Hash>::from_engine(engine);
    bitcoin::hashes::Hash::to_byte_array(h)
}

fn hex(bytes: &[u8]) -> String {
    bytes.iter().map(|b| format!("{:02x}", b)).collect()
}

#[test]
fn symmetric_keys_follow_the_labelled_chain() {
    let secret = [7u8; 32];
    let (k1, k2) = derive_data_encryption_and_obfuscation_keys(&secret);
    let prk = hmac(b"pseudo_random_key", &secret);
    let expected_k1 = hmac(b"data_encryption_key", &prk);
    let mut salt = expected_k1.to_vec();
    salt.extend_from_slice(b"obfuscation_key");
    let expected_k2 = hmac(&salt, &prk);
    assert_eq!(k1, expected_k1);
    assert_eq!(k2, expected_k2);
    assert_ne!(k1, k2);
}

#[test]
fn hmac_matches_rfc4231_vector() {
    // RFC 4231, test case 2: the HMAC-SHA256 helper of these tests is sound.
    assert_eq!(
        hex(&hmac(b"Jefe", b"what do ya want for nothing?")),
        "5bdcc146bf60754e6a042426089575c75a003f089d2739839dec58b964ec3843"
    );
}

#[test]
fn session_keys_follow_the_derivation_path() {
    let seed = [42u8; 32];
    let keys = derive_session_keys(&seed).ok().expect("derivation succeeds");
    let secp = Secp256k1::new();
    let master = Xpriv::new_master(Network::Bitcoin, &seed).unwrap();
    let vss = master
        .derive_priv(&secp, &[ChildNumber::Hardened { index: 877 }])
        .unwrap();
    let auth = vss
        .derive_priv(&secp, &[ChildNumber::Hardened { index: 138 }])
        .unwrap();
    assert_eq!(keys.auth_key, auth.encode());
    let (k1, k2) = derive_data_encryption_and_obfuscation_keys(&vss.private_key.secret_bytes());
    assert_eq!(keys.data_encryption_key, k1);
    assert_eq!(keys.obfuscation_key, k2);
}

#[test]
fn derivation_is_deterministic() {
    let seed = [9u8; 32];
    let a = derive_session_keys(&seed).ok().unwrap();
    let b = derive_session_keys(&seed).ok().unwrap();
    assert_eq!(a.auth_key, b.auth_key);
    assert_eq!(a.data_encryption_key, b.data_encryption_key);
    assert_eq!(a.obfuscation_key, b.obfuscation_key);
}

#[test]
fn one_bit_changes_every_derived_key() {
    let seed = [42u8; 32];
    let mut other = seed;
    other[31] ^= 1;
    let a = derive_session_keys(&seed).ok().unwrap();
    let b = derive_session_keys(&other).ok().unwrap();
    assert_ne!(a.auth_key, b.auth_key);
    assert_ne!(a.data_encryption_key, b.data_encryption_key);
    assert_ne!(a.obfuscation_key, b.obfuscation_key);
}

#[test]
fn mnemonic_seed_is_first_half_of_bip39_seed() {
    let seed = seed_from_mnemonic(ABANDON_MNEMONIC, &None).ok().unwrap();
    assert_eq!(
        hex(&seed),
        "5eb00bbddcf069084889a8ab9155568165f5c453ccb85e70811aaed6f6da5fc1"
    );
    let with_pass = seed_from_mnemonic(ABANDON_MNEMONIC, &Some("TREZOR".to_string()))
        .ok()
        .unwrap();
    let full = bip39::Mnemonic::parse(ABANDON_MNEMONIC).unwrap().to_seed("TREZOR");
    assert_eq!(&with_pass[..], &full[..32]);
    assert_ne!(seed, with_pass);
}

#[test]
fn invalid_mnemonic_is_a_connection_error() {
    match seed_from_mnemonic("not a mnemonic at all", &None) {
        Err(VssError::ConnectionError { error_details }) => {
            assert!(error_details.starts_with("Invalid mnemonic: "))
        }
        _ => panic!("an invalid phrase must be rejected"),
    }
}
