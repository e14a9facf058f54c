use crate::errors::VssError;
use bip39::Mnemonic;
use bitcoin::bip32::{ChildNumber, Xpriv};
use bitcoin::hashes::{sha256, HashEngine, Hmac, HmacEngine};
use bitcoin::secp256k1::Secp256k1;
use bitcoin::Network;
use vstd::prelude::*;
use vstd::string::StringSliceAdditionalSpecFns;

verus! {

/// Hardened index, under the master key, of the key that protects the store.
pub const VSS_HARDENED_CHILD_INDEX: u32 = 877;

/// Hardened index, under the store key, of the key that authenticates to the store.
pub const VSS_LNURL_AUTH_HARDENED_CHILD_INDEX: u32 = 138;

/// HMAC-SHA256 of `message` under `key`.
pub uninterp spec fn hmac_sha256_of(key: Seq<u8>, message: Seq<u8>) -> Seq<u8>;

/// The BIP32 serialisation (78 bytes) of the master extended private key of `seed`,
/// on the main network; `None` when the seed gives no valid secret key.
pub uninterp spec fn master_key_of(seed: Seq<u8>) -> Option<Seq<u8>>;

/// The BIP32 serialisation of the hardened child `index` of the extended private key
/// serialised as `parent`; `None` when `parent` is no valid key or is at the largest
/// depth.
pub uninterp spec fn hardened_child_of(parent: Seq<u8>, index: u32) -> Option<Seq<u8>>;

/// The 64-byte BIP39 seed of a mnemonic phrase under a passphrase; `None` when the
/// phrase is not a valid mnemonic.
pub uninterp spec fn mnemonic_seed_of(phrase: Seq<char>, passphrase: Seq<char>) -> Option<Seq<u8>>;

/// Relies on bitcoin's `HmacEngine<sha256::Hash>`: `new(key)`, `input(message)`, then
/// `Hmac::from_engine` gives the 32-byte HMAC-SHA256 of `message` under `key`.
#[verifier::external_body]
fn hmac_sha256(key: &[u8], message: &[u8]) -> (r: [u8; 32])
    ensures
        r@ == hmac_sha256_of(key@, message@),
{
    let mut engine = HmacEngine::<sha256::Hash>::new(key);
    engine.input(message);
    let hmac = <Hmac<sha256::Hash> as bitcoin::hashes::Hash>::from_engine(engine);
    bitcoin::hashes::Hash::to_byte_array(hmac)
}

/// Relies on bitcoin's `Xpriv::new_master` (main network) and `Xpriv::encode`: the
/// master key of `seed`, serialised; an error when the seed gives no valid key.
#[verifier::external_body]
fn master_key(seed: &[u8]) -> (r: Result<[u8; 78], String>)
    ensures
        r matches Ok(k) ==> master_key_of(seed@) == Some(k@),
        r is Err ==> master_key_of(seed@) is None,
{
    Xpriv::new_master(Network::Bitcoin, seed).map(|k| k.encode()).map_err(|e| e.to_string())
}

/// Relies on bitcoin's `Xpriv::derive_priv` with one hardened child number, between
/// `Xpriv::decode` and `Xpriv::encode`: the serialised hardened child `index` of
/// `parent`; an error when `parent` is no valid key or the depth overflows.
#[verifier::external_body]
fn hardened_child(parent: &[u8; 78], index: u32) -> (r: Result<[u8; 78], String>)
    requires
        index < 0x8000_0000,
    ensures
        r matches Ok(k) ==> hardened_child_of(parent@, index) == Some(k@),
        r is Err ==> hardened_child_of(parent@, index) is None,
{
    let parent = Xpriv::decode(parent).map_err(|e| e.to_string())?;
    let path = [ChildNumber::Hardened { index }];
    parent.derive_priv(&Secp256k1::new(), &path).map(|k| k.encode()).map_err(|e| e.to_string())
}

/// Relies on bip39's `Mnemonic::from_str` and `Mnemonic::to_seed`: the seed of a valid
/// phrase under `passphrase`; an error when the phrase is not a valid mnemonic.
#[verifier::external_body]
fn bip39_seed(phrase: &str, passphrase: &str) -> (r: Result<[u8; 64], String>)
    ensures
        r matches Ok(s) ==> mnemonic_seed_of(phrase@, passphrase@) == Some(s@),
        r is Err ==> mnemonic_seed_of(phrase@, passphrase@) is None,
{
    <Mnemonic as std::str::FromStr>::from_str(phrase).map(|m| m.to_seed(passphrase)).map_err(|e| e.to_string())
}

/// The secret key inside a BIP32 serialisation of an extended private key: its last
/// 32 bytes.
pub open spec fn secret_of(extended_key: Seq<u8>) -> Seq<u8> {
    extended_key.subrange(46, 78)
}

/// One keyed-hash stage: HMAC-SHA256 of the input key material, keyed by the salt.
pub open spec fn hkdf(input_key_material: Seq<u8>, salt: Seq<u8>) -> Seq<u8> {
    hmac_sha256_of(salt, input_key_material)
}

/// The intermediate pseudorandom key of a store key's secret.
pub open spec fn pseudo_random_key_of(vss_secret: Seq<u8>) -> Seq<u8> {
    hkdf(vss_secret, "pseudo_random_key".spec_bytes())
}

/// The data-encryption key of a store key's secret.
pub open spec fn data_encryption_key_of(vss_secret: Seq<u8>) -> Seq<u8> {
    hkdf(pseudo_random_key_of(vss_secret), "data_encryption_key".spec_bytes())
}

/// The obfuscation key of a store key's secret: salted with the data-encryption key
/// followed by its own label.
pub open spec fn obfuscation_key_of(vss_secret: Seq<u8>) -> Seq<u8> {
    hkdf(
        pseudo_random_key_of(vss_secret),
        data_encryption_key_of(vss_secret) + "obfuscation_key".spec_bytes(),
    )
}

/// The store key of a seed: hardened child 877 of the master key.
pub open spec fn vss_key_of(seed: Seq<u8>) -> Option<Seq<u8>> {
    match master_key_of(seed) {
        Some(master) => hardened_child_of(master, VSS_HARDENED_CHILD_INDEX),
        None => None,
    }
}

/// The authentication key of a seed: hardened child 138 of the store key.
pub open spec fn auth_key_of(seed: Seq<u8>) -> Option<Seq<u8>> {
    match vss_key_of(seed) {
        Some(vss) => hardened_child_of(vss, VSS_LNURL_AUTH_HARDENED_CHILD_INDEX),
        None => None,
    }
}

/// Every derivation step from `seed` succeeds: the master key, the store key and
/// the authentication key all exist.
pub open spec fn session_keys_defined(seed: Seq<u8>) -> bool {
    auth_key_of(seed) is Some
}

/// Derives the data-encryption key and the obfuscation master key from the secret
/// of the store key.
pub fn derive_data_encryption_and_obfuscation_keys(vss_seed: &[u8; 32]) -> (r: (
    [u8; 32],
    [u8; 32],
))
    ensures
        r.0@ == data_encryption_key_of(vss_seed@),
        r.1@ == obfuscation_key_of(vss_seed@),
{
    let prk = hmac_sha256("pseudo_random_key".as_bytes(), vss_seed.as_slice());
    let k1 = hmac_sha256("data_encryption_key".as_bytes(), prk.as_slice());
    let mut salt: Vec<u8> = Vec::new();
    salt.extend_from_slice(k1.as_slice());
    let label = "obfuscation_key".as_bytes();
    salt.extend_from_slice(label);
    assert(salt@ =~= k1@ + "obfuscation_key".spec_bytes());
    let k2 = hmac_sha256(salt.as_slice(), prk.as_slice());
    (k1, k2)
}

/// Everything a session derives from its seed.
pub struct SessionKeys {
    /// The authentication key, as a BIP32 serialised extended private key.
    pub auth_key: [u8; 78],
    pub data_encryption_key: [u8; 32],
    pub obfuscation_key: [u8; 32],
}

impl SessionKeys {
    /// The keys that `seed` determines.
    pub open spec fn derived_from(&self, seed: Seq<u8>) -> bool {
        &&& auth_key_of(seed) == Some(self.auth_key@)
        &&& vss_key_of(seed) matches Some(vss)
        &&& self.data_encryption_key@ == data_encryption_key_of(secret_of(vss))
        &&& self.obfuscation_key@ == obfuscation_key_of(secret_of(vss))
    }
}

/// Session keys are a function of the seed: two derivations from one seed give the
/// same authentication key, data-encryption key and obfuscation key.
pub proof fn lemma_derivation_deterministic(seed: Seq<u8>, a: SessionKeys, b: SessionKeys)
    requires
        a.derived_from(seed),
        b.derived_from(seed),
    ensures
        a.auth_key@ == b.auth_key@,
        a.data_encryption_key@ == b.data_encryption_key@,
        a.obfuscation_key@ == b.obfuscation_key@,
{
}

/// Derives the session keys of a seed: the store key at the fixed hardened index,
/// the authentication key below it, and the two symmetric keys from the store key's
/// secret. A failed derivation step is a connection error.
pub fn derive_session_keys(seed: &[u8; 32]) -> (r: Result<SessionKeys, VssError>)
    ensures
        r is Ok <==> session_keys_defined(seed@),
        r matches Ok(keys) ==> keys.derived_from(seed@),
        r matches Err(e) ==> e is ConnectionError,
{
    let master = match master_key(seed.as_slice()) {
        Ok(k) => k,
        Err(e) => {
            return Err(VssError::ConnectionError {
                error_details: String::from_str("Failed to create master key: ").concat(
                    e.as_str(),
                ),
            });
        },
    };
    let vss_key = match hardened_child(&master, VSS_HARDENED_CHILD_INDEX) {
        Ok(k) => k,
        Err(e) => {
            return Err(VssError::ConnectionError {
                error_details: String::from_str("Failed to derive VSS key: ").concat(e.as_str()),
            });
        },
    };
    let auth_key = match hardened_child(&vss_key, VSS_LNURL_AUTH_HARDENED_CHILD_INDEX) {
        Ok(k) => k,
        Err(e) => {
            return Err(VssError::ConnectionError {
                error_details: String::from_str("Failed to derive LNURL-auth key: ").concat(
                    e.as_str(),
                ),
            });
        },
    };
    let mut secret: [u8; 32] = [0u8; 32];
    let mut i: usize = 0;
    while i < 32
        invariant
            i <= 32,
            forall|j: int| 0 <= j < i ==> secret@[j] == vss_key@[46 + j],
        decreases 32 - i,
    {
        secret[i] = vss_key[46 + i];
        i = i + 1;
    }
    assert(secret@ =~= secret_of(vss_key@));
    let (data_encryption_key, obfuscation_key) = derive_data_encryption_and_obfuscation_keys(
        &secret,
    );
    Ok(SessionKeys { auth_key, data_encryption_key, obfuscation_key })
}

/// The passphrase that stands for an absent one: the empty string.
pub open spec fn passphrase_or_empty(passphrase: Option<String>) -> Seq<char> {
    match passphrase {
        Some(p) => p@,
        None => Seq::<char>::empty(),
    }
}

/// The 32-byte session seed of a mnemonic phrase: the first half of its BIP39 seed
/// under the passphrase (the empty one when none is given). An invalid phrase is a
/// connection error.
pub fn seed_from_mnemonic(mnemonic: &str, passphrase: &Option<String>) -> (r: Result<
    [u8; 32],
    VssError,
>)
    ensures
        r is Ok <==> mnemonic_seed_of(mnemonic@, passphrase_or_empty(*passphrase)) is Some,
        r matches Ok(s) ==> mnemonic_seed_of(mnemonic@, passphrase_or_empty(*passphrase))
            matches Some(full) && s@ == full.subrange(0, 32),
        r matches Err(e) ==> e is ConnectionError && "Invalid mnemonic: "@.is_prefix_of(
            e.details(),
        ),
{
    let derived = match passphrase {
        Some(p) => bip39_seed(mnemonic, p.as_str()),
        None => {
            proof {
                reveal_strlit("");
            }
            assert(""@ =~= Seq::<char>::empty());
            bip39_seed(mnemonic, "")
        },
    };
    match derived {
        Ok(full) => {
            assert(mnemonic_seed_of(mnemonic@, passphrase_or_empty(*passphrase)) == Some(full@));
            let mut seed: [u8; 32] = [0u8; 32];
            let mut i: usize = 0;
            while i < 32
                invariant
                    i <= 32,
                    forall|j: int| 0 <= j < i ==> seed@[j] == full@[j],
                decreases 32 - i,
            {
                seed[i] = full[i];
                i = i + 1;
            }
            assert(seed@ =~= full@.subrange(0, 32));
            Ok(seed)
        },
        Err(e) => {
            let details = String::from_str("Invalid mnemonic: ").concat(e.as_str());
            assert(details@.subrange(0, "Invalid mnemonic: "@.len() as int)
                =~= "Invalid mnemonic: "@);
            Err(VssError::ConnectionError { error_details: details })
        },
    }
}

} // verus!
