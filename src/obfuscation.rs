use vss_client::util::key_obfuscator::KeyObfuscator;
use vstd::prelude::*;

verus! {

/// The storage key that vss-client's key obfuscator makes of `key` under the
/// obfuscation master key `master_key`.
pub uninterp spec fn obfuscated(master_key: Seq<u8>, key: Seq<char>) -> Seq<char>;

/// Relies on vss-client's `KeyObfuscator::new(master_key).obfuscate(key)`: a
/// deterministic encryption of the key, with a nonce derived from the key itself.
#[verifier::external_body]
pub(crate) fn obfuscate(master_key: &[u8; 32], key: &str) -> (r: String)
    ensures
        r@ == obfuscated(master_key@, key@),
{
    KeyObfuscator::new(*master_key).obfuscate(key)
}

/// Relies on vss-client's `KeyObfuscator::deobfuscate`: under the same master key it
/// gives back the key that `obfuscate` was given. On other strings it may fail, and
/// it panics on a string whose wrapped nonce authenticates but does not start with
/// four zero bytes, so `requires` admits obfuscation outputs only.
#[verifier::external_body]
pub(crate) fn deobfuscate(master_key: &[u8; 32], storage_key: &str) -> (r: Result<String, String>)
    requires
        exists|key: Seq<char>| #[trigger] obfuscated(master_key@, key) == storage_key@,
    ensures
        r is Ok,
        r matches Ok(k) ==> obfuscated(master_key@, k@) == storage_key@,
        r matches Ok(k) ==> forall|key: Seq<char>| #[trigger]
            obfuscated(master_key@, key) == storage_key@ ==> k@ == key,
{
    KeyObfuscator::new(*master_key).deobfuscate(storage_key).map_err(|e| e.to_string())
}

} // verus!
