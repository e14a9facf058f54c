//! Client core for a versioned, encrypted key-value store: key derivation from a
//! seed, key-name obfuscation, encrypted value envelopes, the retry policy of
//! remote calls, and the request/response logic of the store operations.
mod client;
mod envelope;
mod errors;
mod keys;
mod obfuscation;
mod retry;
mod types;

pub use client::{
    kept_items, lemma_batch_is_whole, lemma_batch_read_back, lemma_identity_mode, lemma_key_round_trip,
    lemma_write_read_round_trip, LnurlAuth, VssClient, SERVER_ASSIGNED_VERSION,
};
pub use envelope::{
    decoded_envelope, decryptable, decrypted_payload, envelope_encoding, open_value, opened,
    opened_bytes, seal_value, seals,
    EncryptionMetadata, Envelope, EnvelopeView, RandEntropySource,
};
pub use errors::{convert_error, converts_to, RemoteError, RemoteErrorKind, VssError};
pub use keys::{
    auth_key_of, data_encryption_key_of, derive_data_encryption_and_obfuscation_keys,
    derive_session_keys, hardened_child_of, hkdf, hmac_sha256_of, lemma_derivation_deterministic,
    master_key_of, mnemonic_seed_of, obfuscation_key_of, passphrase_or_empty,
    pseudo_random_key_of, secret_of, seed_from_mnemonic, session_keys_defined, vss_key_of, SessionKeys,
    VSS_HARDENED_CHILD_INDEX, VSS_LNURL_AUTH_HARDENED_CHILD_INDEX,
};
pub use obfuscation::obfuscated;
pub use retry::{
    backoff, lemma_backoff_monotonic, lemma_conflict_not_retried,
    lemma_non_retryable_single_attempt, lemma_retry_budget_exhaustion, saturate, RetryPolicy,
    RetryState, RetryStep,
};
pub use types::{
    DeleteObjectRequest, GetObjectRequest, KeyValue, KeyVersion, ListKeyVersionsRequest,
    ListKeyVersionsResponse, PutObjectRequest, RemoteItem, VssFilterType, VssItem,
};
