use crate::errors::VssError;
use prost::Message;
use rand::RngCore;
use vss_client::types::Storable;
use vss_client::util::storable_builder::{EntropySource, StorableBuilder};
use vstd::prelude::*;

verus! {

/// Nonce material for envelopes, from the thread-local generator of `rand`.
pub struct RandEntropySource;

impl EntropySource for RandEntropySource {
    /// Relies on rand's `thread_rng().fill_bytes`, which fills the whole buffer.
    #[verifier::external_body]
    fn fill_bytes(&self, buffer: &mut [u8]) {
        rand::thread_rng().fill_bytes(buffer);
    }
}

/// How an envelope's data was encrypted.
pub struct EncryptionMetadata {
    pub cipher_format: String,
    pub nonce: Vec<u8>,
    pub tag: Vec<u8>,
}

/// An encrypted value as the store keeps it: ciphertext and encryption metadata.
pub struct Envelope {
    pub data: Vec<u8>,
    pub metadata: Option<EncryptionMetadata>,
}

/// The mathematical content of an envelope: its data, and the cipher format, nonce
/// and tag of its metadata when it has any.
pub type EnvelopeView = (Seq<u8>, Option<(Seq<char>, Seq<u8>, Seq<u8>)>);

impl View for Envelope {
    type V = EnvelopeView;

    open spec fn view(&self) -> EnvelopeView {
        (
            self.data@,
            match self.metadata {
                Some(m) => Some((m.cipher_format@, m.nonce@, m.tag@)),
                None => None,
            },
        )
    }
}

/// The wire encoding of an envelope.
pub uninterp spec fn envelope_encoding(envelope: EnvelopeView) -> Seq<u8>;

/// The envelope that `bytes` decode to; `None` when they are no valid encoding.
pub uninterp spec fn decoded_envelope(bytes: Seq<u8>) -> Option<EnvelopeView>;

/// What decrypting `data` under `data_key`, `nonce` and `tag` yields: the stored value
/// and version, or `None` when the tag does not authenticate the data or the
/// plaintext is malformed.
pub uninterp spec fn decrypted_payload(
    data_key: Seq<u8>,
    data: Seq<u8>,
    nonce: Seq<u8>,
    tag: Seq<u8>,
) -> Option<(Seq<u8>, i64)>;

/// The metadata shape that the cipher accepts: a 12-byte nonce whose first four bytes
/// are zero, and a 16-byte tag.
pub open spec fn decryptable(envelope: EnvelopeView) -> bool {
    match envelope.1 {
        Some((_, nonce, tag)) => nonce.len() == 12 && nonce[0] == 0 && nonce[1] == 0
            && nonce[2] == 0 && nonce[3] == 0 && tag.len() == 16,
        None => false,
    }
}

/// What an envelope opens to under `data_key`.
pub open spec fn opened(data_key: Seq<u8>, envelope: EnvelopeView) -> Option<(Seq<u8>, i64)> {
    match envelope.1 {
        Some((_, nonce, tag)) => decrypted_payload(data_key, envelope.0, nonce, tag),
        None => None,
    }
}

/// `bytes` encode an envelope that opens under `data_key` to `value` at `version`.
pub open spec fn seals(data_key: Seq<u8>, bytes: Seq<u8>, value: Seq<u8>, version: i64) -> bool {
    exists|e: EnvelopeView|
        #![trigger envelope_encoding(e)]
        envelope_encoding(e) == bytes && decryptable(e) && opened(data_key, e) == Some(
            (value, version),
        )
}

/// Relies on vss-client's `StorableBuilder::build`: ChaCha20-Poly1305 under
/// `data_key` with a random 12-byte nonce (four zero bytes, then eight random ones)
/// and a 16-byte tag; `deconstruct` of the result gives back `value` and `version`.
#[verifier::external_body]
fn build_envelope(data_key: &[u8; 32], value: Vec<u8>, version: i64) -> (r: Envelope)
    ensures
        decryptable(r@),
        r.metadata matches Some(m) ==> decrypted_payload(data_key@, r.data@, m.nonce@, m.tag@)
            == Some((value@, version)),
{
    let storable = StorableBuilder::new(*data_key, RandEntropySource).build(value, version);
    Envelope {
        data: storable.data,
        metadata: storable.encryption_metadata.map(
            |m| EncryptionMetadata { cipher_format: m.cipher_format, nonce: m.nonce, tag: m.tag },
        ),
    }
}

/// Relies on vss-client's `StorableBuilder::deconstruct`: it authenticates and
/// decrypts the data with the metadata's nonce and tag. It panics without metadata or
/// on a nonce or tag of another shape, which `requires` rules out.
#[verifier::external_body]
fn decrypt_envelope(data_key: &[u8; 32], envelope: Envelope) -> (r: Result<(Vec<u8>, i64), String>)
    requires
        decryptable(envelope@),
    ensures
        envelope.metadata matches Some(m) ==> match r {
            Ok((value, version)) => decrypted_payload(data_key@, envelope.data@, m.nonce@, m.tag@)
                == Some((value@, version)),
            Err(_) => decrypted_payload(data_key@, envelope.data@, m.nonce@, m.tag@) is None,
        },
{
    let storable = Storable {
        data: envelope.data,
        encryption_metadata: envelope.metadata.map(
            |m| vss_client::types::EncryptionMetadata {
                cipher_format: m.cipher_format,
                nonce: m.nonce,
                tag: m.tag,
            },
        ),
    };
    StorableBuilder::new(*data_key, RandEntropySource).deconstruct(storable).map_err(
        |e| e.to_string(),
    )
}

/// Relies on prost's `Message::encode_to_vec` for vss-client's `Storable`.
#[verifier::external_body]
fn encode_envelope(envelope: &Envelope) -> (r: Vec<u8>)
    ensures
        r@ == envelope_encoding(envelope@),
{
    let storable = Storable {
        data: envelope.data.clone(),
        encryption_metadata: envelope.metadata.as_ref().map(
            |m| vss_client::types::EncryptionMetadata {
                cipher_format: m.cipher_format.clone(),
                nonce: m.nonce.clone(),
                tag: m.tag.clone(),
            },
        ),
    };
    storable.encode_to_vec()
}

/// Relies on prost's `Message::decode` for vss-client's `Storable`: it gives back
/// whatever `encode_to_vec` encoded.
#[verifier::external_body]
fn decode_envelope(bytes: &[u8]) -> (r: Result<Envelope, String>)
    ensures
        r matches Ok(d) ==> decoded_envelope(bytes@) == Some(d@),
        r is Err ==> decoded_envelope(bytes@) is None,
        (exists|e: EnvelopeView| #[trigger] envelope_encoding(e) == bytes@) ==> r is Ok,
        r matches Ok(d) ==> forall|e: EnvelopeView| #[trigger]
            envelope_encoding(e) == bytes@ ==> d@ == e,
{
    let storable = Storable::decode(bytes).map_err(|e| e.to_string())?;
    Ok(
        Envelope {
            data: storable.data,
            metadata: storable.encryption_metadata.map(
                |m| EncryptionMetadata {
                    cipher_format: m.cipher_format,
                    nonce: m.nonce,
                    tag: m.tag,
                },
            ),
        },
    )
}

/// What stored `bytes` open to under `data_key`: the value and version inside the
/// envelope that they decode to, when that envelope has decryptable metadata and
/// authenticates; `None` otherwise.
pub open spec fn opened_bytes(data_key: Seq<u8>, bytes: Seq<u8>) -> Option<(Seq<u8>, i64)> {
    match decoded_envelope(bytes) {
        Some(e) => if decryptable(e) {
            opened(data_key, e)
        } else {
            None
        },
        None => None,
    }
}

/// Encrypts `value` at `version` under `data_key` and encodes the envelope.
pub fn seal_value(data_key: &[u8; 32], value: Vec<u8>, version: i64) -> (r: Vec<u8>)
    ensures
        seals(data_key@, r@, value@, version),
{
    let envelope = build_envelope(data_key, value, version);
    let bytes = encode_envelope(&envelope);
    assert(envelope_encoding(envelope@) == bytes@);
    bytes
}

/// Whether an envelope's metadata has the shape that the cipher accepts.
pub fn is_decryptable(envelope: &Envelope) -> (r: bool)
    ensures
        r == decryptable(envelope@),
{
    match &envelope.metadata {
        Some(m) => m.nonce.len() == 12 && m.nonce[0] == 0 && m.nonce[1] == 0 && m.nonce[2] == 0
            && m.nonce[3] == 0 && m.tag.len() == 16,
        None => false,
    }
}

/// Decodes and decrypts a stored envelope under `data_key`. Bytes that `seal_value`
/// produced for the same key open to the value and version sealed in them; any
/// failure to decode or to decrypt is a read error.
pub fn open_value(data_key: &[u8; 32], bytes: &[u8]) -> (r: Result<(Vec<u8>, i64), VssError>)
    ensures
        match opened_bytes(data_key@, bytes@) {
            Some(p) => r matches Ok(q) && q.0@ == p.0 && q.1 == p.1,
            None => r matches Err(e) && e is GetError,
        },
        forall|value: Seq<u8>, version: i64| #[trigger]
            seals(data_key@, bytes@, value, version) ==> (r matches Ok(p) && p.0@ == value && p.1
                == version),
{
    let envelope = match decode_envelope(bytes) {
        Ok(e) => e,
        Err(e) => {
            return Err(VssError::GetError {
                error_details: String::from_str("Failed to decode storable: ").concat(e.as_str()),
            });
        },
    };
    if !is_decryptable(&envelope) {
        let r = Err(VssError::GetError {
            error_details: String::from_str("Failed to decode storable: malformed encryption metadata"),
        });
        assert forall|value: Seq<u8>, version: i64| #[trigger]
            seals(data_key@, bytes@, value, version) implies false by {
            let e = choose|e: EnvelopeView|
                #![trigger envelope_encoding(e)]
                envelope_encoding(e) == bytes@ && decryptable(e) && opened(data_key@, e) == Some(
                    (value, version),
                );
            assert(envelope@ == e);
        }
        return r;
    }
    let ghost view = envelope@;
    match decrypt_envelope(data_key, envelope) {
        Ok(p) => {
            assert forall|value: Seq<u8>, version: i64| #[trigger]
                seals(data_key@, bytes@, value, version) implies p.0@ == value && p.1
                == version by {
                let e = choose|e: EnvelopeView|
                    #![trigger envelope_encoding(e)]
                    envelope_encoding(e) == bytes@ && decryptable(e) && opened(data_key@, e)
                        == Some((value, version));
                assert(view == e);
            }
            Ok(p)
        },
        Err(e) => {
            assert forall|value: Seq<u8>, version: i64| #[trigger]
                seals(data_key@, bytes@, value, version) implies false by {
                let w = choose|w: EnvelopeView|
                    #![trigger envelope_encoding(w)]
                    envelope_encoding(w) == bytes@ && decryptable(w) && opened(data_key@, w)
                        == Some((value, version));
                assert(view == w);
            }
            Err(
                VssError::GetError {
                    error_details: String::from_str("Failed to decrypt data: ").concat(e.as_str()),
                },
            )
        },
    }
}

} // verus!
