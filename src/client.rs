use crate::envelope::{open_value, opened_bytes, seal_value, seals};
use crate::errors::{convert_error, converts_to, RemoteError, VssError};
use crate::keys::{derive_session_keys, session_keys_defined, SessionKeys};
use crate::obfuscation::{deobfuscate, obfuscate, obfuscated};
use crate::retry::RetryPolicy;
use crate::types::{
    DeleteObjectRequest, GetObjectRequest, KeyValue, KeyVersion, ListKeyVersionsRequest,
    PutObjectRequest, RemoteItem, VssItem,
};
use vstd::prelude::*;

verus! {

/// The version that asks the server to assign a new one on write.
pub const SERVER_ASSIGNED_VERSION: i64 = -1;

/// Challenge-response authentication: the server that issues challenges, and the
/// key (a BIP32 serialised extended private key) that signs them.
pub struct LnurlAuth {
    pub server_url: String,
    pub auth_key: [u8; 78],
}

/// A session with one store namespace: where the store is, how keys and values are
/// protected, how remote calls are retried, and how requests authenticate.
///
/// Without an obfuscation key, storage keys are the plaintext keys (identity mode).
pub struct VssClient {
    pub base_url: String,
    pub store_id: String,
    pub data_encryption_key: [u8; 32],
    pub obfuscation_key: Option<[u8; 32]>,
    pub auth: Option<LnurlAuth>,
    pub retry_policy: RetryPolicy,
}

impl VssClient {
    /// A session without authentication and without obfuscation: values are sealed
    /// under the all-zero key.
    pub fn new(base_url: String, store_id: String) -> (r: Result<Self, VssError>)
        ensures
            r matches Ok(c) && c.base_url@ == base_url@ && c.store_id@ == store_id@
                && c.data_encryption_key@ == seq![0u8; 32] && c.obfuscation_key is None
                && c.auth is None && c.retry_policy.is_default(),
    {
        let zero_key: [u8; 32] = [0u8; 32];
        assert(zero_key@ =~= seq![0u8; 32]);
        Ok(
            VssClient {
                base_url,
                store_id,
                data_encryption_key: zero_key,
                obfuscation_key: None,
                auth: None,
                retry_policy: RetryPolicy::default_policy(),
            },
        )
    }

    /// A session whose keys all derive from `seed`: challenge-response authentication
    /// with the derived authentication key, values sealed under the derived
    /// data-encryption key, and keys obfuscated under the derived obfuscation key. A
    /// failed derivation is a connection error.
    pub fn new_with_lnurl_auth(
        base_url: String,
        store_id: String,
        seed: [u8; 32],
        lnurl_auth_server_url: String,
    ) -> (r: Result<Self, VssError>)
        ensures
            r matches Ok(c) ==> {
                &&& c.base_url@ == base_url@
                &&& c.store_id@ == store_id@
                &&& c.retry_policy.is_default()
                &&& c.seeded(seed@, lnurl_auth_server_url@)
            },
            r is Ok <==> session_keys_defined(seed@),
            r matches Err(e) ==> e is ConnectionError,
    {
        let keys = derive_session_keys(&seed)?;
        Ok(
            VssClient {
                base_url,
                store_id,
                data_encryption_key: keys.data_encryption_key,
                obfuscation_key: Some(keys.obfuscation_key),
                auth: Some(LnurlAuth { server_url: lnurl_auth_server_url, auth_key: keys.auth_key }),
                retry_policy: RetryPolicy::default_policy(),
            },
        )
    }

    /// The session authenticates against `auth_server_url`, and its keys are the ones
    /// that `seed` derives.
    pub open spec fn seeded(&self, seed: Seq<u8>, auth_server_url: Seq<char>) -> bool {
        &&& self.auth matches Some(a)
        &&& a.server_url@ == auth_server_url
        &&& self.obfuscation_key matches Some(k)
        &&& (SessionKeys {
            auth_key: a.auth_key,
            data_encryption_key: self.data_encryption_key,
            obfuscation_key: k,
        }).derived_from(seed)
    }

    /// The storage key of a plaintext key.
    pub open spec fn storage_key(&self, key: Seq<char>) -> Seq<char> {
        match self.obfuscation_key {
            Some(k) => obfuscated(k@, key),
            None => key,
        }
    }

    /// `storage_key` stands for a plaintext key: with obfuscation, some key obfuscates
    /// to it; without, every string is its own storage key.
    pub open spec fn names_a_key(&self, storage_key: Seq<char>) -> bool {
        match self.obfuscation_key {
            Some(k) => exists|key: Seq<char>| #[trigger] obfuscated(k@, key) == storage_key,
            None => true,
        }
    }

    /// `r` is the plaintext key of `storage_key`: the one key whose storage key it is.
    pub open spec fn extracts(&self, storage_key: Seq<char>, r: Result<String, VssError>) -> bool {
        &&& r matches Ok(k) && self.storage_key(k@) == storage_key
        &&& forall|key: Seq<char>| #[trigger]
            self.storage_key(key) == storage_key ==> (r matches Ok(k) && k@ == key)
    }

    /// Converts a plaintext key to its storage key.
    pub fn build_key(&self, key: &str) -> (r: String)
        ensures
            r@ == self.storage_key(key@),
    {
        match &self.obfuscation_key {
            Some(k) => obfuscate(k, key),
            None => key.to_owned(),
        }
    }

    /// Converts a storage key back to its plaintext key. A string that no key
    /// obfuscates to is outside the domain: the key obfuscator may panic on such a
    /// string.
    pub fn extract_key(&self, storage_key: &str) -> (r: Result<String, VssError>)
        requires
            self.names_a_key(storage_key@),
        ensures
            self.extracts(storage_key@, r),
    {
        match &self.obfuscation_key {
            Some(k) => match deobfuscate(k, storage_key) {
                Ok(key) => Ok(key),
                Err(e) => Err(
                    VssError::ListError {
                        error_details: String::from_str("Failed to deobfuscate key: ").concat(
                            e.as_str(),
                        ),
                    },
                ),
            },
            None => Ok(storage_key.to_owned()),
        }
    }
}

/// The items that a listing keeps: those whose read found a value, in order.
pub open spec fn kept_items(fetched: Seq<Result<Option<VssItem>, VssError>>) -> Seq<VssItem>
    decreases fetched.len(),
{
    if fetched.len() == 0 {
        Seq::empty()
    } else {
        let rest = kept_items(fetched.drop_last());
        match fetched.last() {
            Ok(Some(item)) => rest.push(item),
            _ => rest,
        }
    }
}

impl VssClient {
    /// `req` writes `items` (plaintext key, plaintext value) in one transaction: one
    /// transaction item each, in order, under its storage key, with the
    /// server-assigned version sentinel, and its value sealed under the
    /// data-encryption key.
    pub open spec fn writes(&self, req: PutObjectRequest, items: Seq<(Seq<char>, Seq<u8>)>) -> bool {
        &&& req.store_id@ == self.store_id@
        &&& req.transaction_items@.len() == items.len()
        &&& forall|i: int|
            #![trigger req.transaction_items@[i]]
            0 <= i < items.len() ==> {
                &&& req.transaction_items@[i].key@ == self.storage_key(items[i].0)
                &&& req.transaction_items@[i].version == SERVER_ASSIGNED_VERSION
                &&& seals(
                    self.data_encryption_key@,
                    req.transaction_items@[i].value@,
                    items[i].1,
                    SERVER_ASSIGNED_VERSION,
                )
            }
    }

    /// What a read of `key` returns, given the remote outcome of the point read: a
    /// stored value that does not open is a read error, never an absent or made-up
    /// item.
    pub open spec fn reads(
        &self,
        key: Seq<char>,
        outcome: Result<Option<RemoteItem>, RemoteError>,
        r: Result<Option<VssItem>, VssError>,
    ) -> bool {
        match outcome {
            Ok(Some(kv)) => {
                &&& match opened_bytes(self.data_encryption_key@, kv.value@) {
                    Some(p) => r matches Ok(Some(item)) && item.key@ == key && item.value@ == p.0
                        && item.version == kv.version,
                    None => r matches Err(e) && e is GetError,
                }
                &&& forall|value: Seq<u8>, version: i64| #[trigger]
                    seals(self.data_encryption_key@, kv.value@, value, version) ==> (r matches Ok(
                        Some(item),
                    ) && item.value@ == value)
            },
            Ok(None) => r matches Ok(None),
            Err(e) => if e is NoSuchKey {
                r matches Ok(None)
            } else {
                r matches Err(err) && converts_to(e, err)
            },
        }
    }

    /// The write of `value` under `key`.
    pub fn store_request(&self, key: &str, value: &Vec<u8>) -> (r: PutObjectRequest)
        ensures
            self.writes(r, seq![(key@, value@)]),
    {
        let plain = value.clone();
        assert(plain@ =~= value@);
        let item = RemoteItem {
            key: self.build_key(key),
            version: SERVER_ASSIGNED_VERSION,
            value: seal_value(&self.data_encryption_key, plain, SERVER_ASSIGNED_VERSION),
        };
        let r = PutObjectRequest { store_id: self.store_id.clone(), transaction_items: vec![item] };
        assert(r.transaction_items@[0] == item);
        r
    }

    /// The result of a single-item write, given its remote outcome: the written item
    /// with the version sentinel (the server's version is not read back), or the
    /// remote error converted.
    pub fn store(&self, key: String, value: Vec<u8>, outcome: Result<(), RemoteError>) -> (r: Result<
        VssItem,
        VssError,
    >)
        ensures
            match outcome {
                Ok(()) => r matches Ok(item) && item.key@ == key@ && item.value@ == value@
                    && item.version == SERVER_ASSIGNED_VERSION,
                Err(e) => r matches Err(err) && converts_to(e, err),
            },
    {
        match outcome {
            Ok(()) => Ok(VssItem { key, value, version: SERVER_ASSIGNED_VERSION }),
            Err(e) => Err(convert_error(e)),
        }
    }

    /// The point read of `key`.
    pub fn get_request(&self, key: &str) -> (r: GetObjectRequest)
        ensures
            r.store_id@ == self.store_id@,
            r.key@ == self.storage_key(key@),
    {
        GetObjectRequest { store_id: self.store_id.clone(), key: self.build_key(key) }
    }

    /// The result of a read of `key`, given the remote outcome: absent when the store
    /// has no such key, the opened value with the server's version when it has one,
    /// and a read error when the stored value does not open.
    pub fn get(&self, key: String, outcome: Result<Option<RemoteItem>, RemoteError>) -> (r: Result<
        Option<VssItem>,
        VssError,
    >)
        ensures
            self.reads(key@, outcome, r),
    {
        match outcome {
            Ok(Some(kv)) => match open_value(&self.data_encryption_key, kv.value.as_slice()) {
                Ok((value, _)) => Ok(Some(VssItem { key, value, version: kv.version })),
                Err(e) => Err(e),
            },
            Ok(None) => Ok(None),
            Err(RemoteError::NoSuchKey(_)) => Ok(None),
            Err(e) => Err(convert_error(e)),
        }
    }

    /// The enumeration of the storage keys under `prefix`, or of all of them.
    pub fn list_request(&self, prefix: &Option<String>) -> (r: ListKeyVersionsRequest)
        ensures
            r.store_id@ == self.store_id@,
            match prefix {
                Some(p) => r.key_prefix matches Some(q) && q@ == self.storage_key(p@),
                None => r.key_prefix is None,
            },
    {
        let key_prefix = match prefix {
            Some(p) => Some(self.build_key(p.as_str())),
            None => None,
        };
        ListKeyVersionsRequest { store_id: self.store_id.clone(), key_prefix }
    }

    /// The plaintext keys and versions of a listing, given its remote outcome. Every
    /// listed storage key must stand for a plaintext key (see `extract_key`).
    pub fn list_keys(&self, outcome: Result<Vec<RemoteItem>, RemoteError>) -> (r: Result<
        Vec<KeyVersion>,
        VssError,
    >)
        requires
            outcome matches Ok(records) ==> forall|i: int|
                0 <= i < records@.len() ==> self.names_a_key(#[trigger] records@[i].key@),
        ensures
            match outcome {
                Err(e) => r matches Err(err) && converts_to(e, err),
                Ok(records) => r matches Ok(keys) && keys@.len() == records@.len() && forall|
                    i: int,
                |
                    #![trigger keys@[i]]
                    0 <= i < keys@.len() ==> keys@[i].version == records@[i].version
                        && self.extracts(records@[i].key@, Ok(keys@[i].key)),
            },
    {
        let records = match outcome {
            Ok(records) => records,
            Err(e) => {
                return Err(convert_error(e));
            },
        };
        let mut keys: Vec<KeyVersion> = Vec::new();
        let mut i: usize = 0;
        while i < records.len()
            invariant
                outcome matches Ok(listed) && listed@ == records@,
                forall|j: int|
                    0 <= j < records@.len() ==> self.names_a_key(#[trigger] records@[j].key@),
                i <= records@.len(),
                keys@.len() == i,
                forall|j: int|
                    #![trigger keys@[j]]
                    0 <= j < i ==> keys@[j].version == records@[j].version && self.extracts(
                        records@[j].key@,
                        Ok(keys@[j].key),
                    ),
            decreases records@.len() - i,
        {
            let key = self.extract_key(records[i].key.as_str());
            match key {
                Ok(key) => {
                    keys.push(KeyVersion { key, version: records[i].version });
                },
                Err(e) => {
                    return Err(e);
                },
            }
            i = i + 1;
        }
        Ok(keys)
    }

    /// A listing's items, given the reads of the listed keys: the items found, in
    /// order. A read that failed or found nothing drops its item.
    pub fn list(&self, fetched: Vec<Result<Option<VssItem>, VssError>>) -> (r: Vec<VssItem>)
        ensures
            r@ == kept_items(fetched@),
    {
        let ghost all = fetched@;
        let mut rest = fetched;
        let mut kept: Vec<VssItem> = Vec::new();
        while rest.len() > 0
            invariant
                kept_items(rest@) + kept@ == kept_items(all),
            decreases rest@.len(),
        {
            let ghost before = rest@;
            let last = rest.pop();
            match last {
                Some(Ok(Some(item))) => {
                    assert(kept_items(before) == kept_items(rest@).push(item));
                    kept.insert(0, item);
                    assert(kept_items(rest@) + kept@ =~= kept_items(before) + kept@.drop_first());
                },
                _ => {
                    assert(kept_items(before) == kept_items(rest@));
                },
            }
        }
        assert(kept_items(rest@) == Seq::<VssItem>::empty());
        assert(kept@ =~= kept_items(all));
        kept
    }

    /// The atomic write of `items`, each under its storage key with its value sealed.
    pub fn put_with_key_prefix_request(&self, items: &Vec<KeyValue>) -> (r: PutObjectRequest)
        ensures
            self.writes(r, items@.map_values(|kv: KeyValue| (kv.key@, kv.value@))),
    {
        let mut transaction_items: Vec<RemoteItem> = Vec::new();
        let mut i: usize = 0;
        while i < items.len()
            invariant
                i <= items@.len(),
                transaction_items@.len() == i,
                forall|j: int|
                    #![trigger transaction_items@[j]]
                    0 <= j < i ==> {
                        &&& transaction_items@[j].key@ == self.storage_key(items@[j].key@)
                        &&& transaction_items@[j].version == SERVER_ASSIGNED_VERSION
                        &&& seals(
                            self.data_encryption_key@,
                            transaction_items@[j].value@,
                            items@[j].value@,
                            SERVER_ASSIGNED_VERSION,
                        )
                    },
            decreases items@.len() - i,
        {
            let plain = items[i].value.clone();
            assert(plain@ =~= items@[i as int].value@);
            transaction_items.push(
                RemoteItem {
                    key: self.build_key(items[i].key.as_str()),
                    version: SERVER_ASSIGNED_VERSION,
                    value: seal_value(&self.data_encryption_key, plain, SERVER_ASSIGNED_VERSION),
                },
            );
            i = i + 1;
        }
        PutObjectRequest { store_id: self.store_id.clone(), transaction_items }
    }

    /// The result of an atomic write of `items`, given its remote outcome: every item
    /// with the version sentinel, or the single remote error converted.
    pub fn put_with_key_prefix(&self, items: Vec<KeyValue>, outcome: Result<(), RemoteError>) -> (r:
        Result<Vec<VssItem>, VssError>)
        ensures
            match outcome {
                Ok(()) => r matches Ok(written) && written@.len() == items@.len() && forall|i: int|
                    #![trigger written@[i]]
                    0 <= i < items@.len() ==> written@[i].key@ == items@[i].key@ && written@[i].value@
                        == items@[i].value@ && written@[i].version == SERVER_ASSIGNED_VERSION,
                Err(e) => r matches Err(err) && converts_to(e, err),
            },
    {
        if let Err(e) = outcome {
            return Err(convert_error(e));
        }
        let mut written: Vec<VssItem> = Vec::new();
        let mut i: usize = 0;
        while i < items.len()
            invariant
                i <= items@.len(),
                written@.len() == i,
                forall|j: int|
                    #![trigger written@[j]]
                    0 <= j < i ==> written@[j].key@ == items@[j].key@ && written@[j].value@
                        == items@[j].value@ && written@[j].version == SERVER_ASSIGNED_VERSION,
            decreases items@.len() - i,
        {
            let value = items[i].value.clone();
            assert(value@ =~= items@[i as int].value@);
            written.push(
                VssItem {
                    key: items[i].key.clone(),
                    value,
                    version: SERVER_ASSIGNED_VERSION,
                },
            );
            i = i + 1;
        }
        Ok(written)
    }

    /// The deletion of `key`.
    pub fn delete_request(&self, key: &str) -> (r: DeleteObjectRequest)
        ensures
            r.store_id@ == self.store_id@,
            r.key_value.key@ == self.storage_key(key@),
            r.key_value.version == SERVER_ASSIGNED_VERSION,
            r.key_value.value@.len() == 0,
    {
        DeleteObjectRequest {
            store_id: self.store_id.clone(),
            key_value: RemoteItem {
                key: self.build_key(key),
                version: SERVER_ASSIGNED_VERSION,
                value: Vec::new(),
            },
        }
    }

    /// The result of a deletion, given its remote outcome: `true` when a record was
    /// removed, `false` when the store had no such key, and otherwise the remote
    /// error converted.
    pub fn delete(&self, outcome: Result<(), RemoteError>) -> (r: Result<bool, VssError>)
        ensures
            match outcome {
                Ok(()) => r == Ok::<bool, VssError>(true),
                Err(e) => if e is NoSuchKey {
                    r == Ok::<bool, VssError>(false)
                } else {
                    r matches Err(err) && converts_to(e, err)
                },
            },
    {
        match outcome {
            Ok(()) => Ok(true),
            Err(RemoteError::NoSuchKey(_)) => Ok(false),
            Err(e) => Err(convert_error(e)),
        }
    }
}

/// A value written by a single-item write, handed back by the store on a read of the
/// same key, reads as the value written, under the key asked for and with the
/// version that the store reports.
pub proof fn lemma_write_read_round_trip(
    c: VssClient,
    key: Seq<char>,
    value: Seq<u8>,
    req: PutObjectRequest,
    stored: RemoteItem,
    r: Result<Option<VssItem>, VssError>,
)
    requires
        c.writes(req, seq![(key, value)]),
        stored.value@ == req.transaction_items@[0].value@,
        c.reads(key, Ok(Some(stored)), r),
    ensures
        r matches Ok(Some(item)) && item.key@ == key && item.value@ == value && item.version
            == stored.version,
{
    let item0 = req.transaction_items@[0];
    assert(seq![(key, value)][0] == (key, value));
    assert(seals(c.data_encryption_key@, stored.value@, value, SERVER_ASSIGNED_VERSION));
    let outcome: Result<Option<RemoteItem>, RemoteError> = Ok(Some(stored));
    assert(outcome matches Ok(Some(kv)) && kv == stored);
}

/// A batch write is a single request that carries every item, in order, under its
/// storage key with its value sealed, and nothing else: sending that request again on
/// a retry sends the whole batch again, never a part of it.
pub proof fn lemma_batch_is_whole(
    c: VssClient,
    items: Seq<(Seq<char>, Seq<u8>)>,
    req: PutObjectRequest,
)
    requires
        c.writes(req, items),
    ensures
        req.transaction_items@.len() == items.len(),
        forall|i: int|
            0 <= i < items.len() ==> (#[trigger] req.transaction_items@[i]).key@ == c.storage_key(
                items[i].0,
            ) && seals(
                c.data_encryption_key@,
                req.transaction_items@[i].value@,
                items[i].1,
                SERVER_ASSIGNED_VERSION,
            ),
{
}

/// After an atomic write of several items, each item handed back by the store on a
/// read of its key reads as the value written for it.
pub proof fn lemma_batch_read_back(
    c: VssClient,
    items: Seq<(Seq<char>, Seq<u8>)>,
    req: PutObjectRequest,
    i: int,
    stored: RemoteItem,
    r: Result<Option<VssItem>, VssError>,
)
    requires
        c.writes(req, items),
        0 <= i < items.len(),
        stored.value@ == req.transaction_items@[i].value@,
        c.reads(items[i].0, Ok(Some(stored)), r),
    ensures
        r matches Ok(Some(item)) && item.key@ == items[i].0 && item.value@ == items[i].1,
{
    let item_i = req.transaction_items@[i];
    assert(seals(c.data_encryption_key@, stored.value@, items[i].1, SERVER_ASSIGNED_VERSION));
    let outcome: Result<Option<RemoteItem>, RemoteError> = Ok(Some(stored));
    assert(outcome matches Ok(Some(kv)) && kv == stored);
}

/// Obfuscating a key and turning the storage key back gives the key again.
pub proof fn lemma_key_round_trip(c: VssClient, key: Seq<char>, r: Result<String, VssError>)
    requires
        c.extracts(c.storage_key(key), r),
    ensures
        r matches Ok(k) && k@ == key,
{
}

/// Without an obfuscation key, storage keys are the plaintext keys, both ways.
pub proof fn lemma_identity_mode(c: VssClient, key: Seq<char>, r: Result<String, VssError>)
    requires
        c.obfuscation_key is None,
        c.extracts(key, r),
    ensures
        c.storage_key(key) == key,
        r matches Ok(k) && k@ == key,
{
    assert(c.storage_key(key) == key);
}

} // verus!
