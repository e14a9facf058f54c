use vstd::prelude::*;

verus! {

/// A stored item as callers see it: plaintext key and value, and the version.
#[derive(Debug, Clone, PartialEq, Eq)]
pub struct VssItem {
    pub key: String,
    pub value: Vec<u8>,
    pub version: i64,
}

/// A key and a value to write.
#[derive(Debug, Clone, PartialEq, Eq)]
pub struct KeyValue {
    pub key: String,
    pub value: Vec<u8>,
}

/// The key versions that a listing found.
#[derive(Debug, Clone, PartialEq, Eq)]
pub struct ListKeyVersionsResponse {
    pub key_versions: Vec<KeyVersion>,
}

/// A key with its version, without the value.
#[derive(Debug, Clone, PartialEq, Eq)]
pub struct KeyVersion {
    pub key: String,
    pub version: i64,
}

/// How a key filter matches.
#[derive(Debug, Clone, Copy, PartialEq, Eq, Structural)]
pub enum VssFilterType {
    Prefix,
    Exact,
}

/// A record as the remote store holds it: storage key, version and encoded value.
#[derive(Debug, Clone, PartialEq, Eq)]
pub struct RemoteItem {
    pub key: String,
    pub version: i64,
    pub value: Vec<u8>,
}

/// A point read of one storage key.
#[derive(Debug, Clone, PartialEq, Eq)]
pub struct GetObjectRequest {
    pub store_id: String,
    pub key: String,
}

/// A write of all its items in one transaction, with no global version and no
/// deletions.
#[derive(Debug, Clone, PartialEq, Eq)]
pub struct PutObjectRequest {
    pub store_id: String,
    pub transaction_items: Vec<RemoteItem>,
}

/// A deletion of one storage key.
#[derive(Debug, Clone, PartialEq, Eq)]
pub struct DeleteObjectRequest {
    pub store_id: String,
    pub key_value: RemoteItem,
}

/// An enumeration of the storage keys under a prefix (all of them without one),
/// one page, with the server's default page size.
#[derive(Debug, Clone, PartialEq, Eq)]
pub struct ListKeyVersionsRequest {
    pub store_id: String,
    pub key_prefix: Option<String>,
}

} // verus!
