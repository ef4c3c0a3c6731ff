//! Response records and the values the ledger hands back.
use vstd::prelude::*;

verus! {

/// Result code of a reply that carries its payload.
pub const SUCCESS: u8 = 0;
/// Result code of a reply that the host rejected.
pub const ERROR: u8 = 1;

/// The result code alone, common to every reply.
pub struct Result {
    pub rc: u8,
}

/// The reply to a ledger hash request. A field may be present only when `rc` is `SUCCESS`.
#[derive(Debug)]
pub struct GetLedgerHashResult {
    /// Result code, `SUCCESS` or `ERROR`.
    pub rc: u8,
    /// The ledger hash.
    pub lh: Option<String>,
}

impl GetLedgerHashResult {
    /// The reply that stands for a response that could not be decoded.
    pub fn failed() -> (r: Self)
        ensures
            r.rc == ERROR,
            r.lh.is_none(),
    {
        GetLedgerHashResult { rc: ERROR, lh: None }
    }
}

/// The reply to a contract address request. A field may be present only when `rc` is `SUCCESS`.
#[derive(Debug)]
pub struct GetContractAddressResult {
    /// Result code, `SUCCESS` or `ERROR`.
    pub rc: u8,
    /// The contract address.
    pub ca: Option<String>,
}

impl GetContractAddressResult {
    /// The reply that stands for a response that could not be decoded.
    pub fn failed() -> (r: Self)
        ensures
            r.rc == ERROR,
            r.ca.is_none(),
    {
        GetContractAddressResult { rc: ERROR, ca: None }
    }
}

/// The reply to a transaction hash request. A field may be present only when `rc` is `SUCCESS`.
#[derive(Debug)]
pub struct GetTxHashResult {
    /// Result code, `SUCCESS` or `ERROR`.
    pub rc: u8,
    /// The transaction hash.
    pub th: Option<String>,
}

impl GetTxHashResult {
    /// The reply that stands for a response that could not be decoded.
    pub fn failed() -> (r: Self)
        ensures
            r.rc == ERROR,
            r.th.is_none(),
    {
        GetTxHashResult { rc: ERROR, th: None }
    }
}

/// The reply to a transaction time request. A field may be present only when `rc` is `SUCCESS`.
#[derive(Debug)]
pub struct GetTxTimeResult {
    /// Result code, `SUCCESS` or `ERROR`.
    pub rc: u8,
    /// The transaction time.
    pub tt: Option<u64>,
}

impl GetTxTimeResult {
    /// The reply that stands for a response that could not be decoded.
    pub fn failed() -> (r: Self)
        ensures
            r.rc == ERROR,
            r.tt.is_none(),
    {
        GetTxTimeResult { rc: ERROR, tt: None }
    }
}

/// The reply to a signers request. A field may be present only when `rc` is `SUCCESS`.
#[derive(Debug)]
pub struct GetSignersResult {
    /// Result code, `SUCCESS` or `ERROR`.
    pub rc: u8,
    /// The addresses of the signing users.
    pub ss: Option<Vec<String>>,
}

impl GetSignersResult {
    /// The reply that stands for a response that could not be decoded.
    pub fn failed() -> (r: Self)
        ensures
            r.rc == ERROR,
            r.ss.is_none(),
    {
        GetSignersResult { rc: ERROR, ss: None }
    }
}

/// The reply to a user registration. A field may be present only when `rc` is `SUCCESS`.
#[derive(Debug)]
pub struct RegisterUserResult {
    /// Result code, `SUCCESS` or `ERROR`.
    pub rc: u8,
    /// The user address.
    pub a: Option<String>,
}

impl RegisterUserResult {
    /// The reply that stands for a response that could not be decoded.
    pub fn failed() -> (r: Self)
        ensures
            r.rc == ERROR,
            r.a.is_none(),
    {
        RegisterUserResult { rc: ERROR, a: None }
    }
}

/// The reply to a user lookup. A field may be present only when `rc` is `SUCCESS`.
#[derive(Debug)]
pub struct GetUserResult {
    /// Result code, `SUCCESS` or `ERROR`.
    pub rc: u8,
    /// The user address.
    pub a: Option<String>,
    /// The user public key.
    pub pk: Option<String>,
}

impl GetUserResult {
    /// The reply that stands for a response that could not be decoded.
    pub fn failed() -> (r: Self)
        ensures
            r.rc == ERROR,
            r.a.is_none(),
            r.pk.is_none(),
    {
        GetUserResult { rc: ERROR, a: None, pk: None }
    }
}

/// The reply to a data account registration. A field may be present only when `rc` is `SUCCESS`.
#[derive(Debug)]
pub struct RegisterDataAccountResult {
    /// Result code, `SUCCESS` or `ERROR`.
    pub rc: u8,
    /// The data account address.
    pub a: Option<String>,
}

impl RegisterDataAccountResult {
    /// The reply that stands for a response that could not be decoded.
    pub fn failed() -> (r: Self)
        ensures
            r.rc == ERROR,
            r.a.is_none(),
    {
        RegisterDataAccountResult { rc: ERROR, a: None }
    }
}

/// The reply to a data account lookup. A field may be present only when `rc` is `SUCCESS`.
#[derive(Debug)]
pub struct GetDataAccountResult {
    /// Result code, `SUCCESS` or `ERROR`.
    pub rc: u8,
    /// The data account address.
    pub a: Option<String>,
    /// The data account public key.
    pub pk: Option<String>,
}

impl GetDataAccountResult {
    /// The reply that stands for a response that could not be decoded.
    pub fn failed() -> (r: Self)
        ensures
            r.rc == ERROR,
            r.a.is_none(),
            r.pk.is_none(),
    {
        GetDataAccountResult { rc: ERROR, a: None, pk: None }
    }
}

/// The reply to a key-value write. A field may be present only when `rc` is `SUCCESS`.
#[derive(Debug)]
pub struct SetKVResult {
    /// Result code, `SUCCESS` or `ERROR`.
    pub rc: u8,
    /// The version written.
    pub ver: Option<i64>,
}

impl SetKVResult {
    /// The reply that stands for a response that could not be decoded.
    pub fn failed() -> (r: Self)
        ensures
            r.rc == ERROR,
            r.ver.is_none(),
    {
        SetKVResult { rc: ERROR, ver: None }
    }
}

/// The reply to a version query. A field may be present only when `rc` is `SUCCESS`.
#[derive(Debug)]
pub struct GetValueVersionResult {
    /// Result code, `SUCCESS` or `ERROR`.
    pub rc: u8,
    /// The current version.
    pub ver: Option<i64>,
}

impl GetValueVersionResult {
    /// The reply that stands for a response that could not be decoded.
    pub fn failed() -> (r: Self)
        ensures
            r.rc == ERROR,
            r.ver.is_none(),
    {
        GetValueVersionResult { rc: ERROR, ver: None }
    }
}

/// The reply to a key-value read. A field may be present only when `rc` is `SUCCESS`.
#[derive(Debug)]
pub struct GetValueResult {
    /// Result code, `SUCCESS` or `ERROR`.
    pub rc: u8,
    /// The key.
    pub k: Option<String>,
    /// The value.
    pub v: Option<String>,
    /// The value type.
    pub t: Option<String>,
    /// The version.
    pub ver: Option<i64>,
}

impl GetValueResult {
    /// The reply that stands for a response that could not be decoded.
    pub fn failed() -> (r: Self)
        ensures
            r.rc == ERROR,
            r.k.is_none(),
            r.v.is_none(),
            r.t.is_none(),
            r.ver.is_none(),
    {
        GetValueResult { rc: ERROR, k: None, v: None, t: None, ver: None }
    }
}

/// A ledger user.
#[derive(Debug)]
pub struct User {
    /// The user address.
    pub address: String,
    /// The user public key.
    pub pubkey: String,
}

/// A data account.
#[derive(Debug)]
pub struct DataAccount {
    /// The data account address.
    pub address: String,
    /// The data account public key.
    pub pubkey: String,
}

/// One key-value record as of the query.
#[derive(Debug)]
pub struct KVData {
    /// The key.
    pub key: String,
    /// The value.
    pub value: String,
    /// The value type.
    pub value_type: String,
    /// The record's version.
    pub version: i64,
}

} // verus!
