//! The contract's exported entry points: the hooks' log requests, and each
//! ledger reply rendered as the primitive value the sandbox receives
//! (text, `0` for a missing time, `-1` for a missing version).
use vstd::prelude::*;
use vstd::string::StringExecFns;
use crate::api::{
    get_contract_address_outcome, get_data_account_outcome, get_ledger_hash_outcome,
    get_signers_outcome, get_tx_hash_outcome, get_tx_time_outcome, get_user_outcome,
    get_value_outcome, get_value_version_outcome, register_data_account_outcome,
    register_user_outcome, set_int64_outcome, set_int64_with_version_outcome, set_text_outcome,
    set_text_with_version_outcome, LedgerService,
};
use crate::request::{request_text, Operation, LEVEL_INFO};
use crate::types::{
    GetContractAddressResult, GetDataAccountResult, GetLedgerHashResult, GetSignersResult,
    GetTxHashResult, GetTxTimeResult, GetUserResult, GetValueResult, GetValueVersionResult,
    RegisterDataAccountResult, RegisterUserResult, SetKVResult, SUCCESS,
};

verus! {

/// The info-level log request with message `m`.
pub open spec fn info_request(m: Seq<char>) -> Seq<char> {
    request_text(Operation::Log { level: LEVEL_INFO as int, message: m })
}

/// The texts separated by commas, in order.
pub open spec fn comma_joined(ss: Seq<Seq<char>>) -> Seq<char>
    decreases ss.len(),
{
    if ss.len() == 0 {
        Seq::empty()
    } else if ss.len() == 1 {
        ss[0]
    } else {
        comma_joined(ss.drop_last()) + seq![','] + ss.last()
    }
}

pub open spec fn texts(v: Seq<String>) -> Seq<Seq<char>> {
    v.map_values(|s: String| s@)
}

/// The present text, or the empty text.
pub open spec fn text_or_empty(o: Option<String>) -> Seq<char> {
    match o {
        Some(s) => s@,
        None => Seq::empty(),
    }
}

/// The present version, or `-1`.
pub open spec fn version_or_missing(o: Option<i64>) -> int {
    match o {
        Some(v) => v as int,
        None => -1,
    }
}

/// Joins the texts with commas.
pub fn join_with_commas(items: &Vec<String>) -> (r: String)
    ensures
        r@ == comma_joined(texts(items@)),
{
    let mut out = String::new();
    let mut i: usize = 0;
    while i < items.len()
        invariant
            i <= items.len(),
            out@ == comma_joined(texts(items@.subrange(0, i as int))),
        decreases items.len() - i,
    {
        proof {
            reveal_strlit(",");
        }
        let ghost before = texts(items@.subrange(0, i as int));
        let ghost after = texts(items@.subrange(0, i + 1));
        assert(after.drop_last() =~= before);
        assert(after.last() == items@[i as int]@);
        let ghost start = out@;
        if i > 0 {
            out.append(",");
        }
        out.append(items[i].as_str());
        proof {
            if i == 0 {
                assert(after.len() == 1);
                assert(before.len() == 0);
                assert(out@ =~= comma_joined(after));
            } else {
                assert(out@ =~= comma_joined(after));
            }
        }
        i = i + 1;
    }
    assert(items@.subrange(0, items.len() as int) =~= items@);
    out
}

fn text_or_empty_of(o: Option<String>) -> (r: String)
    ensures
        r@ == text_or_empty(o),
{
    match o {
        Some(val) => val,
        None => String::new(),
    }
}

fn version_or_missing_of(o: Option<i64>) -> (r: i64)
    ensures
        r == version_or_missing(o),
{
    match o {
        Some(val) => val,
        None => -1,
    }
}

/// The log request sent before each contract method.
pub fn before_event() -> (r: String)
    ensures
        r@ == info_request("start call"@),
{
    let service = LedgerService::default();
    service.logger().info(String::from_str("start call"))
}

/// The log request sent after each contract method; `code` is read as a
/// result code from its low byte.
pub fn post_event(code: i32) -> (r: String)
    ensures
        r@ == if code as u8 == SUCCESS {
            info_request("end success call"@)
        } else {
            info_request("end error call"@)
        },
{
    let service = LedgerService::default();
    if code as u8 == SUCCESS {
        service.logger().info(String::from_str("end success call"))
    } else {
        service.logger().info(String::from_str("end error call"))
    }
}

/// The transaction time, or `0` when there is none.
pub fn get_tx_time(decoded: Option<GetTxTimeResult>) -> (r: u64)
    ensures
        r == match get_tx_time_outcome(decoded) {
            Some(t) => t,
            None => 0,
        },
{
    let service = LedgerService::default();
    match service.get_tx_time(decoded) {
        Some(val) => val,
        None => 0,
    }
}

/// The signers' addresses joined with commas, or the empty text.
pub fn get_signers(decoded: Option<GetSignersResult>) -> (r: String)
    ensures
        r@ == match get_signers_outcome(decoded) {
            Some(v) => comma_joined(texts(v@)),
            None => Seq::empty(),
        },
{
    let service = LedgerService::default();
    match service.get_signers(decoded) {
        Some(val) => join_with_commas(&val),
        None => String::new(),
    }
}

/// The public key of the user looked up, or the empty text.
pub fn get_user(decoded: Option<GetUserResult>) -> (r: String)
    ensures
        r@ == match get_user_outcome(decoded) {
            Some(u) => u.pubkey@,
            None => Seq::empty(),
        },
{
    let service = LedgerService::default();
    match service.get_user(decoded) {
        Some(val) => val.pubkey,
        None => String::new(),
    }
}

/// The public key of the data account looked up, or the empty text.
pub fn get_data_account(decoded: Option<GetDataAccountResult>) -> (r: String)
    ensures
        r@ == match get_data_account_outcome(decoded) {
            Some(d) => d.pubkey@,
            None => Seq::empty(),
        },
{
    let service = LedgerService::default();
    match service.get_data_account(decoded) {
        Some(val) => val.pubkey,
        None => String::new(),
    }
}

/// The value read, or the empty text.
pub fn get_value(decoded: Option<GetValueResult>) -> (r: String)
    ensures
        r@ == match get_value_outcome(decoded) {
            Some(kv) => kv.value@,
            None => Seq::empty(),
        },
{
    let service = LedgerService::default();
    match service.get_value(decoded) {
        Some(val) => val.value,
        None => String::new(),
    }
}

/// The ledger hash, or the empty text.
pub fn get_ledger_hash(decoded: Option<GetLedgerHashResult>) -> (r: String)
    ensures
        r@ == text_or_empty(get_ledger_hash_outcome(decoded)),
{
    let service = LedgerService::default();
    text_or_empty_of(service.get_ledger_hash(decoded))
}

/// The contract address, or the empty text.
pub fn get_contract_address(decoded: Option<GetContractAddressResult>) -> (r: String)
    ensures
        r@ == text_or_empty(get_contract_address_outcome(decoded)),
{
    let service = LedgerService::default();
    text_or_empty_of(service.get_contract_address(decoded))
}

/// The transaction hash, or the empty text.
pub fn get_tx_hash(decoded: Option<GetTxHashResult>) -> (r: String)
    ensures
        r@ == text_or_empty(get_tx_hash_outcome(decoded)),
{
    let service = LedgerService::default();
    text_or_empty_of(service.get_tx_hash(decoded))
}

/// The address of the registered user, or the empty text.
pub fn register_user(decoded: Option<RegisterUserResult>) -> (r: String)
    ensures
        r@ == text_or_empty(register_user_outcome(decoded)),
{
    let service = LedgerService::default();
    text_or_empty_of(service.register_user(decoded))
}

/// The address of the registered data account, or the empty text.
pub fn register_data_account(decoded: Option<RegisterDataAccountResult>) -> (r: String)
    ensures
        r@ == text_or_empty(register_data_account_outcome(decoded)),
{
    let service = LedgerService::default();
    text_or_empty_of(service.register_data_account(decoded))
}

/// The version written by a text write, or `-1`.
pub fn set_text(decoded: Option<SetKVResult>) -> (r: i64)
    ensures
        r == version_or_missing(set_text_outcome(decoded)),
{
    let service = LedgerService::default();
    version_or_missing_of(service.set_text(decoded))
}

/// The version written by a text write over a version, or `-1`.
pub fn set_text_with_version(decoded: Option<SetKVResult>) -> (r: i64)
    ensures
        r == version_or_missing(set_text_with_version_outcome(decoded)),
{
    let service = LedgerService::default();
    version_or_missing_of(service.set_text_with_version(decoded))
}

/// The version written by an integer write, or `-1`.
pub fn set_int64(decoded: Option<SetKVResult>) -> (r: i64)
    ensures
        r == version_or_missing(set_int64_outcome(decoded)),
{
    let service = LedgerService::default();
    version_or_missing_of(service.set_int64(decoded))
}

/// The version written by an integer write over a version, or `-1`.
pub fn set_int64_with_version(decoded: Option<SetKVResult>) -> (r: i64)
    ensures
        r == version_or_missing(set_int64_with_version_outcome(decoded)),
{
    let service = LedgerService::default();
    version_or_missing_of(service.set_int64_with_version(decoded))
}

/// The current version of a key, or `-1`.
pub fn get_value_version(decoded: Option<GetValueVersionResult>) -> (r: i64)
    ensures
        r == version_or_missing(get_value_version_outcome(decoded)),
{
    let service = LedgerService::default();
    version_or_missing_of(service.get_value_version(decoded))
}

} // verus!
