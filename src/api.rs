//! The ledger facade: each operation's reply, decoded by the caller into its
//! record (`None` when the text could not be decoded), becomes a present value
//! on success and an absent one on any failure.
use vstd::prelude::*;
use crate::request::Request;
use crate::types::{
    DataAccount, GetContractAddressResult, GetDataAccountResult, GetLedgerHashResult,
    GetSignersResult, GetTxHashResult, GetTxTimeResult, GetUserResult, GetValueResult,
    GetValueVersionResult, KVData, RegisterDataAccountResult, RegisterUserResult, SetKVResult,
    User, SUCCESS,
};

verus! {

/// Writes log requests.
pub struct Logger {}

impl Logger {
    /// The request that logs `msg` at debug level.
    pub fn debug(&self, msg: String) -> (r: String)
        ensures
            r@ == crate::request::request_text(
                crate::request::Operation::Log {
                    level: crate::request::LEVEL_DEBUG as int,
                    message: msg@,
                },
            ),
    {
        Request::log_debug(msg)
    }

    /// The request that logs `msg` at info level.
    pub fn info(&self, msg: String) -> (r: String)
        ensures
            r@ == crate::request::request_text(
                crate::request::Operation::Log {
                    level: crate::request::LEVEL_INFO as int,
                    message: msg@,
                },
            ),
    {
        Request::log_info(msg)
    }

    /// The request that logs `msg` at error level.
    pub fn error(&self, msg: String) -> (r: String)
        ensures
            r@ == crate::request::request_text(
                crate::request::Operation::Log {
                    level: crate::request::LEVEL_ERROR as int,
                    message: msg@,
                },
            ),
    {
        Request::log_error(msg)
    }
}

/// The ledger operations, one method per operation.
pub struct LedgerService {
    logger: Logger,
}

/// What a `get_ledger_hash` reply yields: its `lh` on success, nothing otherwise.
pub open spec fn get_ledger_hash_outcome(decoded: Option<GetLedgerHashResult>) -> Option<String> {
    match decoded {
        Some(d) => if d.rc == SUCCESS { d.lh } else { None },
        None => None,
    }
}

/// What a `get_contract_address` reply yields: its `ca` on success, nothing otherwise.
pub open spec fn get_contract_address_outcome(decoded: Option<GetContractAddressResult>) -> Option<String> {
    match decoded {
        Some(d) => if d.rc == SUCCESS { d.ca } else { None },
        None => None,
    }
}

/// What a `get_tx_hash` reply yields: its `th` on success, nothing otherwise.
pub open spec fn get_tx_hash_outcome(decoded: Option<GetTxHashResult>) -> Option<String> {
    match decoded {
        Some(d) => if d.rc == SUCCESS { d.th } else { None },
        None => None,
    }
}

/// What a `get_tx_time` reply yields: its `tt` on success, nothing otherwise.
pub open spec fn get_tx_time_outcome(decoded: Option<GetTxTimeResult>) -> Option<u64> {
    match decoded {
        Some(d) => if d.rc == SUCCESS { d.tt } else { None },
        None => None,
    }
}

/// What a `get_signers` reply yields: its `ss` on success, nothing otherwise.
pub open spec fn get_signers_outcome(decoded: Option<GetSignersResult>) -> Option<Vec<String>> {
    match decoded {
        Some(d) => if d.rc == SUCCESS { d.ss } else { None },
        None => None,
    }
}

/// What a `register_user` reply yields: its `a` on success, nothing otherwise.
pub open spec fn register_user_outcome(decoded: Option<RegisterUserResult>) -> Option<String> {
    match decoded {
        Some(d) => if d.rc == SUCCESS { d.a } else { None },
        None => None,
    }
}

/// What a `register_data_account` reply yields: its `a` on success, nothing otherwise.
pub open spec fn register_data_account_outcome(decoded: Option<RegisterDataAccountResult>) -> Option<String> {
    match decoded {
        Some(d) => if d.rc == SUCCESS { d.a } else { None },
        None => None,
    }
}

/// What a `set_text` reply yields: its `ver` on success, nothing otherwise.
pub open spec fn set_text_outcome(decoded: Option<SetKVResult>) -> Option<i64> {
    match decoded {
        Some(d) => if d.rc == SUCCESS { d.ver } else { None },
        None => None,
    }
}

/// What a `set_text_with_version` reply yields: its `ver` on success, nothing otherwise.
pub open spec fn set_text_with_version_outcome(decoded: Option<SetKVResult>) -> Option<i64> {
    match decoded {
        Some(d) => if d.rc == SUCCESS { d.ver } else { None },
        None => None,
    }
}

/// What a `set_int64` reply yields: its `ver` on success, nothing otherwise.
pub open spec fn set_int64_outcome(decoded: Option<SetKVResult>) -> Option<i64> {
    match decoded {
        Some(d) => if d.rc == SUCCESS { d.ver } else { None },
        None => None,
    }
}

/// What a `set_int64_with_version` reply yields: its `ver` on success, nothing otherwise.
pub open spec fn set_int64_with_version_outcome(decoded: Option<SetKVResult>) -> Option<i64> {
    match decoded {
        Some(d) => if d.rc == SUCCESS { d.ver } else { None },
        None => None,
    }
}

/// What a `get_value_version` reply yields: its `ver` on success, nothing otherwise.
pub open spec fn get_value_version_outcome(decoded: Option<GetValueVersionResult>) -> Option<i64> {
    match decoded {
        Some(d) => if d.rc == SUCCESS { d.ver } else { None },
        None => None,
    }
}

/// What a user lookup reply yields: the user when the reply succeeded and
/// carries both the address and the public key, nothing otherwise.
pub open spec fn get_user_outcome(decoded: Option<GetUserResult>) -> Option<User> {
    match decoded {
        Some(d) => if d.rc == SUCCESS && d.a.is_some() && d.pk.is_some() {
            Some(User { address: d.a.unwrap(), pubkey: d.pk.unwrap() })
        } else {
            None
        },
        None => None,
    }
}

/// What a data account lookup reply yields: the account when the reply
/// succeeded and carries both the address and the public key, nothing otherwise.
pub open spec fn get_data_account_outcome(decoded: Option<GetDataAccountResult>) -> Option<DataAccount> {
    match decoded {
        Some(d) => if d.rc == SUCCESS && d.a.is_some() && d.pk.is_some() {
            Some(DataAccount { address: d.a.unwrap(), pubkey: d.pk.unwrap() })
        } else {
            None
        },
        None => None,
    }
}

/// What a key-value read reply yields: the record when the reply succeeded and
/// carries key, value, value type and version, nothing otherwise.
pub open spec fn get_value_outcome(decoded: Option<GetValueResult>) -> Option<KVData> {
    match decoded {
        Some(d) => if d.rc == SUCCESS && d.k.is_some() && d.v.is_some() && d.t.is_some()
            && d.ver.is_some() {
            Some(
                KVData {
                    key: d.k.unwrap(),
                    value: d.v.unwrap(),
                    value_type: d.t.unwrap(),
                    version: d.ver.unwrap(),
                },
            )
        } else {
            None
        },
        None => None,
    }
}

impl LedgerService {
    /// A service with its logger.
    pub fn default() -> Self {
        LedgerService { logger: Logger {} }
    }

    /// The service's logger.
    pub fn logger(&self) -> &Logger {
        &self.logger
    }

    /// The ledger hash. `decoded` is the reply to `Request::get_ledger_hash`, or `None` when it
    /// could not be decoded.
    pub fn get_ledger_hash(&self, decoded: Option<GetLedgerHashResult>) -> (r: Option<String>)
        ensures
            r == get_ledger_hash_outcome(decoded),
    {
        let result = match decoded {
            Some(val) => val,
            None => GetLedgerHashResult::failed(),
        };
        if result.rc == SUCCESS {
            result.lh
        } else {
            None
        }
    }

    /// The contract address. `decoded` is the reply to `Request::get_contract_address`, or `None` when it
    /// could not be decoded.
    pub fn get_contract_address(&self, decoded: Option<GetContractAddressResult>) -> (r: Option<String>)
        ensures
            r == get_contract_address_outcome(decoded),
    {
        let result = match decoded {
            Some(val) => val,
            None => GetContractAddressResult::failed(),
        };
        if result.rc == SUCCESS {
            result.ca
        } else {
            None
        }
    }

    /// The transaction hash. `decoded` is the reply to `Request::get_tx_hash`, or `None` when it
    /// could not be decoded.
    pub fn get_tx_hash(&self, decoded: Option<GetTxHashResult>) -> (r: Option<String>)
        ensures
            r == get_tx_hash_outcome(decoded),
    {
        let result = match decoded {
            Some(val) => val,
            None => GetTxHashResult::failed(),
        };
        if result.rc == SUCCESS {
            result.th
        } else {
            None
        }
    }

    /// The transaction time. `decoded` is the reply to `Request::get_tx_time`, or `None` when it
    /// could not be decoded.
    pub fn get_tx_time(&self, decoded: Option<GetTxTimeResult>) -> (r: Option<u64>)
        ensures
            r == get_tx_time_outcome(decoded),
    {
        let result = match decoded {
            Some(val) => val,
            None => GetTxTimeResult::failed(),
        };
        if result.rc == SUCCESS {
            result.tt
        } else {
            None
        }
    }

    /// The addresses of the transaction's signers. `decoded` is the reply to `Request::get_signers`, or `None` when it
    /// could not be decoded.
    pub fn get_signers(&self, decoded: Option<GetSignersResult>) -> (r: Option<Vec<String>>)
        ensures
            r == get_signers_outcome(decoded),
    {
        let result = match decoded {
            Some(val) => val,
            None => GetSignersResult::failed(),
        };
        if result.rc == SUCCESS {
            result.ss
        } else {
            None
        }
    }

    /// The address of the user just registered. `decoded` is the reply to `Request::register_user`, or `None` when it
    /// could not be decoded.
    pub fn register_user(&self, decoded: Option<RegisterUserResult>) -> (r: Option<String>)
        ensures
            r == register_user_outcome(decoded),
    {
        let result = match decoded {
            Some(val) => val,
            None => RegisterUserResult::failed(),
        };
        if result.rc == SUCCESS {
            result.a
        } else {
            None
        }
    }

    /// The address of the data account just registered. `decoded` is the reply to `Request::register_data_account`, or `None` when it
    /// could not be decoded.
    pub fn register_data_account(&self, decoded: Option<RegisterDataAccountResult>) -> (r: Option<String>)
        ensures
            r == register_data_account_outcome(decoded),
    {
        let result = match decoded {
            Some(val) => val,
            None => RegisterDataAccountResult::failed(),
        };
        if result.rc == SUCCESS {
            result.a
        } else {
            None
        }
    }

    /// The version a text write produced. `decoded` is the reply to `Request::set_text`, or `None` when it
    /// could not be decoded.
    pub fn set_text(&self, decoded: Option<SetKVResult>) -> (r: Option<i64>)
        ensures
            r == set_text_outcome(decoded),
    {
        let result = match decoded {
            Some(val) => val,
            None => SetKVResult::failed(),
        };
        if result.rc == SUCCESS {
            result.ver
        } else {
            None
        }
    }

    /// The version a text write over a given version produced. `decoded` is the reply to `Request::set_text_with_version`, or `None` when it
    /// could not be decoded.
    pub fn set_text_with_version(&self, decoded: Option<SetKVResult>) -> (r: Option<i64>)
        ensures
            r == set_text_with_version_outcome(decoded),
    {
        let result = match decoded {
            Some(val) => val,
            None => SetKVResult::failed(),
        };
        if result.rc == SUCCESS {
            result.ver
        } else {
            None
        }
    }

    /// The version an integer write produced. `decoded` is the reply to `Request::set_int64`, or `None` when it
    /// could not be decoded.
    pub fn set_int64(&self, decoded: Option<SetKVResult>) -> (r: Option<i64>)
        ensures
            r == set_int64_outcome(decoded),
    {
        let result = match decoded {
            Some(val) => val,
            None => SetKVResult::failed(),
        };
        if result.rc == SUCCESS {
            result.ver
        } else {
            None
        }
    }

    /// The version an integer write over a given version produced. `decoded` is the reply to `Request::set_int64_with_version`, or `None` when it
    /// could not be decoded.
    pub fn set_int64_with_version(&self, decoded: Option<SetKVResult>) -> (r: Option<i64>)
        ensures
            r == set_int64_with_version_outcome(decoded),
    {
        let result = match decoded {
            Some(val) => val,
            None => SetKVResult::failed(),
        };
        if result.rc == SUCCESS {
            result.ver
        } else {
            None
        }
    }

    /// The current version of a key. `decoded` is the reply to `Request::get_value_version`, or `None` when it
    /// could not be decoded.
    pub fn get_value_version(&self, decoded: Option<GetValueVersionResult>) -> (r: Option<i64>)
        ensures
            r == get_value_version_outcome(decoded),
    {
        let result = match decoded {
            Some(val) => val,
            None => GetValueVersionResult::failed(),
        };
        if result.rc == SUCCESS {
            result.ver
        } else {
            None
        }
    }

    /// The value a `Request::get_user` reply carries. A successful reply that lacks
    /// one of its fields breaks the host's side of the protocol and yields nothing.
    pub fn get_user(&self, decoded: Option<GetUserResult>) -> (r: Option<User>)
        ensures
            r == get_user_outcome(decoded),
    {
        let result = match decoded {
            Some(val) => val,
            None => GetUserResult::failed(),
        };
        if result.rc == SUCCESS && result.a.is_some() && result.pk.is_some() {
            Some(User { address: result.a.unwrap(), pubkey: result.pk.unwrap() })
        } else {
            None
        }
    }

    /// The value a `Request::get_data_account` reply carries. A successful reply that lacks
    /// one of its fields breaks the host's side of the protocol and yields nothing.
    pub fn get_data_account(&self, decoded: Option<GetDataAccountResult>) -> (r: Option<DataAccount>)
        ensures
            r == get_data_account_outcome(decoded),
    {
        let result = match decoded {
            Some(val) => val,
            None => GetDataAccountResult::failed(),
        };
        if result.rc == SUCCESS && result.a.is_some() && result.pk.is_some() {
            Some(DataAccount { address: result.a.unwrap(), pubkey: result.pk.unwrap() })
        } else {
            None
        }
    }

    /// The value a `Request::get_value` reply carries. A successful reply that lacks
    /// one of its fields breaks the host's side of the protocol and yields nothing.
    pub fn get_value(&self, decoded: Option<GetValueResult>) -> (r: Option<KVData>)
        ensures
            r == get_value_outcome(decoded),
    {
        let result = match decoded {
            Some(val) => val,
            None => GetValueResult::failed(),
        };
        if result.rc == SUCCESS && result.k.is_some() && result.v.is_some() && result.t.is_some() && result.ver.is_some() {
            Some(KVData {
                key: result.k.unwrap(),
                value: result.v.unwrap(),
                value_type: result.t.unwrap(),
                version: result.ver.unwrap(),
            })
        } else {
            None
        }
    }
}

/// Reading the same key at the same version twice sends the same request
/// both times, and equal replies yield the same record.
pub proof fn lemma_get_value_idempotent(
    address: Seq<char>,
    key: Seq<char>,
    version: int,
    first: Option<GetValueResult>,
    second: Option<GetValueResult>,
)
    requires
        first == second,
    ensures
        crate::request::request_text(crate::request::Operation::GetValue { address, key, version })
            == crate::request::request_text(
            crate::request::Operation::GetValue { address, key, version },
        ),
        get_value_outcome(first) == get_value_outcome(second),
{
}

} // verus!
