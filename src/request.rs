//! Request codec: each ledger operation becomes one JSON object whose first
//! member `rt` carries the operation code.
use vstd::prelude::*;
use vstd::string::StringExecFns;

verus! {

pub const LOG: u8 = 0;
pub const BEFORE_EVENT: u8 = 1;
pub const POST_EVENT: u8 = 2;
pub const GET_LEDGER_HASH: u8 = 3;
pub const GET_CONTRACT_ADDRESS: u8 = 4;
pub const GET_TX_HASH: u8 = 5;
pub const GET_TX_TIME: u8 = 6;
pub const GET_SIGNERS: u8 = 7;
pub const REGISTER_USER: u8 = 8;
pub const GET_USER: u8 = 9;
pub const REGISTER_DATA_ACCOUNT: u8 = 10;
pub const GET_DATA_ACCOUNT: u8 = 11;
pub const SET_TEXT: u8 = 12;
pub const SET_TEXT_WITH_VERSION: u8 = 13;
pub const SET_INT64: u8 = 14;
pub const SET_INT64_WITH_VERSION: u8 = 15;
pub const GET_VALUE_VERSION: u8 = 16;
pub const GET_VALUE: u8 = 17;

pub const LEVEL_DEBUG: u8 = 1;
pub const LEVEL_INFO: u8 = 2;
pub const LEVEL_ERROR: u8 = 3;

/// What serde_json writes for a string: the quoted, escaped JSON literal.
pub uninterp spec fn json_quoted(s: Seq<char>) -> Seq<char>;

/// The digit character for `d < 10`.
pub open spec fn digit_char(d: nat) -> char {
    seq!['0', '1', '2', '3', '4', '5', '6', '7', '8', '9'][d as int]
}

/// Decimal digits of a natural number, most significant first.
pub open spec fn digits(n: nat) -> Seq<char>
    decreases n,
{
    if n < 10 {
        seq![digit_char(n)]
    } else {
        digits(n / 10).push(digit_char(n % 10))
    }
}

/// Decimal text of an integer, with a leading `-` when negative.
pub open spec fn decimal(i: int) -> Seq<char> {
    if i < 0 {
        seq!['-'] + digits((-i) as nat)
    } else {
        digits(i as nat)
    }
}

/// A member value of a request object.
pub enum Wire {
    Int(int),
    Text(Seq<char>),
}

/// JSON text of one member value.
pub open spec fn fragment(v: Wire) -> Seq<char> {
    match v {
        Wire::Int(i) => decimal(i),
        Wire::Text(s) => json_quoted(s),
    }
}

/// `"key":value`
pub open spec fn member_text(m: (Seq<char>, Wire)) -> Seq<char> {
    json_quoted(m.0) + seq![':'] + fragment(m.1)
}

/// Members separated by commas, in order.
pub open spec fn members_text(ms: Seq<(Seq<char>, Wire)>) -> Seq<char>
    decreases ms.len(),
{
    if ms.len() == 0 {
        Seq::empty()
    } else if ms.len() == 1 {
        member_text(ms[0])
    } else {
        members_text(ms.drop_last()) + seq![','] + member_text(ms.last())
    }
}

/// JSON object text of a member list.
pub open spec fn object_text(ms: Seq<(Seq<char>, Wire)>) -> Seq<char> {
    seq!['{'] + members_text(ms) + seq!['}']
}

/// An executable member value.
pub enum Field {
    Int(i64),
    Text(String),
}

impl Field {
    pub open spec fn wire(&self) -> Wire {
        match self {
            Field::Int(i) => Wire::Int(*i as int),
            Field::Text(s) => Wire::Text(s@),
        }
    }
}

pub open spec fn wire_members(ms: Seq<(String, Field)>) -> Seq<(Seq<char>, Wire)> {
    ms.map_values(|m: (String, Field)| (m.0@, m.1.wire()))
}

/// Relies on serde_json::to_string for a `str`: the quoted JSON string literal.
/// Writing into a vector cannot fail, so the error arm is never taken.
#[verifier::external_body]
fn quote_text(s: &str) -> (r: String)
    ensures
        r@ == json_quoted(s@),
{
    match serde_json::to_string(s) {
        Ok(t) => t,
        Err(_) => String::new(),
    }
}

/// Relies on serde_json::to_string for an `i64`: its decimal text.
/// Writing into a vector cannot fail, so the error arm is never taken.
#[verifier::external_body]
fn integer_text(v: i64) -> (r: String)
    ensures
        r@ == decimal(v as int),
{
    match serde_json::to_string(&v) {
        Ok(t) => t,
        Err(_) => String::new(),
    }
}

/// Writes the members as one JSON object, in order.
pub fn encode_object(ms: &Vec<(String, Field)>) -> (r: String)
    ensures
        r@ == object_text(wire_members(ms@)),
{
    proof {
        reveal_strlit("{");
        reveal_strlit(",");
        reveal_strlit(":");
        reveal_strlit("}");
    }
    let mut out = String::from_str("{");
    let mut i: usize = 0;
    while i < ms.len()
        invariant
            i <= ms.len(),
            out@ == seq!['{'] + members_text(wire_members(ms@.subrange(0, i as int))),
        decreases ms.len() - i,
    {
        let ghost before = wire_members(ms@.subrange(0, i as int));
        let ghost after = wire_members(ms@.subrange(0, i + 1));
        assert(after.drop_last() =~= before);
        assert(after.last() == (ms@[i as int].0@, ms@[i as int].1.wire()));
        proof {
            reveal_strlit(",");
            reveal_strlit(":");
        }
        let ghost start = out@;
        if i > 0 {
            out.append(",");
        }
        assert(out@ == if i > 0 { start + seq![','] } else { start });
        let key = quote_text(ms[i].0.as_str());
        out.append(key.as_str());
        out.append(":");
        let value = match &ms[i].1 {
            Field::Int(v) => integer_text(*v),
            Field::Text(s) => quote_text(s.as_str()),
        };
        out.append(value.as_str());
        proof {
            if i == 0 {
                assert(after.len() == 1);
                assert(members_text(after) == member_text(after[0]));
            } else {
                assert(members_text(after) == members_text(before) + seq![','] + member_text(
                    after.last(),
                ));
            }
        }
        assert(out@ == (if i > 0 { start + seq![','] } else { start }) + member_text(after.last()));
        assert(out@ =~= seq!['{'] + members_text(after));
        i = i + 1;
    }
    assert(ms@.subrange(0, ms.len() as int) =~= ms@);
    out.append("}");
    assert(out@ =~= object_text(wire_members(ms@)));
    out
}

/// A ledger operation with the values its request carries.
pub enum Operation {
    Log { level: int, message: Seq<char> },
    BeforeEvent,
    PostEvent,
    GetLedgerHash,
    GetContractAddress,
    GetTxHash,
    GetTxTime,
    GetSigners,
    RegisterUser { seed: Seq<char> },
    GetUser { address: Seq<char> },
    RegisterDataAccount { seed: Seq<char> },
    GetDataAccount { address: Seq<char> },
    SetText { address: Seq<char>, key: Seq<char>, value: Seq<char> },
    SetTextWithVersion { address: Seq<char>, key: Seq<char>, value: Seq<char>, version: int },
    SetInt64 { address: Seq<char>, key: Seq<char>, value: int },
    SetInt64WithVersion { address: Seq<char>, key: Seq<char>, value: int, version: int },
    GetValueVersion { address: Seq<char>, key: Seq<char> },
    GetValue { address: Seq<char>, key: Seq<char>, version: int },
}

/// The signature algorithm named in every account registration.
pub const DEFAULT_ALGORITHM: &'static str = "ED25519";

pub open spec fn code_of(code: u8) -> (Seq<char>, Wire) {
    ("rt"@, Wire::Int(code as int))
}

pub open spec fn int_of(key: Seq<char>, v: int) -> (Seq<char>, Wire) {
    (key, Wire::Int(v))
}

pub open spec fn text_of(key: Seq<char>, v: Seq<char>) -> (Seq<char>, Wire) {
    (key, Wire::Text(v))
}

/// The members of an operation's request object, in wire order.
pub open spec fn members_of(op: Operation) -> Seq<(Seq<char>, Wire)> {
    match op {
        Operation::Log { level, message } => seq![
            code_of(LOG),
            int_of("l"@, level),
            text_of("m"@, message),
        ],
        Operation::BeforeEvent => seq![code_of(BEFORE_EVENT)],
        Operation::PostEvent => seq![code_of(POST_EVENT)],
        Operation::GetLedgerHash => seq![code_of(GET_LEDGER_HASH)],
        Operation::GetContractAddress => seq![code_of(GET_CONTRACT_ADDRESS)],
        Operation::GetTxHash => seq![code_of(GET_TX_HASH)],
        Operation::GetTxTime => seq![code_of(GET_TX_TIME)],
        Operation::GetSigners => seq![code_of(GET_SIGNERS)],
        Operation::RegisterUser { seed } => seq![
            code_of(REGISTER_USER),
            text_of("s"@, seed),
            text_of("a"@, DEFAULT_ALGORITHM@),
        ],
        Operation::GetUser { address } => seq![code_of(GET_USER), text_of("a"@, address)],
        Operation::RegisterDataAccount { seed } => seq![
            code_of(REGISTER_DATA_ACCOUNT),
            text_of("s"@, seed),
            text_of("a"@, DEFAULT_ALGORITHM@),
        ],
        Operation::GetDataAccount { address } => seq![
            code_of(GET_DATA_ACCOUNT),
            text_of("a"@, address),
        ],
        Operation::SetText { address, key, value } => seq![
            code_of(SET_TEXT),
            text_of("a"@, address),
            text_of("k"@, key),
            text_of("v"@, value),
        ],
        Operation::SetTextWithVersion { address, key, value, version } => seq![
            code_of(SET_TEXT_WITH_VERSION),
            text_of("a"@, address),
            text_of("k"@, key),
            text_of("v"@, value),
            int_of("ver"@, version),
        ],
        Operation::SetInt64 { address, key, value } => seq![
            code_of(SET_INT64),
            text_of("a"@, address),
            text_of("k"@, key),
            int_of("v"@, value),
        ],
        Operation::SetInt64WithVersion { address, key, value, version } => seq![
            code_of(SET_INT64_WITH_VERSION),
            text_of("a"@, address),
            text_of("k"@, key),
            int_of("v"@, value),
            int_of("ver"@, version),
        ],
        Operation::GetValueVersion { address, key } => seq![
            code_of(GET_VALUE_VERSION),
            text_of("a"@, address),
            text_of("k"@, key),
        ],
        Operation::GetValue { address, key, version } => seq![
            code_of(GET_VALUE),
            text_of("a"@, address),
            text_of("k"@, key),
            int_of("ver"@, version),
        ],
    }
}

/// The request text of an operation.
pub open spec fn request_text(op: Operation) -> Seq<char> {
    object_text(members_of(op))
}

/// The integer held by member `i` when its key is `key`.
pub open spec fn int_at(ms: Seq<(Seq<char>, Wire)>, i: int, key: Seq<char>) -> Option<int> {
    if 0 <= i < ms.len() && ms[i].0 == key {
        match ms[i].1 {
            Wire::Int(v) => Some(v),
            Wire::Text(_) => None,
        }
    } else {
        None
    }
}

/// The text held by member `i` when its key is `key`.
pub open spec fn text_at(ms: Seq<(Seq<char>, Wire)>, i: int, key: Seq<char>) -> Option<Seq<char>> {
    if 0 <= i < ms.len() && ms[i].0 == key {
        match ms[i].1 {
            Wire::Text(v) => Some(v),
            Wire::Int(_) => None,
        }
    } else {
        None
    }
}

/// Reads a member list back as an operation, by the code in `rt` and the
/// members that code's request carries; `None` when the list does not follow
/// that layout.
pub open spec fn decode_members(ms: Seq<(Seq<char>, Wire)>) -> Option<Operation> {
    let code = int_at(ms, 0, "rt"@);
    let n = ms.len();
    if code.is_none() {
        None
    } else {
        let c = code.unwrap();
        if n == 1 {
            if c == BEFORE_EVENT as int {
                Some(Operation::BeforeEvent)
            } else if c == POST_EVENT as int {
                Some(Operation::PostEvent)
            } else if c == GET_LEDGER_HASH as int {
                Some(Operation::GetLedgerHash)
            } else if c == GET_CONTRACT_ADDRESS as int {
                Some(Operation::GetContractAddress)
            } else if c == GET_TX_HASH as int {
                Some(Operation::GetTxHash)
            } else if c == GET_TX_TIME as int {
                Some(Operation::GetTxTime)
            } else if c == GET_SIGNERS as int {
                Some(Operation::GetSigners)
            } else {
                None
            }
        } else if n == 2 {
            let a = text_at(ms, 1, "a"@);
            if a.is_none() {
                None
            } else if c == GET_USER as int {
                Some(Operation::GetUser { address: a.unwrap() })
            } else if c == GET_DATA_ACCOUNT as int {
                Some(Operation::GetDataAccount { address: a.unwrap() })
            } else {
                None
            }
        } else if n == 3 && c == LOG as int {
            let l = int_at(ms, 1, "l"@);
            let m = text_at(ms, 2, "m"@);
            if l.is_some() && m.is_some() {
                Some(Operation::Log { level: l.unwrap(), message: m.unwrap() })
            } else {
                None
            }
        } else if n == 3 && (c == REGISTER_USER as int || c == REGISTER_DATA_ACCOUNT as int) {
            let s = text_at(ms, 1, "s"@);
            if s.is_none() || text_at(ms, 2, "a"@).is_none() {
                None
            } else if c == REGISTER_USER as int {
                Some(Operation::RegisterUser { seed: s.unwrap() })
            } else {
                Some(Operation::RegisterDataAccount { seed: s.unwrap() })
            }
        } else {
            let a = text_at(ms, 1, "a"@);
            let k = text_at(ms, 2, "k"@);
            if a.is_none() || k.is_none() {
                None
            } else if n == 3 && c == GET_VALUE_VERSION as int {
                Some(Operation::GetValueVersion { address: a.unwrap(), key: k.unwrap() })
            } else if n == 4 && c == GET_VALUE as int && int_at(ms, 3, "ver"@).is_some() {
                Some(
                    Operation::GetValue {
                        address: a.unwrap(),
                        key: k.unwrap(),
                        version: int_at(ms, 3, "ver"@).unwrap(),
                    },
                )
            } else if n == 4 && c == SET_TEXT as int && text_at(ms, 3, "v"@).is_some() {
                Some(
                    Operation::SetText {
                        address: a.unwrap(),
                        key: k.unwrap(),
                        value: text_at(ms, 3, "v"@).unwrap(),
                    },
                )
            } else if n == 4 && c == SET_INT64 as int && int_at(ms, 3, "v"@).is_some() {
                Some(
                    Operation::SetInt64 {
                        address: a.unwrap(),
                        key: k.unwrap(),
                        value: int_at(ms, 3, "v"@).unwrap(),
                    },
                )
            } else if n == 5 && c == SET_TEXT_WITH_VERSION as int && text_at(ms, 3, "v"@).is_some()
                && int_at(ms, 4, "ver"@).is_some() {
                Some(
                    Operation::SetTextWithVersion {
                        address: a.unwrap(),
                        key: k.unwrap(),
                        value: text_at(ms, 3, "v"@).unwrap(),
                        version: int_at(ms, 4, "ver"@).unwrap(),
                    },
                )
            } else if n == 5 && c == SET_INT64_WITH_VERSION as int && int_at(ms, 3, "v"@).is_some()
                && int_at(ms, 4, "ver"@).is_some() {
                Some(
                    Operation::SetInt64WithVersion {
                        address: a.unwrap(),
                        key: k.unwrap(),
                        value: int_at(ms, 3, "v"@).unwrap(),
                        version: int_at(ms, 4, "ver"@).unwrap(),
                    },
                )
            } else {
                None
            }
        }
    }
}

/// The request side of the host protocol; each associated function returns
/// the text of one request.
pub struct Request {
    rt: u8,
}

fn code(c: u8) -> (r: (String, Field))
    ensures
        (r.0@, r.1.wire()) == code_of(c),
{
    (String::from_str("rt"), Field::Int(c as i64))
}

fn int_field(key: &str, v: i64) -> (r: (String, Field))
    ensures
        (r.0@, r.1.wire()) == int_of(key@, v as int),
{
    (String::from_str(key), Field::Int(v))
}

fn text_field(key: &str, v: String) -> (r: (String, Field))
    ensures
        (r.0@, r.1.wire()) == text_of(key@, v@),
{
    (String::from_str(key), Field::Text(v))
}

impl Request {
    /// A debug-level log line.
    pub fn log_debug(msg: String) -> (r: String)
        ensures
            r@ == request_text(Operation::Log { level: LEVEL_DEBUG as int, message: msg@ }),
    {
        let mut ms: Vec<(String, Field)> = Vec::new();
        ms.push(code(LOG));
        ms.push(int_field("l", LEVEL_DEBUG as i64));
        ms.push(text_field("m", msg));
        assert(wire_members(ms@) =~= members_of(Operation::Log { level: LEVEL_DEBUG as int, message: msg@ }));
        encode_object(&ms)
    }

    /// An info-level log line.
    pub fn log_info(msg: String) -> (r: String)
        ensures
            r@ == request_text(Operation::Log { level: LEVEL_INFO as int, message: msg@ }),
    {
        let mut ms: Vec<(String, Field)> = Vec::new();
        ms.push(code(LOG));
        ms.push(int_field("l", LEVEL_INFO as i64));
        ms.push(text_field("m", msg));
        assert(wire_members(ms@) =~= members_of(Operation::Log { level: LEVEL_INFO as int, message: msg@ }));
        encode_object(&ms)
    }

    /// An error-level log line.
    pub fn log_error(msg: String) -> (r: String)
        ensures
            r@ == request_text(Operation::Log { level: LEVEL_ERROR as int, message: msg@ }),
    {
        let mut ms: Vec<(String, Field)> = Vec::new();
        ms.push(code(LOG));
        ms.push(int_field("l", LEVEL_ERROR as i64));
        ms.push(text_field("m", msg));
        assert(wire_members(ms@) =~= members_of(Operation::Log { level: LEVEL_ERROR as int, message: msg@ }));
        encode_object(&ms)
    }

    /// The hook run before each contract method.
    pub fn before_event() -> (r: String)
        ensures
            r@ == request_text(Operation::BeforeEvent),
    {
        let mut ms: Vec<(String, Field)> = Vec::new();
        ms.push(code(BEFORE_EVENT));
        assert(wire_members(ms@) =~= members_of(Operation::BeforeEvent));
        encode_object(&ms)
    }

    /// The hook run after each contract method.
    pub fn post_event() -> (r: String)
        ensures
            r@ == request_text(Operation::PostEvent),
    {
        let mut ms: Vec<(String, Field)> = Vec::new();
        ms.push(code(POST_EVENT));
        assert(wire_members(ms@) =~= members_of(Operation::PostEvent));
        encode_object(&ms)
    }

    /// Asks for the ledger hash.
    pub fn get_ledger_hash() -> (r: String)
        ensures
            r@ == request_text(Operation::GetLedgerHash),
    {
        let mut ms: Vec<(String, Field)> = Vec::new();
        ms.push(code(GET_LEDGER_HASH));
        assert(wire_members(ms@) =~= members_of(Operation::GetLedgerHash));
        encode_object(&ms)
    }

    /// Asks for the contract address.
    pub fn get_contract_address() -> (r: String)
        ensures
            r@ == request_text(Operation::GetContractAddress),
    {
        let mut ms: Vec<(String, Field)> = Vec::new();
        ms.push(code(GET_CONTRACT_ADDRESS));
        assert(wire_members(ms@) =~= members_of(Operation::GetContractAddress));
        encode_object(&ms)
    }

    /// Asks for the transaction hash.
    pub fn get_tx_hash() -> (r: String)
        ensures
            r@ == request_text(Operation::GetTxHash),
    {
        let mut ms: Vec<(String, Field)> = Vec::new();
        ms.push(code(GET_TX_HASH));
        assert(wire_members(ms@) =~= members_of(Operation::GetTxHash));
        encode_object(&ms)
    }

    /// Asks for the transaction time.
    pub fn get_tx_time() -> (r: String)
        ensures
            r@ == request_text(Operation::GetTxTime),
    {
        let mut ms: Vec<(String, Field)> = Vec::new();
        ms.push(code(GET_TX_TIME));
        assert(wire_members(ms@) =~= members_of(Operation::GetTxTime));
        encode_object(&ms)
    }

    /// Asks for the transaction signers.
    pub fn get_signers() -> (r: String)
        ensures
            r@ == request_text(Operation::GetSigners),
    {
        let mut ms: Vec<(String, Field)> = Vec::new();
        ms.push(code(GET_SIGNERS));
        assert(wire_members(ms@) =~= members_of(Operation::GetSigners));
        encode_object(&ms)
    }

    /// Registers a user from a seed, with the default signature algorithm.
    pub fn register_user(seed: String) -> (r: String)
        ensures
            r@ == request_text(Operation::RegisterUser { seed: seed@ }),
    {
        let mut ms: Vec<(String, Field)> = Vec::new();
        ms.push(code(REGISTER_USER));
        ms.push(text_field("s", seed));
        ms.push(text_field("a", String::from_str(DEFAULT_ALGORITHM)));
        assert(wire_members(ms@) =~= members_of(Operation::RegisterUser { seed: seed@ }));
        encode_object(&ms)
    }

    /// Looks up a user by address.
    pub fn get_user(address: String) -> (r: String)
        ensures
            r@ == request_text(Operation::GetUser { address: address@ }),
    {
        let mut ms: Vec<(String, Field)> = Vec::new();
        ms.push(code(GET_USER));
        ms.push(text_field("a", address));
        assert(wire_members(ms@) =~= members_of(Operation::GetUser { address: address@ }));
        encode_object(&ms)
    }

    /// Registers a data account from a seed, with the default signature algorithm.
    pub fn register_data_account(seed: String) -> (r: String)
        ensures
            r@ == request_text(Operation::RegisterDataAccount { seed: seed@ }),
    {
        let mut ms: Vec<(String, Field)> = Vec::new();
        ms.push(code(REGISTER_DATA_ACCOUNT));
        ms.push(text_field("s", seed));
        ms.push(text_field("a", String::from_str(DEFAULT_ALGORITHM)));
        assert(wire_members(ms@) =~= members_of(Operation::RegisterDataAccount { seed: seed@ }));
        encode_object(&ms)
    }

    /// Looks up a data account by address.
    pub fn get_data_account(address: String) -> (r: String)
        ensures
            r@ == request_text(Operation::GetDataAccount { address: address@ }),
    {
        let mut ms: Vec<(String, Field)> = Vec::new();
        ms.push(code(GET_DATA_ACCOUNT));
        ms.push(text_field("a", address));
        assert(wire_members(ms@) =~= members_of(Operation::GetDataAccount { address: address@ }));
        encode_object(&ms)
    }

    /// Writes a text value.
    pub fn set_text(address: String, key: String, value: String) -> (r: String)
        ensures
            r@ == request_text(Operation::SetText { address: address@, key: key@, value: value@ }),
    {
        let mut ms: Vec<(String, Field)> = Vec::new();
        ms.push(code(SET_TEXT));
        ms.push(text_field("a", address));
        ms.push(text_field("k", key));
        ms.push(text_field("v", value));
        assert(wire_members(ms@) =~= members_of(Operation::SetText { address: address@, key: key@, value: value@ }));
        encode_object(&ms)
    }

    /// Writes a text value over the given version.
    pub fn set_text_with_version(address: String, key: String, value: String, version: i64) -> (r: String)
        ensures
            r@ == request_text(Operation::SetTextWithVersion { address: address@, key: key@, value: value@, version: version as int }),
    {
        let mut ms: Vec<(String, Field)> = Vec::new();
        ms.push(code(SET_TEXT_WITH_VERSION));
        ms.push(text_field("a", address));
        ms.push(text_field("k", key));
        ms.push(text_field("v", value));
        ms.push(int_field("ver", version));
        assert(wire_members(ms@) =~= members_of(Operation::SetTextWithVersion { address: address@, key: key@, value: value@, version: version as int }));
        encode_object(&ms)
    }

    /// Writes an integer value.
    pub fn set_int64(address: String, key: String, value: i64) -> (r: String)
        ensures
            r@ == request_text(Operation::SetInt64 { address: address@, key: key@, value: value as int }),
    {
        let mut ms: Vec<(String, Field)> = Vec::new();
        ms.push(code(SET_INT64));
        ms.push(text_field("a", address));
        ms.push(text_field("k", key));
        ms.push(int_field("v", value));
        assert(wire_members(ms@) =~= members_of(Operation::SetInt64 { address: address@, key: key@, value: value as int }));
        encode_object(&ms)
    }

    /// Writes an integer value over the given version.
    pub fn set_int64_with_version(address: String, key: String, value: i64, version: i64) -> (r: String)
        ensures
            r@ == request_text(Operation::SetInt64WithVersion { address: address@, key: key@, value: value as int, version: version as int }),
    {
        let mut ms: Vec<(String, Field)> = Vec::new();
        ms.push(code(SET_INT64_WITH_VERSION));
        ms.push(text_field("a", address));
        ms.push(text_field("k", key));
        ms.push(int_field("v", value));
        ms.push(int_field("ver", version));
        assert(wire_members(ms@) =~= members_of(Operation::SetInt64WithVersion { address: address@, key: key@, value: value as int, version: version as int }));
        encode_object(&ms)
    }

    /// Asks for the current version of a key.
    pub fn get_value_version(address: String, key: String) -> (r: String)
        ensures
            r@ == request_text(Operation::GetValueVersion { address: address@, key: key@ }),
    {
        let mut ms: Vec<(String, Field)> = Vec::new();
        ms.push(code(GET_VALUE_VERSION));
        ms.push(text_field("a", address));
        ms.push(text_field("k", key));
        assert(wire_members(ms@) =~= members_of(Operation::GetValueVersion { address: address@, key: key@ }));
        encode_object(&ms)
    }

    /// Reads a key at a version.
    pub fn get_value(address: String, key: String, version: i64) -> (r: String)
        ensures
            r@ == request_text(Operation::GetValue { address: address@, key: key@, version: version as int }),
    {
        let mut ms: Vec<(String, Field)> = Vec::new();
        ms.push(code(GET_VALUE));
        ms.push(text_field("a", address));
        ms.push(text_field("k", key));
        ms.push(int_field("ver", version));
        assert(wire_members(ms@) =~= members_of(Operation::GetValue { address: address@, key: key@, version: version as int }));
        encode_object(&ms)
    }
}

/// Reading an operation's members back against the request layout gives the
/// same operation and the same values.
pub proof fn lemma_request_round_trip(op: Operation)
    ensures
        decode_members(members_of(op)) == Some(op),
{
}

/// A registration names the default signature algorithm whatever the seed.
pub proof fn lemma_registration_algorithm(seed: Seq<char>)
    ensures
        text_at(members_of(Operation::RegisterUser { seed }), 2, "a"@) == Some(DEFAULT_ALGORITHM@),
        text_at(members_of(Operation::RegisterDataAccount { seed }), 2, "a"@) == Some(
            DEFAULT_ALGORITHM@,
        ),
{
}

} // verus!
