use jdcc::api::LedgerService;
use jdcc::types::{
    GetContractAddressResult, GetDataAccountResult, GetLedgerHashResult, GetSignersResult,
    GetTxHashResult, GetTxTimeResult, GetUserResult, GetValueResult, GetValueVersionResult,
    RegisterDataAccountResult, RegisterUserResult, SetKVResult, ERROR, SUCCESS,
};

fn s(t: &str) -> Option<String> {
    Some(t.to_string())
}

#[test]
fn set_kv_reply_gives_version() {
    let svc = LedgerService::default();
    assert_eq!(svc.set_text(Some(SetKVResult { rc: 0, ver: Some(3) })), Some(3));
    assert_eq!(svc.set_text(Some(SetKVResult { rc: 1, ver: None })), None);
    assert_eq!(svc.set_text(None), None);
    assert_eq!(svc.set_text_with_version(Some(SetKVResult { rc: SUCCESS, ver: Some(4) })), Some(4));
    assert_eq!(svc.set_int64(Some(SetKVResult { rc: SUCCESS, ver: Some(0) })), Some(0));
    assert_eq!(svc.set_int64_with_version(Some(SetKVResult { rc: ERROR, ver: Some(9) })), None);
}

#[test]
fn text_replies() {
    let svc = LedgerService::default();
    assert_eq!(svc.get_ledger_hash(Some(GetLedgerHashResult { rc: 0, lh: s("h") })), s("h"));
    assert_eq!(svc.get_ledger_hash(Some(GetLedgerHashResult { rc: 1, lh: s("h") })), None);
    assert_eq!(svc.get_ledger_hash(Some(GetLedgerHashResult { rc: 0, lh: None })), None);
    assert_eq!(svc.get_ledger_hash(None), None);
    assert_eq!(svc.get_contract_address(Some(GetContractAddressResult { rc: 0, ca: s("c") })), s("c"));
    assert_eq!(svc.get_tx_hash(Some(GetTxHashResult { rc: 0, th: s("t") })), s("t"));
    assert_eq!(svc.register_user(Some(RegisterUserResult { rc: 0, a: s("u") })), s("u"));
    assert_eq!(svc.register_user(Some(RegisterUserResult { rc: 1, a: None })), None);
    assert_eq!(svc.register_data_account(Some(RegisterDataAccountResult { rc: 0, a: s("d") })), s("d"));
}

#[test]
fn tx_time_reply() {
    let svc = LedgerService::default();
    assert_eq!(svc.get_tx_time(Some(GetTxTimeResult { rc: 0, tt: Some(1700) })), Some(1700));
    assert_eq!(svc.get_tx_time(Some(GetTxTimeResult { rc: 1, tt: Some(1700) })), None);
}

#[test]
fn signers_reply_has_two_entries() {
    let svc = LedgerService::default();
    let r = svc.get_signers(Some(GetSignersResult { rc: 0, ss: Some(vec!["u1".to_string(), "u2".to_string()]) }));
    assert_eq!(r, Some(vec!["u1".to_string(), "u2".to_string()]));
}

#[test]
fn user_reply_without_public_key_is_absent() {
    let svc = LedgerService::default();
    assert!(svc.get_user(Some(GetUserResult { rc: 0, a: s("addrX"), pk: None })).is_none());
    let u = svc.get_user(Some(GetUserResult { rc: 0, a: s("addrX"), pk: s("pkX") })).unwrap();
    assert_eq!(u.address, "addrX");
    assert_eq!(u.pubkey, "pkX");
    assert!(svc.get_user(Some(GetUserResult { rc: 1, a: s("addrX"), pk: s("pkX") })).is_none());
    assert!(svc.get_user(None).is_none());
}

#[test]
fn data_account_reply() {
    let svc = LedgerService::default();
    let d = svc.get_data_account(Some(GetDataAccountResult { rc: 0, a: s("da"), pk: s("dk") })).unwrap();
    assert_eq!(d.address, "da");
    assert_eq!(d.pubkey, "dk");
    assert!(svc.get_data_account(Some(GetDataAccountResult { rc: 0, a: None, pk: s("dk") })).is_none());
}

fn kv_reply() -> GetValueResult {
    GetValueResult { rc: 0, k: s("k"), v: s("v"), t: s("TEXT"), ver: Some(2) }
}

#[test]
fn value_reply_and_repeat() {
    let svc = LedgerService::default();
    let a = svc.get_value(Some(kv_reply())).unwrap();
    let b = svc.get_value(Some(kv_reply())).unwrap();
    assert_eq!((a.key.as_str(), a.value.as_str(), a.value_type.as_str(), a.version), ("k", "v", "TEXT", 2));
    assert_eq!((a.key, a.value, a.value_type, a.version), (b.key, b.value, b.value_type, b.version));
    let mut partial = kv_reply();
    partial.t = None;
    assert!(svc.get_value(Some(partial)).is_none());
}

#[test]
fn value_version_reply() {
    let svc = LedgerService::default();
    assert_eq!(svc.get_value_version(Some(GetValueVersionResult { rc: 0, ver: Some(5) })), Some(5));
    assert_eq!(svc.get_value_version(Some(GetValueVersionResult { rc: 0, ver: None })), None);
}

#[test]
fn failed_records_are_errors_without_payload() {
    let f = GetValueResult::failed();
    assert_eq!(f.rc, ERROR);
    assert!(f.k.is_none() && f.v.is_none() && f.t.is_none() && f.ver.is_none());
    let g = GetUserResult::failed();
    assert!(g.rc == ERROR && g.a.is_none() && g.pk.is_none());
}

#[test]
fn logger_builds_log_requests() {
    let svc = LedgerService::default();
    assert_eq!(svc.logger().debug("x".to_string()), r#"{"rt":0,"l":1,"m":"x"}"#);
    assert_eq!(svc.logger().info("x".to_string()), r#"{"rt":0,"l":2,"m":"x"}"#);
    assert_eq!(svc.logger().error("x".to_string()), r#"{"rt":0,"l":3,"m":"x"}"#);
}
