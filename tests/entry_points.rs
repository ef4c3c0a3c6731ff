use jdcc::contract;
use jdcc::contract::join_with_commas;
use jdcc::types::{
    GetLedgerHashResult, GetSignersResult, GetTxTimeResult, GetUserResult, GetValueResult,
    GetValueVersionResult, RegisterUserResult, SetKVResult,
};

#[test]
fn signers_rendered_with_commas() {
    let r = contract::get_signers(Some(GetSignersResult {
        rc: 0,
        ss: Some(vec!["u1".to_string(), "u2".to_string()]),
    }));
    assert_eq!(r, "u1,u2");
    assert_eq!(contract::get_signers(None), "");
    assert_eq!(join_with_commas(&vec![]), "");
    assert_eq!(join_with_commas(&vec!["only".to_string()]), "only");
}

#[test]
fn hooks_log_at_info() {
    assert_eq!(contract::before_event(), r#"{"rt":0,"l":2,"m":"start call"}"#);
    assert_eq!(contract::post_event(0), r#"{"rt":0,"l":2,"m":"end success call"}"#);
    assert_eq!(contract::post_event(1), r#"{"rt":0,"l":2,"m":"end error call"}"#);
    assert_eq!(contract::post_event(-1), r#"{"rt":0,"l":2,"m":"end error call"}"#);
    assert_eq!(contract::post_event(256), r#"{"rt":0,"l":2,"m":"end success call"}"#);
}

#[test]
fn missing_values_become_defaults() {
    assert_eq!(contract::get_tx_time(None), 0);
    assert_eq!(contract::get_tx_time(Some(GetTxTimeResult { rc: 0, tt: Some(99) })), 99);
    assert_eq!(contract::set_text(Some(SetKVResult { rc: 1, ver: None })), -1);
    assert_eq!(contract::set_text(Some(SetKVResult { rc: 0, ver: Some(3) })), 3);
    assert_eq!(contract::set_text_with_version(None), -1);
    assert_eq!(contract::set_int64(Some(SetKVResult { rc: 0, ver: Some(8) })), 8);
    assert_eq!(contract::set_int64_with_version(None), -1);
    assert_eq!(contract::get_value_version(Some(GetValueVersionResult { rc: 0, ver: Some(1) })), 1);
    assert_eq!(contract::get_ledger_hash(None), "");
    assert_eq!(contract::get_ledger_hash(Some(GetLedgerHashResult { rc: 0, lh: Some("lh".to_string()) })), "lh");
    assert_eq!(contract::register_user(Some(RegisterUserResult { rc: 0, a: Some("ua".to_string()) })), "ua");
    assert_eq!(contract::get_contract_address(None), "");
    assert_eq!(contract::get_tx_hash(None), "");
    assert_eq!(contract::register_data_account(None), "");
    assert_eq!(contract::get_data_account(None), "");
}

#[test]
fn user_entry_point_gives_public_key() {
    let ok = GetUserResult { rc: 0, a: Some("a".to_string()), pk: Some("pk".to_string()) };
    assert_eq!(contract::get_user(Some(ok)), "pk");
    let broken = GetUserResult { rc: 0, a: Some("addrX".to_string()), pk: None };
    assert_eq!(contract::get_user(Some(broken)), "");
}

#[test]
fn value_entry_point_gives_value_only() {
    let r = GetValueResult {
        rc: 0,
        k: Some("k".to_string()),
        v: Some("val".to_string()),
        t: Some("TEXT".to_string()),
        ver: Some(0),
    };
    assert_eq!(contract::get_value(Some(r)), "val");
}
