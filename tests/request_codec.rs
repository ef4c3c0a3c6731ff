use jdcc::request::{encode_object, Field, Request};

fn parsed(text: &str) -> serde_json::Value {
    serde_json::from_str(text).expect("request text is JSON")
}

#[test]
fn set_text_request_layout() {
    let r = Request::set_text("addr1".to_string(), "k1".to_string(), "hello".to_string());
    assert_eq!(r, r#"{"rt":12,"a":"addr1","k":"k1","v":"hello"}"#);
}

#[test]
fn register_user_names_default_algorithm() {
    let r = Request::register_user("abc".to_string());
    assert_eq!(r, r#"{"rt":8,"s":"abc","a":"ED25519"}"#);
    let odd = Request::register_user("RSA\",\"a\":\"x".to_string());
    let v = parsed(&odd);
    assert_eq!(v["a"], "ED25519");
    assert_eq!(v["s"], "RSA\",\"a\":\"x");
}

#[test]
fn register_data_account_names_default_algorithm() {
    let r = Request::register_data_account("seed".to_string());
    assert_eq!(r, r#"{"rt":10,"s":"seed","a":"ED25519"}"#);
}

#[test]
fn code_only_requests() {
    assert_eq!(Request::before_event(), r#"{"rt":1}"#);
    assert_eq!(Request::post_event(), r#"{"rt":2}"#);
    assert_eq!(Request::get_ledger_hash(), r#"{"rt":3}"#);
    assert_eq!(Request::get_contract_address(), r#"{"rt":4}"#);
    assert_eq!(Request::get_tx_hash(), r#"{"rt":5}"#);
    assert_eq!(Request::get_tx_time(), r#"{"rt":6}"#);
    assert_eq!(Request::get_signers(), r#"{"rt":7}"#);
}

#[test]
fn log_requests_carry_level_and_message() {
    assert_eq!(Request::log_debug("d".to_string()), r#"{"rt":0,"l":1,"m":"d"}"#);
    assert_eq!(Request::log_info("i".to_string()), r#"{"rt":0,"l":2,"m":"i"}"#);
    assert_eq!(Request::log_error("e".to_string()), r#"{"rt":0,"l":3,"m":"e"}"#);
}

#[test]
fn message_text_is_escaped() {
    let r = Request::log_info("say \"hi\"\n\\".to_string());
    assert_eq!(r, r#"{"rt":0,"l":2,"m":"say \"hi\"\n\\"}"#);
    assert_eq!(parsed(&r)["m"], "say \"hi\"\n\\");
}

#[test]
fn integer_members_are_decimal() {
    let r = Request::set_int64_with_version("a".to_string(), "k".to_string(), -5, 7);
    assert_eq!(r, r#"{"rt":15,"a":"a","k":"k","v":-5,"ver":7}"#);
    let r = Request::set_int64("a".to_string(), "k".to_string(), i64::MIN);
    assert_eq!(r, r#"{"rt":14,"a":"a","k":"k","v":-9223372036854775808}"#);
    let r = Request::set_text_with_version("a".to_string(), "k".to_string(), "v".to_string(), i64::MAX);
    assert_eq!(r, r#"{"rt":13,"a":"a","k":"k","v":"v","ver":9223372036854775807}"#);
}

#[test]
fn lookup_requests() {
    assert_eq!(Request::get_user("u".to_string()), r#"{"rt":9,"a":"u"}"#);
    assert_eq!(Request::get_data_account("d".to_string()), r#"{"rt":11,"a":"d"}"#);
    assert_eq!(
        Request::get_value_version("a".to_string(), "k".to_string()),
        r#"{"rt":16,"a":"a","k":"k"}"#
    );
    assert_eq!(
        Request::get_value("a".to_string(), "k".to_string(), 0),
        r#"{"rt":17,"a":"a","k":"k","ver":0}"#
    );
}

#[test]
fn every_request_reads_back_with_its_values() {
    let v = parsed(&Request::set_text_with_version(
        "addr\u{e9}".to_string(),
        "key\t".to_string(),
        "".to_string(),
        -1,
    ));
    assert_eq!(v["rt"], 13);
    assert_eq!(v["a"], "addr\u{e9}");
    assert_eq!(v["k"], "key\t");
    assert_eq!(v["v"], "");
    assert_eq!(v["ver"], -1);
    let v = parsed(&Request::get_value("x".to_string(), "y".to_string(), 42));
    assert_eq!(v["rt"], 17);
    assert_eq!(v["a"], "x");
    assert_eq!(v["k"], "y");
    assert_eq!(v["ver"], 42);
}

#[test]
fn same_request_twice_is_identical() {
    let a = Request::get_value("addr".to_string(), "key".to_string(), 3);
    let b = Request::get_value("addr".to_string(), "key".to_string(), 3);
    assert_eq!(a, b);
}

#[test]
fn encode_object_framing() {
    assert_eq!(encode_object(&vec![]), "{}");
    let ms = vec![
        ("x".to_string(), Field::Int(0)),
        ("y".to_string(), Field::Text("z".to_string())),
    ];
    assert_eq!(encode_object(&ms), r#"{"x":0,"y":"z"}"#);
}
