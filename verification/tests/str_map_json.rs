use rust_am_clients::copland::{
    Attestation_Session, ProtocolRunRequest, RawEv, Term, ASP, ASP_PARAMS, FWD, SP,
};
use rust_am_clients::json_value::{copy_json_value, JsonArray, JsonObject, JsonValue};
use rust_am_clients::str_map::StrMap;

#[test]
fn insert_get_replace() {
    let mut m: StrMap<u32> = StrMap::new();
    assert_eq!(m.len(), 0);
    m.insert("a".to_string(), 1);
    m.insert("b".to_string(), 2);
    m.insert("a".to_string(), 3);
    assert_eq!(m.len(), 2);
    assert_eq!(m.get(&"a".to_string()), Some(&3));
    assert_eq!(m.get(&"b".to_string()), Some(&2));
    assert_eq!(m.get(&"c".to_string()), None);
    assert!(m.contains_key(&"b".to_string()));
    assert!(!m.contains_key(&"z".to_string()));
}

#[test]
fn remove_takes_value_out() {
    let mut m: StrMap<u32> = StrMap::new();
    m.insert("a".to_string(), 1);
    m.insert("b".to_string(), 2);
    m.insert("c".to_string(), 3);
    assert_eq!(m.remove(&"b".to_string()), Some(2));
    assert_eq!(m.remove(&"b".to_string()), None);
    assert_eq!(m.len(), 2);
    assert_eq!(m.get(&"c".to_string()), Some(&3));
    let entries = m.into_entries();
    assert_eq!(entries, vec![("a".to_string(), 1), ("c".to_string(), 3)]);
}

#[test]
fn into_entries_has_each_key_once() {
    let mut m: StrMap<&str> = StrMap::new();
    m.insert("x".to_string(), "1");
    m.insert("y".to_string(), "2");
    m.insert("x".to_string(), "3");
    assert_eq!(m.into_entries(), vec![("x".to_string(), "3"), ("y".to_string(), "2")]);
}

#[test]
fn json_copy_is_equal() {
    let v = JsonValue::Object(JsonObject::Member(
        "k".to_string(),
        Box::new(JsonValue::Array(JsonArray::Item(
            Box::new(JsonValue::Number("1.5e3".to_string())),
            Box::new(JsonArray::Item(Box::new(JsonValue::Null), Box::new(JsonArray::Empty))),
        ))),
        Box::new(JsonObject::Empty),
    ));
    let c = copy_json_value(&v);
    assert_eq!(c, v);
    assert_eq!(v.clone(), v);
}

#[test]
fn json_object_of_strings_keeps_order() {
    let v = JsonValue::object_of_strings(vec![
        ("b".to_string(), "1".to_string()),
        ("a".to_string(), "2".to_string()),
    ]);
    let expected = JsonValue::Object(JsonObject::Member(
        "b".to_string(),
        Box::new(JsonValue::Str("1".to_string())),
        Box::new(JsonObject::Member(
            "a".to_string(),
            Box::new(JsonValue::Str("2".to_string())),
            Box::new(JsonObject::Empty),
        )),
    ));
    assert_eq!(v, expected);
    assert_eq!(JsonValue::empty_object(), JsonValue::Object(JsonObject::Empty));
}

#[test]
fn test_client_copland_request() {
    let mut args: StrMap<String> = StrMap::new();
    args.insert("filepath".to_string(), "/etc/hosts".to_string());
    let params = ASP_PARAMS {
        ASP_ID: "hashfile".to_string(),
        ASP_ARGS: args,
        ASP_PLC: "P1".to_string(),
        ASP_TARG_ID: "hosts".to_string(),
    };
    let term = Term::att(
        "P1".to_string(),
        Box::new(Term::bseq(
            (SP::ALL, SP::NONE),
            Box::new(Term::asp(ASP::ASPC(SP::ALL, FWD::EXTD("1".to_string()), params))),
            Box::new(Term::asp(ASP::SIG)),
        )),
    );
    let req = ProtocolRunRequest {
        TYPE: "REQUEST".to_string(),
        ACTION: "RUN".to_string(),
        REQ_PLC: "TOP_PLC".to_string(),
        TERM: term,
        RAWEV: RawEv::RawEv(vec!["nonce".to_string()]),
        ATTESTATION_SESSION: Attestation_Session {
            Session_Plc: "P0".to_string(),
            Plc_Mapping: StrMap::new(),
            PubKey_Mapping: StrMap::new(),
        },
    };
    match &req.TERM {
        Term::att(p, _) => assert_eq!(p, "P1"),
        _ => panic!("unexpected term"),
    }
    assert_eq!(req.ATTESTATION_SESSION.Plc_Mapping.len(), 0);
}

#[test]
fn hex_encode_lowercase_pairs() {
    assert_eq!(rust_am_clients::hex::hex_encode(b"PASSED"), "504153534544");
    assert_eq!(rust_am_clients::hex::hex_encode(&[0x00, 0xab, 0xff, 0x10]), "00abff10");
    assert_eq!(rust_am_clients::hex::hex_encode(&[]), "");
}

#[test]
fn test_client_session_and_request() {
    let s = rust_am_clients::copland::test_client_session();
    assert_eq!(s.Session_Plc, "P0");
    assert_eq!(s.Plc_Mapping.get(&"P0".to_string()), Some(&"localhost:5000".to_string()));
    assert_eq!(s.Plc_Mapping.get(&"P2".to_string()), Some(&"localhost:5002".to_string()));
    assert_eq!(s.Plc_Mapping.len(), 3);
    assert_eq!(s.PubKey_Mapping.get(&"P1".to_string()), Some(&"".to_string()));
    let r = rust_am_clients::copland::test_client_request(Term::asp(ASP::SIG), "n".to_string(), s);
    assert_eq!(r.TYPE, "REQUEST");
    assert_eq!(r.REQ_PLC, "TOP_PLC");
    match r.RAWEV {
        RawEv::RawEv(v) => assert_eq!(v, vec!["n".to_string()]),
    }
}
