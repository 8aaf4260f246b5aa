use rust_am_clients::am_client::{
    am_client_request, am_session_source, appsumm_request, passthrough_request_arg,
    passthrough_target_uuid, session_from_global_context, AmSessionSource,
};
use rust_am_clients::am_protocol::{
    Attestation_Session, Evidence, GlobalContext, ProtocolRunResponse, RawEv, Term, ASP, ASP_PARAMS,
};
use rust_am_clients::client_args::AmClientArgs;
use rust_am_clients::json_value::{JsonObject, JsonValue};
use rust_am_clients::resolute::{
    do_response_app_summary, resolute_client_response, resolute_to_am_request, ResoluteClientRequest,
    ResoluteEnvironment,
};
use rust_am_clients::rodeo::{
    add_appr, appsumm_rawev, appsumm_response_from_summary, build_appsumm_request,
    hamr_root_golden_fp, provisioning_golden_fp, rodeo_client_response, rodeo_request_env_selection,
    rodeo_session_config, rodeo_term_source, rodeo_term_source_valid, rodeo_to_am_request, AttestArgs,
    RodeoClientRequest, RodeoEnvironment, RodeoTermSource,
};
use rust_am_clients::str_map::StrMap;

fn session(plc: &str) -> Attestation_Session {
    let mut plcs: StrMap<String> = StrMap::new();
    plcs.insert("P0".to_string(), "127.0.0.1:5000".to_string());
    plcs.insert("P1".to_string(), "127.0.0.1:5001".to_string());
    Attestation_Session {
        Session_Plc: plc.to_string(),
        Plc_Mapping: plcs,
        PubKey_Mapping: StrMap::new(),
        Session_Context: GlobalContext { ASP_Types: StrMap::new(), ASP_Comps: StrMap::new() },
    }
}

fn evidence(raw: &[&str]) -> Evidence {
    Evidence {
        RAWEV: RawEv::RawEv(raw.iter().map(|s| s.to_string()).collect()),
        EVIDENCET: JsonValue::Str("mt_evt".to_string()),
    }
}

fn hash_term(args: JsonValue) -> Term {
    Term::asp(ASP::ASPC(ASP_PARAMS {
        ASP_ID: "hashfile".to_string(),
        ASP_ARGS: args,
        ASP_PLC: "P0".to_string(),
        ASP_TARG_ID: "file_targ".to_string(),
    }))
}

fn response(raw: &[&str]) -> ProtocolRunResponse {
    ProtocolRunResponse {
        TYPE: "RESPONSE".to_string(),
        ACTION: "RUN".to_string(),
        SUCCESS: true,
        PAYLOAD: evidence(raw),
    }
}

#[test]
fn appsumm_rawev_all_empty() {
    assert!(appsumm_rawev(RawEv::RawEv(vec![])));
    assert!(appsumm_rawev(RawEv::RawEv(vec!["".to_string(), "".to_string()])));
    assert!(!appsumm_rawev(RawEv::RawEv(vec!["".to_string(), "ab".to_string()])));
    assert!(do_response_app_summary(response(&["", ""])));
    assert!(!do_response_app_summary(response(&["x"])));
}

#[test]
fn rodeo_request_with_appraisal() {
    let mut inner: StrMap<JsonValue> = StrMap::new();
    inner.insert("file_targ".to_string(), JsonValue::Str("new".to_string()));
    let mut args: AttestArgs = StrMap::new();
    args.insert("hashfile".to_string(), inner);
    let config = rodeo_session_config(hash_term(JsonValue::Null), session("P0"), args, evidence(&[]), true);
    assert_eq!(config.RodeoSessionConfig_plc, "TOP_PLC");
    let vreq = rodeo_to_am_request(config);
    assert_eq!(vreq.TYPE, "REQUEST");
    assert_eq!(vreq.ACTION, "RUN");
    assert_eq!(vreq.REQ_PLC, "TOP_PLC");
    assert_eq!(vreq.TO_PLC, "P0");
    assert_eq!(vreq.TERM, add_appr(hash_term(JsonValue::Str("new".to_string()))));
    assert_eq!(vreq.EVIDENCE, evidence(&[]));
    assert_eq!(vreq.ATTESTATION_SESSION.Session_Plc, "P0");
}

#[test]
fn rodeo_request_without_appraisal() {
    let config = rodeo_session_config(hash_term(JsonValue::Null), session("P0"), StrMap::new(), evidence(&[]), false);
    let vreq = rodeo_to_am_request(config);
    assert_eq!(vreq.TERM, hash_term(JsonValue::Null));
}

#[test]
fn rodeo_response_and_appsumm_request() {
    let config = rodeo_session_config(hash_term(JsonValue::Null), session("P3"), StrMap::new(), evidence(&[]), false);
    let vreq = rodeo_to_am_request(config);
    let resp = rodeo_client_response(vreq, response(&["", ""]));
    assert!(resp.RodeoClientResponse_success);
    assert_eq!(resp.RodeoClientResponse_error, "");
    let req = build_appsumm_request(resp);
    assert_eq!(req.TYPE, "REQUEST");
    assert_eq!(req.ACTION, "APPSUMM");
    assert_eq!(req.ATTESTATION_SESSION.Session_Plc, "P3");
    assert_eq!(req.EVIDENCE, evidence(&["", ""]));
}

#[test]
fn rodeo_response_fails_on_measurement() {
    let config = rodeo_session_config(hash_term(JsonValue::Null), session("P0"), StrMap::new(), evidence(&[]), false);
    let resp = rodeo_client_response(rodeo_to_am_request(config), response(&["", "bad"]));
    assert!(!resp.RodeoClientResponse_success);
}

#[test]
fn appsumm_response_success_and_failure() {
    let ok = appsumm_response_from_summary(Some(JsonValue::Bool(true)));
    assert_eq!(ok.TYPE, "RESPONSE");
    assert_eq!(ok.ACTION, "APPSUMM");
    assert!(ok.SUCCESS);
    assert_eq!(ok.PAYLOAD, JsonValue::Bool(true));
    let bad = appsumm_response_from_summary(None);
    assert!(!bad.SUCCESS);
    assert_eq!(bad.PAYLOAD, JsonValue::Object(JsonObject::Empty));
}

#[test]
fn rodeo_env_selection_picks_named_protocol() {
    let mut env: StrMap<RodeoEnvironment> = StrMap::new();
    env.insert("a".to_string(), RodeoEnvironment { RodeoClientEnv_term: Term::asp(ASP::SIG), RodeoClientEnv_session: session("PA") });
    env.insert("b".to_string(), RodeoEnvironment { RodeoClientEnv_term: Term::asp(ASP::HSH), RodeoClientEnv_session: session("PB") });
    let req = RodeoClientRequest { RodeoClientRequest_attest_id: "b".to_string(), RodeoClientRequest_attest_args: StrMap::new() };
    let (t, s, args) = rodeo_request_env_selection(req, env);
    assert_eq!(t, Term::asp(ASP::HSH));
    assert_eq!(s.Session_Plc, "PB");
    assert_eq!(args.len(), 0);
}

#[test]
fn rodeo_term_source_precedence() {
    let s = |x: &str| Some(x.to_string());
    assert_eq!(
        rodeo_term_source(s("t.json"), s("r.json"), s("e.json"), None),
        RodeoTermSource::TermFile("t.json".to_string())
    );
    assert_eq!(
        rodeo_term_source(None, s("r.json"), s("e.json"), Some(vec!["/h".to_string()])),
        RodeoTermSource::RequestAndEnv("r.json".to_string(), "e.json".to_string())
    );
    assert_eq!(
        rodeo_term_source(None, s("r.json"), None, Some(vec!["/h".to_string()])),
        RodeoTermSource::Hamr("/h".to_string(), "/h/hamr_contract_golden_evidence.json".to_string())
    );
    assert_eq!(
        rodeo_term_source(None, None, None, Some(vec!["/h".to_string(), "g.json".to_string()])),
        RodeoTermSource::Hamr("/h".to_string(), "/h/g.json".to_string())
    );
}

#[test]
fn rodeo_term_source_validity() {
    let s = |x: &str| Some(x.to_string());
    assert!(rodeo_term_source_valid(&s("t"), &None, &None, &None));
    assert!(!rodeo_term_source_valid(&None, &s("r"), &None, &None));
    assert!(!rodeo_term_source_valid(&None, &None, &None, &Some(vec![])));
    assert!(!rodeo_term_source_valid(
        &None,
        &None,
        &None,
        &Some(vec!["a".to_string(), "b".to_string(), "c".to_string()])
    ));
    assert!(rodeo_term_source_valid(&None, &None, &None, &Some(vec!["a".to_string()])));
}

#[test]
fn hamr_golden_and_provisioning_paths() {
    assert_eq!(hamr_root_golden_fp(&vec!["/root".to_string()]), "/root/hamr_contract_golden_evidence.json");
    assert_eq!(hamr_root_golden_fp(&vec!["/root".to_string(), "x.json".to_string()]), "/root/x.json");
    assert_eq!(provisioning_golden_fp(Some("p.json".to_string()), Some(vec!["/r".to_string()])), Some("p.json".to_string()));
    assert_eq!(provisioning_golden_fp(None, Some(vec!["/r".to_string()])), Some("/r/hamr_contract_golden_evidence.json".to_string()));
    assert_eq!(provisioning_golden_fp(None, None), None);
}

#[test]
fn resolute_request_and_response() {
    let mut env: StrMap<ResoluteEnvironment> = StrMap::new();
    env.insert("attest".to_string(), ResoluteEnvironment { ResClientEnv_term: hash_term(JsonValue::Null), ResClientEnv_session: session("P0") });
    let mut args: StrMap<JsonValue> = StrMap::new();
    args.insert("hashfile".to_string(), JsonValue::Number("7".to_string()));
    let req = ResoluteClientRequest { ResClientReq_attest_id: "attest".to_string(), ResClientReq_attest_args: args };
    let vreq = resolute_to_am_request(req, "TOP_PLC".to_string(), evidence(&[]), env);
    assert_eq!(vreq.TYPE, "REQUEST");
    assert_eq!(vreq.ACTION, "RUN");
    assert_eq!(vreq.REQ_PLC, "TOP_PLC");
    assert_eq!(vreq.TO_PLC, "P0");
    assert_eq!(vreq.TERM, hash_term(JsonValue::Number("7".to_string())));
    let resp = resolute_client_response(vreq, response(&[""]));
    assert!(resp.ResClientResult_success);
    assert_eq!(resp.ResClientResult_error, "");
    assert_eq!(resp.ResClientResult_term, hash_term(JsonValue::Number("7".to_string())));
    assert_eq!(resp.ResClientResult_evidence, evidence(&[""]));
}

fn am_args(env: Option<&str>, comps: Option<&str>) -> AmClientArgs {
    AmClientArgs {
        term_filepath: "term.json".to_string(),
        server_uuid: "127.0.0.1:5000".to_string(),
        plcmap_filepath: "plcmap.json".to_string(),
        env_filepath: env.map(|s| s.to_string()),
        glob_comps_filepath: comps.map(|s| s.to_string()),
        attestation_session_filepath: "session.json".to_string(),
        client_uuid: "".to_string(),
        b_attestation_asp_args_filepath: None,
        d_appraisal_asp_args_filepath: None,
        r_appraisal_server_uuid: None,
        m_appraisal_summary: false,
    }
}

#[test]
fn am_session_source_choice() {
    assert_eq!(
        am_session_source(&am_args(Some("env.json"), Some("comps.json"))),
        AmSessionSource::GlobalContext("env.json".to_string(), "comps.json".to_string(), "plcmap.json".to_string())
    );
    assert_eq!(am_session_source(&am_args(Some("env.json"), None)), AmSessionSource::SessionFile("session.json".to_string()));
    assert_eq!(am_session_source(&am_args(None, None)), AmSessionSource::SessionFile("session.json".to_string()));
}

#[test]
fn am_session_and_requests() {
    let mut plcs: StrMap<String> = StrMap::new();
    plcs.insert("P0".to_string(), "h:1".to_string());
    let s = session_from_global_context(plcs, StrMap::new(), StrMap::new());
    assert_eq!(s.Session_Plc, "P0");
    assert_eq!(s.PubKey_Mapping.len(), 0);
    assert_eq!(s.Plc_Mapping.get(&"P0".to_string()), Some(&"h:1".to_string()));
    let vreq = am_client_request(Term::asp(ASP::SIG), evidence(&[]), s);
    assert_eq!(vreq.REQ_PLC, "TOP_PLC");
    assert_eq!(vreq.TO_PLC, "P0");
    assert_eq!(vreq.TERM, Term::asp(ASP::SIG));
    let areq = appsumm_request(session("P2"), evidence(&["a"]));
    assert_eq!(areq.TYPE, "REQUEST");
    assert_eq!(areq.ACTION, "APPSUMM");
    assert_eq!(areq.ATTESTATION_SESSION.Session_Plc, "P2");
    assert_eq!(areq.EVIDENCE, evidence(&["a"]));
}

#[test]
fn passthrough_target_and_args() {
    let vreq = am_client_request(Term::asp(ASP::SIG), evidence(&[]), session("P0"));
    assert_eq!(passthrough_target_uuid(&vreq), "127.0.0.1:5000");
    let mut other = am_client_request(Term::asp(ASP::SIG), evidence(&[]), session("P0"));
    other.TO_PLC = "P9".to_string();
    assert_eq!(passthrough_target_uuid(&other), "");
    let args = vec!["prog".to_string(), "{}".to_string()];
    assert_eq!(passthrough_request_arg(&args), Some("{}".to_string()));
    assert_eq!(passthrough_request_arg(&vec!["prog".to_string()]), None);
    assert_eq!(passthrough_request_arg(&vec!["a".to_string(), "b".to_string(), "c".to_string()]), None);
}

#[test]
fn appraisal_appends_appr_to_request_term() {
    let mut inner: StrMap<JsonValue> = StrMap::new();
    inner.insert("file_targ".to_string(), JsonValue::Bool(false));
    let mut args1: AttestArgs = StrMap::new();
    args1.insert("hashfile".to_string(), inner);
    let mut inner2: StrMap<JsonValue> = StrMap::new();
    inner2.insert("file_targ".to_string(), JsonValue::Bool(false));
    let mut args2: AttestArgs = StrMap::new();
    args2.insert("hashfile".to_string(), inner2);
    let with = rodeo_to_am_request(rodeo_session_config(hash_term(JsonValue::Null), session("P0"), args1, evidence(&[]), true));
    let without = rodeo_to_am_request(rodeo_session_config(hash_term(JsonValue::Null), session("P0"), args2, evidence(&[]), false));
    assert_eq!(with.TERM, add_appr(without.TERM));
}
