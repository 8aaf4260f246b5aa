use rust_am_clients::client_args::{
    get_am_client_args, get_local_env_var_w_suffix, get_rodeo_client_args, validate_am_client_args,
    AmClientArgs, RodeoClientArgs, DEFAULT_TERM_PATH,
};
use rust_am_clients::test_client_args::{
    get_app_uuid, get_att_uuid, get_client_args, get_term_filepath, term_options_are_valid, ClientArgsOpt,
};

const OVERRIDE: &str = "NOTE:  Overriding Attestation Session with provided env_filepath and glob_comps_filepath args";
const SESSION: &str = "NOTE:  One of env_filepath or glob_comps_filepath NOT provided as an arg.  Using the Attestation Session provided (or the DEFAULT if no session provided...)! ";

fn am_args(env: Option<&str>, comps: Option<&str>) -> AmClientArgs {
    AmClientArgs {
        term_filepath: "term.json".to_string(),
        server_uuid: "127.0.0.1:5000".to_string(),
        plcmap_filepath: "plcmap.json".to_string(),
        env_filepath: env.map(|s| s.to_string()),
        glob_comps_filepath: comps.map(|s| s.to_string()),
        attestation_session_filepath: "session.json".to_string(),
        client_uuid: "".to_string(),
        b_attestation_asp_args_filepath: None,
        d_appraisal_asp_args_filepath: None,
        r_appraisal_server_uuid: None,
        m_appraisal_summary: true,
    }
}

#[test]
fn env_var_suffix_concatenates() {
    assert_eq!(
        get_local_env_var_w_suffix("/home/am".to_string(), DEFAULT_TERM_PATH),
        "/home/am/testing/protocols/protocol_cert_appr.json"
    );
    assert_eq!(get_local_env_var_w_suffix("".to_string(), ""), "");
}

#[test]
fn am_client_args_note() {
    assert_eq!(validate_am_client_args(&am_args(Some("e"), Some("g"))), OVERRIDE);
    assert_eq!(validate_am_client_args(&am_args(Some("e"), None)), SESSION);
    assert_eq!(validate_am_client_args(&am_args(None, Some("g"))), SESSION);
    let (args, note) = get_am_client_args(am_args(None, None));
    assert_eq!(note, SESSION);
    assert_eq!(args.term_filepath, "term.json");
    assert!(args.m_appraisal_summary);
}

#[test]
fn rodeo_client_args_unchanged() {
    let a = RodeoClientArgs {
        q_req_filepath: "req.json".to_string(),
        server_uuid: "127.0.0.1:5000".to_string(),
        env_filepath: "env.json".to_string(),
        client_uuid: "".to_string(),
        r_appraisal_server_uuid: Some("127.0.0.1:5003".to_string()),
    };
    let b = get_rodeo_client_args(a);
    assert_eq!(b.q_req_filepath, "req.json");
    assert_eq!(b.r_appraisal_server_uuid.as_deref(), Some("127.0.0.1:5003"));
}

fn opts(name: Option<&str>, file: Option<&str>, att: Option<&str>, app: Option<&str>) -> ClientArgsOpt {
    ClientArgsOpt {
        opt_term_name: name.map(|s| s.to_string()),
        opt_term_filename: file.map(|s| s.to_string()),
        opt_att_server_uuid: att.map(|s| s.to_string()),
        opt_app_server_uuid: app.map(|s| s.to_string()),
    }
}

#[test]
fn term_filepath_choices() {
    assert_eq!(get_term_filepath(opts(Some("bg"), Some("mine.json"), None, None)), "mine.json");
    assert_eq!(get_term_filepath(opts(Some("cert"), None, None, None)), "cert.json");
    assert_eq!(get_term_filepath(opts(Some("filehash"), None, None, None)), "filehash.json");
    assert_eq!(get_term_filepath(opts(Some("bg"), None, None, None)), "bg.json");
    assert_eq!(get_term_filepath(opts(Some("parmut"), None, None, None)), "parmut.json");
    assert_eq!(get_term_filepath(opts(None, None, None, None)), "cert.json");
}

#[test]
fn term_option_validity() {
    assert!(term_options_are_valid(&opts(Some("cert"), None, None, None)));
    assert!(!term_options_are_valid(&opts(Some("other"), None, None, None)));
    assert!(term_options_are_valid(&opts(Some("other"), Some("f.json"), None, None)));
    assert!(term_options_are_valid(&opts(None, None, None, None)));
}

#[test]
fn server_defaults() {
    assert_eq!(get_att_uuid(opts(None, None, None, None)), "localhost:5000");
    assert_eq!(get_att_uuid(opts(None, None, Some("h:1"), None)), "h:1");
    assert_eq!(get_app_uuid(opts(None, None, None, None)), "localhost:5003");
    assert_eq!(get_app_uuid(opts(None, None, None, Some("h:2"))), "h:2");
}

#[test]
fn client_args_passes_parsed_options() {
    let a = get_client_args(Ok(opts(Some("bg"), None, None, None)));
    assert_eq!(a.opt_term_name.as_deref(), Some("bg"));
    assert_eq!(a.opt_term_filename, None);
}
