//! Command-line arguments of the AM and Rodeo clients, their defaults and
//! the note the AM client prints about them.
use vstd::prelude::*;

verus! {

/// The protocol term file, below the clients' root directory, used by default.
pub const DEFAULT_TERM_PATH: &'static str = "/testing/protocols/protocol_cert_appr.json";

/// The attestation manager server address used by default.
pub const DEFAULT_SERVER_UUID: &'static str = "127.0.0.1:5000";

/// The client address used by default: empty, so that the system picks a port.
pub const DEFAULT_CLIENT_UUID: &'static str = "";

/// The place map file, below the clients' root directory, used by default.
pub const DEFAULT_PLCMAP_PATH: &'static str = "/testing/plc_maps/plcmap_default.json";

/// The attestation session file, below the clients' root directory, used by default.
pub const DEFAULT_SESSION_PATH: &'static str = "/testing/attestation_sessions/session_cert_appr.json";

/// The Rodeo environment file, below the clients' root directory, used by default.
pub const DEFAULT_ENV_PATH: &'static str = "/testing/rodeo_envs/env_rodeo_cert_appr.json";

/// The environment variable that names the clients' root directory.
pub const AM_CLIENTS_ENV_VAR: &'static str = "AM_CLIENTS_ROOT";

/// The value of an environment variable followed by a path suffix.
pub fn get_local_env_var_w_suffix(env_var_val: String, suffix: &str) -> (together: String)
    ensures
        together@ == env_var_val@ + suffix@,
{
    let mut together = env_var_val;
    together.append(suffix);
    together
}

/// The arguments of the AM client.
#[derive(Debug)]
pub struct AmClientArgs {
    /// Path pointing to (JSON) protocol term file
    pub term_filepath: String,
    /// UUID string for AM server destination
    pub server_uuid: String,
    /// Path pointing to (JSON) Placemap file
    pub plcmap_filepath: String,
    /// Path pointing to (JSON) ASP GLOBAL TYPE ENVIRONMENT file
    pub env_filepath: Option<String>,
    /// Path pointing to (JSON) ASP GLOBAL ASP COMPAT MAP file
    pub glob_comps_filepath: Option<String>,
    /// Path pointing to (JSON) Attestation Session file
    pub attestation_session_filepath: String,
    /// UUID string for AM client (empty: OS-assigned ephemeral port)
    pub client_uuid: String,
    /// Path pointing to (JSON) attestation ASP_ARGS file
    pub b_attestation_asp_args_filepath: Option<String>,
    /// Path pointing to (JSON) appraisal ASP_ARGS file
    pub d_appraisal_asp_args_filepath: Option<String>,
    /// UUID string for appraisal AM server
    pub r_appraisal_server_uuid: Option<String>,
    /// Whether to summarize the appraisal
    pub m_appraisal_summary: bool,
}

/// The arguments of the Rodeo client.
#[derive(Debug)]
pub struct RodeoClientArgs {
    /// Path pointing to (JSON) RodeoClientRequest file
    pub q_req_filepath: String,
    /// UUID string for AM server destination
    pub server_uuid: String,
    /// Path pointing to (JSON) RodeoEnvironmentMap file
    pub env_filepath: String,
    /// UUID string for AM client (empty: OS-assigned ephemeral port)
    pub client_uuid: String,
    /// UUID string for appraisal AM server
    pub r_appraisal_server_uuid: Option<String>,
}

/// The note printed when both the global type environment and the global
/// compatibility map are given: they override the attestation session.
pub open spec fn am_override_note() -> Seq<char> {
    "NOTE:  Overriding Attestation Session with provided env_filepath and glob_comps_filepath args"@
}

/// The note printed when one of them is missing: the attestation session
/// file is used.
pub open spec fn am_session_note() -> Seq<char> {
    "NOTE:  One of env_filepath or glob_comps_filepath NOT provided as an arg.  Using the Attestation Session provided (or the DEFAULT if no session provided...)! "@
}

/// The session of the AM client comes from the global context files: both are given.
pub open spec fn am_uses_global_context(args: AmClientArgs) -> bool {
    args.env_filepath is Some && args.glob_comps_filepath is Some
}

/// The note that the AM client prints about where its session comes from.
pub fn validate_am_client_args(args: &AmClientArgs) -> (note: String)
    ensures
        note@ == if am_uses_global_context(*args) {
            am_override_note()
        } else {
            am_session_note()
        },
{
    match (&args.env_filepath, &args.glob_comps_filepath) {
        (Some(_), Some(_)) => {
            "NOTE:  Overriding Attestation Session with provided env_filepath and glob_comps_filepath args".to_string()
        },
        _ => {
            "NOTE:  One of env_filepath or glob_comps_filepath NOT provided as an arg.  Using the Attestation Session provided (or the DEFAULT if no session provided...)! ".to_string()
        },
    }
}

/// The AM client's arguments as parsed, with the note to print about them
/// (see `validate_am_client_args`).
pub fn get_am_client_args(args: AmClientArgs) -> (res: (AmClientArgs, String))
    ensures
        res.0 == args,
        res.1@ == if am_uses_global_context(args) {
            am_override_note()
        } else {
            am_session_note()
        },
{
    let note = validate_am_client_args(&args);
    (args, note)
}

/// The Rodeo client's arguments as parsed.
pub fn get_rodeo_client_args(args: RodeoClientArgs) -> (res: RodeoClientArgs)
    ensures
        res == args,
{
    args
}

} // verus!
