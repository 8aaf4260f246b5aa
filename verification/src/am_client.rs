//! The AM client and the comms client: where the AM client's attestation
//! session comes from, the requests it sends, and where the comms client
//! forwards a request.
use vstd::prelude::*;

use crate::am_protocol::{
    AppraisalSummaryRequest, Attestation_Session, Evidence, GlobalContext, ProtocolRunRequest, Term,
};
use crate::client_args::{am_uses_global_context, AmClientArgs};
use crate::json_value::JsonValue;
use crate::str_map::StrMap;

verus! {

/// Where the AM client's attestation session comes from.
#[derive(Debug, PartialEq, Eq)]
pub enum AmSessionSource {
    /// Built from the global type environment, the global compatibility map
    /// and the place map (their JSON files, in that order).
    GlobalContext(String, String, String),
    /// Read from an attestation session file.
    SessionFile(String),
}

/// Where the AM client's session comes from: the global context files when
/// both are given, else the attestation session file.
pub fn am_session_source(args: &AmClientArgs) -> (src: AmSessionSource)
    ensures
        if am_uses_global_context(*args) {
            src == AmSessionSource::GlobalContext(
                args.env_filepath->0,
                args.glob_comps_filepath->0,
                args.plcmap_filepath,
            )
        } else {
            src == AmSessionSource::SessionFile(args.attestation_session_filepath)
        },
{
    match (&args.env_filepath, &args.glob_comps_filepath) {
        (Some(glob_type_env_filepath), Some(glob_comps_filepath)) => AmSessionSource::GlobalContext(
            glob_type_env_filepath.clone(),
            glob_comps_filepath.clone(),
            args.plcmap_filepath.clone(),
        ),
        _ => AmSessionSource::SessionFile(args.attestation_session_filepath.clone()),
    }
}

/// The attestation session at place `P0` with the given place map, no
/// public keys, and the given ASP types and compatibility map.
pub fn session_from_global_context(
    plc_mapping: StrMap<String>,
    asp_types: StrMap<JsonValue>,
    asp_comps: StrMap<String>,
) -> (session: Attestation_Session)
    ensures
        session.Session_Plc@ == "P0"@,
        session.Plc_Mapping == plc_mapping,
        session.PubKey_Mapping@ == Map::<Seq<char>, String>::empty(),
        session.Session_Context.ASP_Types == asp_types,
        session.Session_Context.ASP_Comps == asp_comps,
{
    let my_glob_context = GlobalContext { ASP_Types: asp_types, ASP_Comps: asp_comps };
    Attestation_Session {
        Session_Plc: "P0".to_string(),
        Plc_Mapping: plc_mapping,
        PubKey_Mapping: StrMap::new(),
        Session_Context: my_glob_context,
    }
}

/// The AM client's request to run `term` at place `P0` on behalf of
/// `TOP_PLC`, on the given evidence, in the given session.
pub fn am_client_request(term: Term, evidence: Evidence, session: Attestation_Session) -> (vreq:
    ProtocolRunRequest)
    ensures
        vreq.TYPE@ == "REQUEST"@,
        vreq.ACTION@ == "RUN"@,
        vreq.REQ_PLC@ == "TOP_PLC"@,
        vreq.TO_PLC@ == "P0"@,
        vreq.TERM == term,
        vreq.EVIDENCE == evidence,
        vreq.ATTESTATION_SESSION == session,
{
    ProtocolRunRequest {
        TYPE: "REQUEST".to_string(),
        ACTION: "RUN".to_string(),
        REQ_PLC: "TOP_PLC".to_string(),
        TO_PLC: "P0".to_string(),
        TERM: term,
        EVIDENCE: evidence,
        ATTESTATION_SESSION: session,
    }
}

/// The request to summarize the appraisal of `evidence` in `session`.
pub fn appsumm_request(session: Attestation_Session, evidence: Evidence) -> (req:
    AppraisalSummaryRequest)
    ensures
        req.TYPE@ == "REQUEST"@,
        req.ACTION@ == "APPSUMM"@,
        req.ATTESTATION_SESSION == session,
        req.EVIDENCE == evidence,
{
    AppraisalSummaryRequest {
        TYPE: "REQUEST".to_string(),
        ACTION: "APPSUMM".to_string(),
        ATTESTATION_SESSION: session,
        EVIDENCE: evidence,
    }
}

/// The request argument of the comms client, which takes exactly one
/// argument after its own name.
pub fn passthrough_request_arg(args: &Vec<String>) -> (arg: Option<String>)
    ensures
        arg matches Some(a) ==> args@.len() == 2 && a == args@[1],
        arg is None <==> args@.len() != 2,
{
    if args.len() == 2 {
        Some(args[1].clone())
    } else {
        None
    }
}

/// The address that the comms client forwards a request to: the one that
/// the session's place map gives the request's destination place, or the
/// empty address when it has none.
pub fn passthrough_target_uuid(req: &ProtocolRunRequest) -> (uuid: String)
    ensures
        uuid@ == if req.ATTESTATION_SESSION.Plc_Mapping@.dom().contains(req.TO_PLC@) {
            req.ATTESTATION_SESSION.Plc_Mapping@[req.TO_PLC@]@
        } else {
            ""@
        },
{
    match req.ATTESTATION_SESSION.Plc_Mapping.get(&req.TO_PLC) {
        Some(val) => val.clone(),
        None => "".to_string(),
    }
}

} // verus!
