//! The Rodeo client: it fills the ASP arguments of a protocol term from a
//! map keyed by ASP and target, optionally adds appraisal, and builds the
//! request for the Copland virtual machine and the response it reports.
use vstd::prelude::*;

use crate::am_protocol::{
    copy_rawev, rawev_all_empty, AppraisalSummaryRequest, AppraisalSummaryResponse,
    Attestation_Session, Evidence, ProtocolRunRequest, ProtocolRunResponse, RawEv, Term, ASP,
    ASP_PARAMS,
};
use crate::json_value::{JsonValue, copy_json_value, json_empty_object};
use crate::hamr::term_asps;
use crate::str_map::StrMap;

verus! {

/// ASP arguments, by ASP and then by target.
pub type AttestArgs = StrMap<StrMap<JsonValue>>;

/// The arguments that `args_map` gives the invocation `p`: those stored for
/// its ASP and target; otherwise its own arguments when `keep_orig`, and `{}` when not.
pub open spec fn swapped_args(
    p: ASP_PARAMS,
    args_map: Map<Seq<char>, StrMap<JsonValue>>,
    keep_orig: bool,
) -> JsonValue {
    if args_map.dom().contains(p.ASP_ID@) && args_map[p.ASP_ID@]@.dom().contains(
        p.ASP_TARG_ID@,
    ) {
        args_map[p.ASP_ID@]@[p.ASP_TARG_ID@]
    } else if keep_orig {
        p.ASP_ARGS
    } else {
        json_empty_object()
    }
}

/// `p` with its arguments taken from `args_map` (see `swapped_args`).
pub open spec fn spec_aspc_args_swap(
    p: ASP_PARAMS,
    args_map: Map<Seq<char>, StrMap<JsonValue>>,
    keep_orig: bool,
) -> ASP_PARAMS {
    ASP_PARAMS { ASP_ARGS: swapped_args(p, args_map, keep_orig), ..p }
}

/// `t` with the arguments of every ASP invocation taken from `args_map`;
/// nothing else changes.
pub open spec fn spec_term_swap_args(
    t: Term,
    args_map: Map<Seq<char>, StrMap<JsonValue>>,
    keep_orig: bool,
) -> Term
    decreases t,
{
    match t {
        Term::asp(a) => match a {
            ASP::ASPC(p) => Term::asp(ASP::ASPC(spec_aspc_args_swap(p, args_map, keep_orig))),
            _ => Term::asp(a),
        },
        Term::att(q, t1) => Term::att(q, Box::new(spec_term_swap_args(*t1, args_map, keep_orig))),
        Term::lseq(t1, t2) => Term::lseq(
            Box::new(spec_term_swap_args(*t1, args_map, keep_orig)),
            Box::new(spec_term_swap_args(*t2, args_map, keep_orig)),
        ),
        Term::bseq(sp, t1, t2) => Term::bseq(
            sp,
            Box::new(spec_term_swap_args(*t1, args_map, keep_orig)),
            Box::new(spec_term_swap_args(*t2, args_map, keep_orig)),
        ),
        Term::bpar(sp, t1, t2) => Term::bpar(
            sp,
            Box::new(spec_term_swap_args(*t1, args_map, keep_orig)),
            Box::new(spec_term_swap_args(*t2, args_map, keep_orig)),
        ),
    }
}

/// `p` with its arguments taken from `args_map`.
pub fn aspc_args_swap(params: ASP_PARAMS, args_map: &AttestArgs, keep_orig: bool) -> (res:
    ASP_PARAMS)
    ensures
        res == spec_aspc_args_swap(params, args_map@, keep_orig),
{
    let new_args: JsonValue = match args_map.get(&params.ASP_ID) {
        Some(targs_map) => match targs_map.get(&params.ASP_TARG_ID) {
            Some(val) => copy_json_value(val),
            None => {
                if keep_orig {
                    params.ASP_ARGS
                } else {
                    JsonValue::empty_object()
                }
            },
        },
        None => {
            if keep_orig {
                params.ASP_ARGS
            } else {
                JsonValue::empty_object()
            }
        },
    };
    ASP_PARAMS {
        ASP_ARGS: new_args,
        ASP_ID: params.ASP_ID,
        ASP_PLC: params.ASP_PLC,
        ASP_TARG_ID: params.ASP_TARG_ID,
    }
}

/// `t` with the arguments of every ASP invocation taken from `args_map`.
pub fn term_swap_args(t: Term, args_map: &AttestArgs, keep_orig: bool) -> (res: Term)
    ensures
        res == spec_term_swap_args(t, args_map@, keep_orig),
    decreases t,
{
    match t {
        Term::asp(a) => match a {
            ASP::ASPC(params) => Term::asp(ASP::ASPC(aspc_args_swap(params, args_map, keep_orig))),
            _ => Term::asp(a),
        },
        Term::att(q, t1) => {
            let t1: Term = term_swap_args(*t1, args_map, keep_orig);
            Term::att(q, Box::new(t1))
        },
        Term::lseq(t1, t2) => {
            let t1: Term = term_swap_args(*t1, args_map, keep_orig);
            let t2: Term = term_swap_args(*t2, args_map, keep_orig);
            Term::lseq(Box::new(t1), Box::new(t2))
        },
        Term::bseq(sp, t1, t2) => {
            let t1: Term = term_swap_args(*t1, args_map, keep_orig);
            let t2: Term = term_swap_args(*t2, args_map, keep_orig);
            Term::bseq(sp, Box::new(t1), Box::new(t2))
        },
        Term::bpar(sp, t1, t2) => {
            let t1: Term = term_swap_args(*t1, args_map, keep_orig);
            let t2: Term = term_swap_args(*t2, args_map, keep_orig);
            Term::bpar(sp, Box::new(t1), Box::new(t2))
        },
    }
}

/// `t` followed by appraisal of its evidence.
pub open spec fn spec_add_appr(t: Term) -> Term {
    Term::lseq(Box::new(t), Box::new(Term::asp(ASP::APPR)))
}

/// `t` followed by appraisal of its evidence.
pub fn add_appr(t: Term) -> (res: Term)
    ensures
        res == spec_add_appr(t),
{
    Term::lseq(Box::new(t), Box::new(Term::asp(ASP::APPR)))
}

/// `t` with the arguments of every ASP invocation replaced by `null`: what
/// remains of a term when its arguments are ignored.
pub open spec fn strip_args(t: Term) -> Term
    decreases t,
{
    match t {
        Term::asp(a) => match a {
            ASP::ASPC(p) => Term::asp(ASP::ASPC(ASP_PARAMS { ASP_ARGS: JsonValue::Null, ..p })),
            _ => Term::asp(a),
        },
        Term::att(q, t1) => Term::att(q, Box::new(strip_args(*t1))),
        Term::lseq(t1, t2) => Term::lseq(Box::new(strip_args(*t1)), Box::new(strip_args(*t2))),
        Term::bseq(sp, t1, t2) => Term::bseq(
            sp,
            Box::new(strip_args(*t1)),
            Box::new(strip_args(*t2)),
        ),
        Term::bpar(sp, t1, t2) => Term::bpar(
            sp,
            Box::new(strip_args(*t1)),
            Box::new(strip_args(*t2)),
        ),
    }
}

/// The ASP `a` with its arguments filled in from `args_map`: those stored for its ASP
/// and target; otherwise its own when `keep_orig`, and `{}` when not.
/// Every other ASP is left as it is.
pub open spec fn swap_asp(a: ASP, args_map: Map<Seq<char>, StrMap<JsonValue>>, keep_orig: bool) -> ASP {
    match a {
        ASP::ASPC(p) => ASP::ASPC(
            ASP_PARAMS {
                ASP_ID: p.ASP_ID,
                ASP_ARGS: if args_map.dom().contains(p.ASP_ID@) && args_map[p.ASP_ID@]@.dom().contains(
                    p.ASP_TARG_ID@,
                ) {
                    args_map[p.ASP_ID@]@[p.ASP_TARG_ID@]
                } else if keep_orig {
                    p.ASP_ARGS
                } else {
                    json_empty_object()
                },
                ASP_PLC: p.ASP_PLC,
                ASP_TARG_ID: p.ASP_TARG_ID,
            },
        ),
        _ => a,
    }
}

/// Filling in arguments reaches every ASP of a term, in every branch: the
/// ASPs of the result, left to right, are those of `t`, each with its
/// arguments filled in.
pub proof fn law_swap_fills_every_asp(t: Term, args_map: Map<Seq<char>, StrMap<JsonValue>>, keep_orig: bool)
    ensures
        term_asps(spec_term_swap_args(t, args_map, keep_orig)) == term_asps(t).map_values(
            |a: ASP| swap_asp(a, args_map, keep_orig),
        ),
    decreases t,
{
    let f = |a: ASP| swap_asp(a, args_map, keep_orig);
    match t {
        Term::asp(a) => {
            assert(term_asps(t).map_values(f) =~= seq![f(a)]);
        },
        Term::att(_, t1) => law_swap_fills_every_asp(*t1, args_map, keep_orig),
        Term::lseq(t1, t2) => {
            law_swap_fills_every_asp(*t1, args_map, keep_orig);
            law_swap_fills_every_asp(*t2, args_map, keep_orig);
            assert((term_asps(*t1) + term_asps(*t2)).map_values(f) =~= term_asps(*t1).map_values(f)
                + term_asps(*t2).map_values(f));
        },
        Term::bseq(_, t1, t2) => {
            law_swap_fills_every_asp(*t1, args_map, keep_orig);
            law_swap_fills_every_asp(*t2, args_map, keep_orig);
            assert((term_asps(*t1) + term_asps(*t2)).map_values(f) =~= term_asps(*t1).map_values(f)
                + term_asps(*t2).map_values(f));
        },
        Term::bpar(_, t1, t2) => {
            law_swap_fills_every_asp(*t1, args_map, keep_orig);
            law_swap_fills_every_asp(*t2, args_map, keep_orig);
            assert((term_asps(*t1) + term_asps(*t2)).map_values(f) =~= term_asps(*t1).map_values(f)
                + term_asps(*t2).map_values(f));
        },
    }
}

/// Filling in arguments changes nothing in a term but the arguments of its
/// ASP invocations.
pub proof fn law_swap_keeps_shape(
    t: Term,
    args_map: Map<Seq<char>, StrMap<JsonValue>>,
    keep_orig: bool,
)
    ensures
        strip_args(spec_term_swap_args(t, args_map, keep_orig)) == strip_args(t),
    decreases t,
{
    match t {
        Term::asp(_) => {},
        Term::att(_, t1) => law_swap_keeps_shape(*t1, args_map, keep_orig),
        Term::lseq(t1, t2) => {
            law_swap_keeps_shape(*t1, args_map, keep_orig);
            law_swap_keeps_shape(*t2, args_map, keep_orig);
        },
        Term::bseq(_, t1, t2) => {
            law_swap_keeps_shape(*t1, args_map, keep_orig);
            law_swap_keeps_shape(*t2, args_map, keep_orig);
        },
        Term::bpar(_, t1, t2) => {
            law_swap_keeps_shape(*t1, args_map, keep_orig);
            law_swap_keeps_shape(*t2, args_map, keep_orig);
        },
    }
}

/// Filling in arguments from an empty map while keeping the originals
/// leaves a term unchanged.
pub proof fn law_swap_empty_map_keeps_term(t: Term)
    ensures
        spec_term_swap_args(t, Map::empty(), true) == t,
    decreases t,
{
    match t {
        Term::asp(a) => {
            if let ASP::ASPC(p) = a {
                assert(spec_aspc_args_swap(p, Map::empty(), true) == p);
            }
        },
        Term::att(_, t1) => law_swap_empty_map_keeps_term(*t1),
        Term::lseq(t1, t2) => {
            law_swap_empty_map_keeps_term(*t1);
            law_swap_empty_map_keeps_term(*t2);
        },
        Term::bseq(_, t1, t2) => {
            law_swap_empty_map_keeps_term(*t1);
            law_swap_empty_map_keeps_term(*t2);
        },
        Term::bpar(_, t1, t2) => {
            law_swap_empty_map_keeps_term(*t1);
            law_swap_empty_map_keeps_term(*t2);
        },
    }
}

/// Filling in arguments twice from the same map gives what filling them in
/// once gives.
pub proof fn law_swap_idempotent(
    t: Term,
    args_map: Map<Seq<char>, StrMap<JsonValue>>,
    keep_orig: bool,
)
    ensures
        spec_term_swap_args(spec_term_swap_args(t, args_map, keep_orig), args_map, keep_orig)
            == spec_term_swap_args(t, args_map, keep_orig),
    decreases t,
{
    match t {
        Term::asp(_) => {},
        Term::att(_, t1) => law_swap_idempotent(*t1, args_map, keep_orig),
        Term::lseq(t1, t2) => {
            law_swap_idempotent(*t1, args_map, keep_orig);
            law_swap_idempotent(*t2, args_map, keep_orig);
        },
        Term::bseq(_, t1, t2) => {
            law_swap_idempotent(*t1, args_map, keep_orig);
            law_swap_idempotent(*t2, args_map, keep_orig);
        },
        Term::bpar(_, t1, t2) => {
            law_swap_idempotent(*t1, args_map, keep_orig);
            law_swap_idempotent(*t2, args_map, keep_orig);
        },
    }
}

/// Adding appraisal and filling in arguments can be done in either order.
pub proof fn law_swap_commutes_with_appr(
    t: Term,
    args_map: Map<Seq<char>, StrMap<JsonValue>>,
    keep_orig: bool,
)
    ensures
        spec_term_swap_args(spec_add_appr(t), args_map, keep_orig) == spec_add_appr(
            spec_term_swap_args(t, args_map, keep_orig),
        ),
{
    assert(spec_term_swap_args(Term::asp(ASP::APPR), args_map, keep_orig) == Term::asp(ASP::APPR));
}

/// The inputs from which the Rodeo client builds its session.
#[derive(Debug)]
pub struct RodeoSessionConfig {
    pub RodeoSessionConfig_term: Term,
    pub RodeoSessionConfig_plc: String,
    pub RodeoSessionConfig_evidence: Evidence,
    pub RodeoSessionConfig_attest_args: AttestArgs,
    pub RodeoSessionConfig_session: Attestation_Session,
    pub RodeoSessionConfig_appr_flag: bool,
}

/// A request to the Rodeo client: which protocol to run, with which arguments.
#[derive(Debug)]
pub struct RodeoClientRequest {
    pub RodeoClientRequest_attest_id: String,
    pub RodeoClientRequest_attest_args: AttestArgs,
}

/// What the Rodeo client reports: overall success, and the request and
/// response exchanged with the Copland virtual machine.
#[derive(Debug)]
pub struct RodeoClientResponse {
    pub RodeoClientResponse_success: bool,
    pub RodeoClientResponse_error: String,
    pub RodeoClientResponse_cvm_request: ProtocolRunRequest,
    pub RodeoClientResponse_cvm_response: ProtocolRunResponse,
}

/// A protocol term with the session it runs in.
#[derive(Debug)]
pub struct RodeoEnvironment {
    pub RodeoClientEnv_term: Term,
    pub RodeoClientEnv_session: Attestation_Session,
}

/// The protocols the Rodeo client knows, by name.
pub type RodeoEnvironmentMap = StrMap<RodeoEnvironment>;

/// The term the Rodeo client runs: the configured term, followed by
/// appraisal when asked for, with the arguments of its ASP invocations
/// taken from the configured map where it has them.
pub open spec fn rodeo_session_term(
    term: Term,
    attest_args: Map<Seq<char>, StrMap<JsonValue>>,
    appr_flag: bool,
) -> Term {
    spec_term_swap_args(
        if appr_flag {
            spec_add_appr(term)
        } else {
            term
        },
        attest_args,
        true,
    )
}

/// With appraisal, the Rodeo client runs the term it runs without
/// appraisal, followed by appraisal.
pub proof fn law_rodeo_appraisal_appends_appr(
    term: Term,
    attest_args: Map<Seq<char>, StrMap<JsonValue>>,
)
    ensures
        rodeo_session_term(term, attest_args, true) == spec_add_appr(
            rodeo_session_term(term, attest_args, false),
        ),
{
    law_swap_commutes_with_appr(term, attest_args, true);
}

/// The session configuration of the Rodeo client: its term, session,
/// argument map, initial evidence and appraisal flag, requested from the
/// place `TOP_PLC`.
pub fn rodeo_session_config(
    term: Term,
    session: Attestation_Session,
    attest_args: AttestArgs,
    evidence: Evidence,
    appr_flag: bool,
) -> (config: RodeoSessionConfig)
    ensures
        config.RodeoSessionConfig_term == term,
        config.RodeoSessionConfig_plc@ == "TOP_PLC"@,
        config.RodeoSessionConfig_evidence == evidence,
        config.RodeoSessionConfig_attest_args == attest_args,
        config.RodeoSessionConfig_session == session,
        config.RodeoSessionConfig_appr_flag == appr_flag,
{
    RodeoSessionConfig {
        RodeoSessionConfig_term: term,
        RodeoSessionConfig_plc: "TOP_PLC".to_string(),
        RodeoSessionConfig_evidence: evidence,
        RodeoSessionConfig_attest_args: attest_args,
        RodeoSessionConfig_session: session,
        RodeoSessionConfig_appr_flag: appr_flag,
    }
}

/// The request to run the configured session at place `P0`, on behalf of
/// the configured place. Its term is `rodeo_session_term` of the
/// configuration; the provisioning arguments are added to it afterwards.
pub fn rodeo_to_am_request(rodeo_config: RodeoSessionConfig) -> (vreq: ProtocolRunRequest)
    ensures
        vreq.TYPE@ == "REQUEST"@,
        vreq.ACTION@ == "RUN"@,
        vreq.REQ_PLC == rodeo_config.RodeoSessionConfig_plc,
        vreq.TO_PLC@ == "P0"@,
        vreq.TERM == rodeo_session_term(
            rodeo_config.RodeoSessionConfig_term,
            rodeo_config.RodeoSessionConfig_attest_args@,
            rodeo_config.RodeoSessionConfig_appr_flag,
        ),
        vreq.EVIDENCE == rodeo_config.RodeoSessionConfig_evidence,
        vreq.ATTESTATION_SESSION == rodeo_config.RodeoSessionConfig_session,
{
    let RodeoSessionConfig {
        RodeoSessionConfig_term: my_term_orig,
        RodeoSessionConfig_evidence: my_evidence,
        RodeoSessionConfig_appr_flag: appr_bool,
        RodeoSessionConfig_attest_args: asp_args_map_in,
        RodeoSessionConfig_plc: top_plc,
        RodeoSessionConfig_session: my_session,
    } = rodeo_config;
    let to_plc = "P0".to_string();
    let my_term_orig_appr: Term = if appr_bool {
        add_appr(my_term_orig)
    } else {
        my_term_orig
    };
    let my_term = term_swap_args(my_term_orig_appr, &asp_args_map_in, true);
    ProtocolRunRequest {
        TYPE: "REQUEST".to_string(),
        ACTION: "RUN".to_string(),
        REQ_PLC: top_plc,
        TO_PLC: to_plc,
        TERM: my_term,
        EVIDENCE: my_evidence,
        ATTESTATION_SESSION: my_session,
    }
}

/// Whether every measurement of the raw evidence is empty.
pub fn appsumm_rawev(rev: RawEv) -> (result: bool)
    ensures
        result == rawev_all_empty(rev),
{
    let inner_rawev = match rev {
        RawEv::RawEv(v) => v,
    };
    let n = inner_rawev.len();
    let mut i: usize = 0;
    while i < n
        invariant
            n == inner_rawev@.len(),
            crate::am_protocol::rawev_items(rev) == inner_rawev@,
            i <= n,
            forall|j: int| 0 <= j < i ==> (#[trigger] inner_rawev@[j])@.len() == 0,
        decreases n - i,
    {
        if !inner_rawev[i].as_str().is_empty() {
            assert(inner_rawev@[i as int]@.len() != 0);
            return false;
        }
        i = i + 1;
    }
    true
}

/// The Rodeo client's report on a run: successful when every measurement
/// of the response's raw evidence is empty.
pub fn rodeo_client_response(vreq: ProtocolRunRequest, resp: ProtocolRunResponse) -> (res:
    RodeoClientResponse)
    ensures
        res.RodeoClientResponse_success == rawev_all_empty(resp.PAYLOAD.RAWEV),
        res.RodeoClientResponse_error@ == ""@,
        res.RodeoClientResponse_cvm_request == vreq,
        res.RodeoClientResponse_cvm_response == resp,
{
    let raw = copy_rawev(&resp.PAYLOAD.RAWEV);
    let success_bool = appsumm_rawev(raw);
    RodeoClientResponse {
        RodeoClientResponse_success: success_bool,
        RodeoClientResponse_error: "".to_string(),
        RodeoClientResponse_cvm_request: vreq,
        RodeoClientResponse_cvm_response: resp,
    }
}

/// The request to summarize the appraisal of the evidence that the Copland
/// virtual machine returned, in the session of the request it ran.
pub fn build_appsumm_request(rodeo_resp: RodeoClientResponse) -> (appsumm_req:
    AppraisalSummaryRequest)
    ensures
        appsumm_req.TYPE@ == "REQUEST"@,
        appsumm_req.ACTION@ == "APPSUMM"@,
        appsumm_req.ATTESTATION_SESSION
            == rodeo_resp.RodeoClientResponse_cvm_request.ATTESTATION_SESSION,
        appsumm_req.EVIDENCE == rodeo_resp.RodeoClientResponse_cvm_response.PAYLOAD,
{
    let RodeoClientResponse {
        RodeoClientResponse_success: _,
        RodeoClientResponse_error: _,
        RodeoClientResponse_cvm_request: vreq,
        RodeoClientResponse_cvm_response: vresp,
    } = rodeo_resp;
    AppraisalSummaryRequest {
        TYPE: "REQUEST".to_string(),
        ACTION: "APPSUMM".to_string(),
        ATTESTATION_SESSION: vreq.ATTESTATION_SESSION,
        EVIDENCE: vresp.PAYLOAD,
    }
}

/// The appraisal summary response for the outcome of summarizing: the
/// summary when there is one, and a failure with an empty summary when not.
pub fn appsumm_response_from_summary(summary: Option<JsonValue>) -> (resp:
    AppraisalSummaryResponse)
    ensures
        resp.TYPE@ == "RESPONSE"@,
        resp.ACTION@ == "APPSUMM"@,
        resp.SUCCESS == summary is Some,
        resp.PAYLOAD == match summary {
            Some(s) => s,
            None => json_empty_object(),
        },
{
    match summary {
        Some(s) => AppraisalSummaryResponse {
            TYPE: "RESPONSE".to_string(),
            ACTION: "APPSUMM".to_string(),
            SUCCESS: true,
            PAYLOAD: s,
        },
        None => AppraisalSummaryResponse {
            TYPE: "RESPONSE".to_string(),
            ACTION: "APPSUMM".to_string(),
            SUCCESS: false,
            PAYLOAD: JsonValue::empty_object(),
        },
    }
}

/// The term, session and argument map of the protocol that a Rodeo client
/// request names, from the environment map.
pub fn rodeo_request_env_selection(res_req: RodeoClientRequest, env: RodeoEnvironmentMap) -> (res: (
    Term,
    Attestation_Session,
    AttestArgs,
))
    requires
        env@.dom().contains(res_req.RodeoClientRequest_attest_id@),
    ensures
        res.0 == env@[res_req.RodeoClientRequest_attest_id@].RodeoClientEnv_term,
        res.1 == env@[res_req.RodeoClientRequest_attest_id@].RodeoClientEnv_session,
        res.2 == res_req.RodeoClientRequest_attest_args,
{
    let RodeoClientRequest {
        RodeoClientRequest_attest_id: asp_id_in,
        RodeoClientRequest_attest_args: asp_args_map_in,
    } = res_req;
    let mut env = env;
    let my_env = env.remove(&asp_id_in).unwrap();
    (my_env.RodeoClientEnv_term, my_env.RodeoClientEnv_session, asp_args_map_in)
}

/// Where the Rodeo client takes its protocol term from.
#[derive(Debug, PartialEq, Eq)]
pub enum RodeoTermSource {
    /// A JSON file holding the term.
    TermFile(String),
    /// A Rodeo client request and an environment map (their JSON files).
    RequestAndEnv(String, String),
    /// Generated for a HAMR attestation report root, with the golden evidence file.
    Hamr(String, String),
}

/// The Rodeo client was given some source for its term: a term file, a
/// request with an environment map, or a HAMR root with at most a golden
/// evidence file name besides.
pub open spec fn rodeo_term_source_given(
    term_filepath: Option<String>,
    req_filepath: Option<String>,
    env_filepath: Option<String>,
    hamr_root: Option<Vec<String>>,
) -> bool {
    ||| term_filepath is Some
    ||| req_filepath is Some && env_filepath is Some
    ||| hamr_root matches Some(v) && 1 <= v@.len() <= 2
}

/// A term file is always a source; so is a request with its environment
/// map; without either, a HAMR root is a source exactly when it has one
/// element (the root) or two (the root and a golden evidence file name).
pub proof fn law_rodeo_term_sources(
    term_filepath: Option<String>,
    req_filepath: Option<String>,
    env_filepath: Option<String>,
    hamr_root: Option<Vec<String>>,
)
    ensures
        term_filepath is Some ==> rodeo_term_source_given(
            term_filepath,
            req_filepath,
            env_filepath,
            hamr_root,
        ),
        req_filepath is Some && env_filepath is Some ==> rodeo_term_source_given(
            term_filepath,
            req_filepath,
            env_filepath,
            hamr_root,
        ),
        term_filepath is None && !(req_filepath is Some && env_filepath is Some) ==> (
        rodeo_term_source_given(term_filepath, req_filepath, env_filepath, hamr_root) <==> (
        hamr_root is Some && 1 <= hamr_root->0@.len() <= 2)),
{
}

/// The golden evidence file of a HAMR root argument: `<root>/<name>`, where
/// the name is the second element when there is one, and
/// `hamr_contract_golden_evidence.json` when not.
pub open spec fn hamr_golden_fp(hamr_root: Seq<String>) -> Seq<char> {
    hamr_root[0]@ + "/"@ + if hamr_root.len() == 1 {
        crate::hamr::DEFAULT_HAMR_GOLDEN_EVIDENCE_FILENAME@
    } else {
        hamr_root[1]@
    }
}

/// The golden evidence file of a HAMR root argument (see `hamr_golden_fp`).
pub fn hamr_root_golden_fp(hamr_root: &Vec<String>) -> (golden_fp: String)
    requires
        1 <= hamr_root@.len() <= 2,
    ensures
        golden_fp@ == hamr_golden_fp(hamr_root@),
{
    let mut golden_fp = hamr_root[0].clone();
    golden_fp.append("/");
    if hamr_root.len() == 1 {
        golden_fp.append(crate::hamr::DEFAULT_HAMR_GOLDEN_EVIDENCE_FILENAME);
    } else {
        golden_fp.append(hamr_root[1].as_str());
    }
    golden_fp
}

/// Whether the Rodeo client was given a source for its term
/// (see `rodeo_term_source_given`).
pub fn rodeo_term_source_valid(
    term_filepath: &Option<String>,
    req_filepath: &Option<String>,
    env_filepath: &Option<String>,
    hamr_root: &Option<Vec<String>>,
) -> (valid: bool)
    ensures
        valid == rodeo_term_source_given(*term_filepath, *req_filepath, *env_filepath, *hamr_root),
{
    if term_filepath.is_some() {
        return true;
    }
    if req_filepath.is_some() && env_filepath.is_some() {
        return true;
    }
    match hamr_root {
        Some(v) => 1 <= v.len() && v.len() <= 2,
        None => false,
    }
}

/// Where the Rodeo client takes its term from: the term file when given;
/// else the request and environment map when both are given; else the HAMR
/// root with its golden evidence file.
pub fn rodeo_term_source(
    term_filepath: Option<String>,
    req_filepath: Option<String>,
    env_filepath: Option<String>,
    hamr_root: Option<Vec<String>>,
) -> (src: RodeoTermSource)
    requires
        rodeo_term_source_given(term_filepath, req_filepath, env_filepath, hamr_root),
    ensures
        match term_filepath {
            Some(t) => src == RodeoTermSource::TermFile(t),
            None => match (req_filepath, env_filepath) {
                (Some(r), Some(e)) => src == RodeoTermSource::RequestAndEnv(r, e),
                _ => src matches RodeoTermSource::Hamr(root, golden) && root
                    == hamr_root->0@[0] && golden@ == hamr_golden_fp(hamr_root->0@),
            },
        },
{
    match term_filepath {
        Some(t) => RodeoTermSource::TermFile(t),
        None => match (req_filepath, env_filepath) {
            (Some(r), Some(e)) => RodeoTermSource::RequestAndEnv(r, e),
            _ => {
                let v = hamr_root.unwrap();
                let golden_fp = hamr_root_golden_fp(&v);
                let root = v[0].clone();
                RodeoTermSource::Hamr(root, golden_fp)
            },
        },
    }
}

/// The golden evidence file that the Rodeo client provisions, if any: the
/// one given, else the one of the HAMR root argument.
pub fn provisioning_golden_fp(
    provisioned_evidence_filepath: Option<String>,
    hamr_root: Option<Vec<String>>,
) -> (golden_fp: Option<String>)
    requires
        provisioned_evidence_filepath is None && hamr_root is Some ==> 1 <= hamr_root->0@.len()
            <= 2,
    ensures
        match provisioned_evidence_filepath {
            Some(fp) => golden_fp == Some(fp),
            None => match hamr_root {
                Some(v) => golden_fp matches Some(g) && g@ == hamr_golden_fp(v@),
                None => golden_fp is None,
            },
        },
{
    match provisioned_evidence_filepath {
        Some(fp) => Some(fp),
        None => match hamr_root {
            Some(v) => Some(hamr_root_golden_fp(&v)),
            None => None,
        },
    }
}

} // verus!
