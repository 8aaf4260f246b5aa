//! The Resolute client: it picks a protocol by name from an environment
//! map, fills the ASP arguments of its term from a map keyed by ASP, and
//! reports whether the attestation manager's evidence shows no fault.
use vstd::prelude::*;

use crate::am_protocol::{
    Attestation_Session, Evidence, ProtocolRunRequest, ProtocolRunResponse, Term, ASP, ASP_PARAMS,
};
use crate::json_value::{JsonValue, copy_json_value};
use crate::am_protocol::{copy_rawev, rawev_all_empty};
use crate::rodeo::appsumm_rawev;
use crate::hamr::term_asps;
use crate::str_map::StrMap;

verus! {

/// A request to the Resolute client: which protocol to run, with which
/// arguments for each ASP.
#[derive(Debug)]
pub struct ResoluteClientRequest {
    pub ResClientReq_attest_id: String,
    pub ResClientReq_attest_args: StrMap<JsonValue>,
}

/// What the Resolute client reports: success, the term it ran and the evidence.
#[derive(Debug)]
pub struct ResoluteClientResponse {
    pub ResClientResult_success: bool,
    pub ResClientResult_error: String,
    pub ResClientResult_term: Term,
    pub ResClientResult_evidence: Evidence,
}

/// A protocol term with the session it runs in.
#[derive(Debug)]
pub struct ResoluteEnvironment {
    pub ResClientEnv_term: Term,
    pub ResClientEnv_session: Attestation_Session,
}

/// The protocols the Resolute client knows, by name.
pub type ResoluteEnvironmentMap = StrMap<ResoluteEnvironment>;

/// `p` with its arguments taken from those stored for its ASP; otherwise its
/// own when `keep_orig`, and `null` when not.
pub open spec fn spec_aspc_args_swap(
    p: ASP_PARAMS,
    args_map: Map<Seq<char>, JsonValue>,
    keep_orig: bool,
) -> ASP_PARAMS {
    ASP_PARAMS {
        ASP_ARGS: if args_map.dom().contains(p.ASP_ID@) {
            args_map[p.ASP_ID@]
        } else if keep_orig {
            p.ASP_ARGS
        } else {
            JsonValue::Null
        },
        ..p
    }
}

/// `t` with the arguments of every ASP invocation taken from `args_map`;
/// nothing else changes.
pub open spec fn spec_term_swap_args(
    t: Term,
    args_map: Map<Seq<char>, JsonValue>,
    keep_orig: bool,
) -> Term
    decreases t,
{
    match t {
        Term::asp(a) => match a {
            ASP::ASPC(p) => Term::asp(ASP::ASPC(spec_aspc_args_swap(p, args_map, keep_orig))),
            _ => Term::asp(a),
        },
        Term::att(q, t1) => Term::att(q, Box::new(spec_term_swap_args(*t1, args_map, keep_orig))),
        Term::lseq(t1, t2) => Term::lseq(
            Box::new(spec_term_swap_args(*t1, args_map, keep_orig)),
            Box::new(spec_term_swap_args(*t2, args_map, keep_orig)),
        ),
        Term::bseq(sp, t1, t2) => Term::bseq(
            sp,
            Box::new(spec_term_swap_args(*t1, args_map, keep_orig)),
            Box::new(spec_term_swap_args(*t2, args_map, keep_orig)),
        ),
        Term::bpar(sp, t1, t2) => Term::bpar(
            sp,
            Box::new(spec_term_swap_args(*t1, args_map, keep_orig)),
            Box::new(spec_term_swap_args(*t2, args_map, keep_orig)),
        ),
    }
}

/// `p` with its arguments taken from `args_map`.
pub fn aspc_args_swap(params: ASP_PARAMS, args_map: &StrMap<JsonValue>, keep_orig: bool) -> (res:
    ASP_PARAMS)
    ensures
        res == spec_aspc_args_swap(params, args_map@, keep_orig),
{
    let new_args: JsonValue = match args_map.get(&params.ASP_ID) {
        Some(val) => copy_json_value(val),
        None => {
            if keep_orig {
                params.ASP_ARGS
            } else {
                JsonValue::Null
            }
        },
    };
    ASP_PARAMS {
        ASP_ARGS: new_args,
        ASP_ID: params.ASP_ID,
        ASP_PLC: params.ASP_PLC,
        ASP_TARG_ID: params.ASP_TARG_ID,
    }
}

/// `t` with the arguments of every ASP invocation taken from `args_map`.
pub fn term_swap_args(t: Term, args_map: &StrMap<JsonValue>, keep_orig: bool) -> (res: Term)
    ensures
        res == spec_term_swap_args(t, args_map@, keep_orig),
    decreases t,
{
    match t {
        Term::asp(a) => match a {
            ASP::ASPC(params) => Term::asp(ASP::ASPC(aspc_args_swap(params, args_map, keep_orig))),
            _ => Term::asp(a),
        },
        Term::att(q, t1) => {
            let t1: Term = term_swap_args(*t1, args_map, keep_orig);
            Term::att(q, Box::new(t1))
        },
        Term::lseq(t1, t2) => {
            let t1: Term = term_swap_args(*t1, args_map, keep_orig);
            let t2: Term = term_swap_args(*t2, args_map, keep_orig);
            Term::lseq(Box::new(t1), Box::new(t2))
        },
        Term::bseq(sp, t1, t2) => {
            let t1: Term = term_swap_args(*t1, args_map, keep_orig);
            let t2: Term = term_swap_args(*t2, args_map, keep_orig);
            Term::bseq(sp, Box::new(t1), Box::new(t2))
        },
        Term::bpar(sp, t1, t2) => {
            let t1: Term = term_swap_args(*t1, args_map, keep_orig);
            let t2: Term = term_swap_args(*t2, args_map, keep_orig);
            Term::bpar(sp, Box::new(t1), Box::new(t2))
        },
    }
}

/// The ASP `a` with its arguments filled in from `args_map`: those stored for its ASP;
/// otherwise its own when `keep_orig`, and `null` when not.
/// Every other ASP is left as it is.
pub open spec fn swap_asp(a: ASP, args_map: Map<Seq<char>, JsonValue>, keep_orig: bool) -> ASP {
    match a {
        ASP::ASPC(p) => ASP::ASPC(
            ASP_PARAMS {
                ASP_ID: p.ASP_ID,
                ASP_ARGS: if args_map.dom().contains(p.ASP_ID@) {
                    args_map[p.ASP_ID@]
                } else if keep_orig {
                    p.ASP_ARGS
                } else {
                    JsonValue::Null
                },
                ASP_PLC: p.ASP_PLC,
                ASP_TARG_ID: p.ASP_TARG_ID,
            },
        ),
        _ => a,
    }
}

/// Filling in arguments reaches every ASP of a term, in every branch: the
/// ASPs of the result, left to right, are those of `t`, each with its
/// arguments filled in.
pub proof fn law_swap_fills_every_asp(t: Term, args_map: Map<Seq<char>, JsonValue>, keep_orig: bool)
    ensures
        term_asps(spec_term_swap_args(t, args_map, keep_orig)) == term_asps(t).map_values(
            |a: ASP| swap_asp(a, args_map, keep_orig),
        ),
    decreases t,
{
    let f = |a: ASP| swap_asp(a, args_map, keep_orig);
    match t {
        Term::asp(a) => {
            assert(term_asps(t).map_values(f) =~= seq![f(a)]);
        },
        Term::att(_, t1) => law_swap_fills_every_asp(*t1, args_map, keep_orig),
        Term::lseq(t1, t2) => {
            law_swap_fills_every_asp(*t1, args_map, keep_orig);
            law_swap_fills_every_asp(*t2, args_map, keep_orig);
            assert((term_asps(*t1) + term_asps(*t2)).map_values(f) =~= term_asps(*t1).map_values(f)
                + term_asps(*t2).map_values(f));
        },
        Term::bseq(_, t1, t2) => {
            law_swap_fills_every_asp(*t1, args_map, keep_orig);
            law_swap_fills_every_asp(*t2, args_map, keep_orig);
            assert((term_asps(*t1) + term_asps(*t2)).map_values(f) =~= term_asps(*t1).map_values(f)
                + term_asps(*t2).map_values(f));
        },
        Term::bpar(_, t1, t2) => {
            law_swap_fills_every_asp(*t1, args_map, keep_orig);
            law_swap_fills_every_asp(*t2, args_map, keep_orig);
            assert((term_asps(*t1) + term_asps(*t2)).map_values(f) =~= term_asps(*t1).map_values(f)
                + term_asps(*t2).map_values(f));
        },
    }
}

/// Filling in arguments changes nothing in a term but the arguments of its
/// ASP invocations.
pub proof fn law_swap_keeps_shape(t: Term, args_map: Map<Seq<char>, JsonValue>, keep_orig: bool)
    ensures
        crate::rodeo::strip_args(spec_term_swap_args(t, args_map, keep_orig))
            == crate::rodeo::strip_args(t),
    decreases t,
{
    match t {
        Term::asp(_) => {},
        Term::att(_, t1) => law_swap_keeps_shape(*t1, args_map, keep_orig),
        Term::lseq(t1, t2) => {
            law_swap_keeps_shape(*t1, args_map, keep_orig);
            law_swap_keeps_shape(*t2, args_map, keep_orig);
        },
        Term::bseq(_, t1, t2) => {
            law_swap_keeps_shape(*t1, args_map, keep_orig);
            law_swap_keeps_shape(*t2, args_map, keep_orig);
        },
        Term::bpar(_, t1, t2) => {
            law_swap_keeps_shape(*t1, args_map, keep_orig);
            law_swap_keeps_shape(*t2, args_map, keep_orig);
        },
    }
}

/// Filling in arguments from an empty map while keeping the originals
/// leaves a term unchanged.
pub proof fn law_swap_empty_map_keeps_term(t: Term)
    ensures
        spec_term_swap_args(t, Map::empty(), true) == t,
    decreases t,
{
    match t {
        Term::asp(a) => {
            if let ASP::ASPC(p) = a {
                assert(spec_aspc_args_swap(p, Map::empty(), true) == p);
            }
        },
        Term::att(_, t1) => law_swap_empty_map_keeps_term(*t1),
        Term::lseq(t1, t2) => {
            law_swap_empty_map_keeps_term(*t1);
            law_swap_empty_map_keeps_term(*t2);
        },
        Term::bseq(_, t1, t2) => {
            law_swap_empty_map_keeps_term(*t1);
            law_swap_empty_map_keeps_term(*t2);
        },
        Term::bpar(_, t1, t2) => {
            law_swap_empty_map_keeps_term(*t1);
            law_swap_empty_map_keeps_term(*t2);
        },
    }
}

/// Filling in arguments twice from the same map gives what filling them in
/// once gives.
pub proof fn law_swap_idempotent(t: Term, args_map: Map<Seq<char>, JsonValue>, keep_orig: bool)
    ensures
        spec_term_swap_args(spec_term_swap_args(t, args_map, keep_orig), args_map, keep_orig)
            == spec_term_swap_args(t, args_map, keep_orig),
    decreases t,
{
    match t {
        Term::asp(_) => {},
        Term::att(_, t1) => law_swap_idempotent(*t1, args_map, keep_orig),
        Term::lseq(t1, t2) => {
            law_swap_idempotent(*t1, args_map, keep_orig);
            law_swap_idempotent(*t2, args_map, keep_orig);
        },
        Term::bseq(_, t1, t2) => {
            law_swap_idempotent(*t1, args_map, keep_orig);
            law_swap_idempotent(*t2, args_map, keep_orig);
        },
        Term::bpar(_, t1, t2) => {
            law_swap_idempotent(*t1, args_map, keep_orig);
            law_swap_idempotent(*t2, args_map, keep_orig);
        },
    }
}

/// The request to run, from place `myPlc` at place `P0`, the protocol that
/// the request names, with its arguments filled in from the request
/// (keeping the term's own where the request has none), on the given evidence.
pub fn resolute_to_am_request(
    res_req: ResoluteClientRequest,
    myPlc: String,
    init_evidence: Evidence,
    env: ResoluteEnvironmentMap,
) -> (vreq: ProtocolRunRequest)
    requires
        env@.dom().contains(res_req.ResClientReq_attest_id@),
    ensures
        vreq.TYPE@ == "REQUEST"@,
        vreq.ACTION@ == "RUN"@,
        vreq.REQ_PLC == myPlc,
        vreq.TO_PLC@ == "P0"@,
        vreq.TERM == spec_term_swap_args(
            env@[res_req.ResClientReq_attest_id@].ResClientEnv_term,
            res_req.ResClientReq_attest_args@,
            true,
        ),
        vreq.EVIDENCE == init_evidence,
        vreq.ATTESTATION_SESSION == env@[res_req.ResClientReq_attest_id@].ResClientEnv_session,
{
    let top_plc = myPlc;
    let ResoluteClientRequest {
        ResClientReq_attest_id: asp_id_in,
        ResClientReq_attest_args: asp_args_map_in,
    } = res_req;
    let mut env = env;
    let my_env = env.remove(&asp_id_in).unwrap();
    let my_term = term_swap_args(my_env.ResClientEnv_term, &asp_args_map_in, true);
    ProtocolRunRequest {
        TYPE: "REQUEST".to_string(),
        ACTION: "RUN".to_string(),
        REQ_PLC: top_plc,
        TO_PLC: "P0".to_string(),
        TERM: my_term,
        EVIDENCE: init_evidence,
        ATTESTATION_SESSION: my_env.ResClientEnv_session,
    }
}

/// Whether every measurement of the response's raw evidence is empty.
pub fn do_response_app_summary(resp: ProtocolRunResponse) -> (v: bool)
    ensures
        v == rawev_all_empty(resp.PAYLOAD.RAWEV),
{
    appsumm_rawev(resp.PAYLOAD.RAWEV)
}

/// The Resolute client's report on a run: successful when every measurement
/// of the response's raw evidence is empty, with the term that ran.
pub fn resolute_client_response(vreq: ProtocolRunRequest, resp: ProtocolRunResponse) -> (res:
    ResoluteClientResponse)
    ensures
        res.ResClientResult_success == rawev_all_empty(resp.PAYLOAD.RAWEV),
        res.ResClientResult_error@ == ""@,
        res.ResClientResult_term == vreq.TERM,
        res.ResClientResult_evidence == resp.PAYLOAD,
{
    let raw = copy_rawev(&resp.PAYLOAD.RAWEV);
    let success_bool = appsumm_rawev(raw);
    ResoluteClientResponse {
        ResClientResult_success: success_bool,
        ResClientResult_error: "".to_string(),
        ResClientResult_term: vreq.TERM,
        ResClientResult_evidence: resp.PAYLOAD,
    }
}

} // verus!
