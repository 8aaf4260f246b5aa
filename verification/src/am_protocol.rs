//! Copland phrases, evidence and messages of the attestation manager
//! protocol that the clients speak. ASP arguments, evidence types,
//! signatures and appraisal summaries are carried as JSON values.
use vstd::prelude::*;

use crate::copland::SP;
use crate::json_value::{JsonValue, copy_json_value};
use crate::str_map::StrMap;

verus! {

/// A place: the name of a node that runs attestation services.
pub type Plc = String;

/// The name of an attestation service provider.
pub type ASP_ID = String;

/// The name of the target that an attestation service provider measures.
pub type TARG_ID = String;

/// The parameters of an attestation service provider invocation.
#[derive(Debug, PartialEq, Eq)]
pub struct ASP_PARAMS {
    pub ASP_ID: ASP_ID,
    pub ASP_ARGS: JsonValue,
    pub ASP_PLC: Plc,
    pub ASP_TARG_ID: TARG_ID,
}

/// A primitive Copland action.
#[derive(Debug, PartialEq, Eq)]
pub enum ASP {
    NULL,
    CPY,
    ASPC(ASP_PARAMS),
    SIG,
    HSH,
    APPR,
    ENC(Plc),
}

/// The evidence splits of the two branches of a branching term.
#[derive(Clone, Copy, Debug, PartialEq, Eq, Structural)]
pub struct Split {
    pub split1: SP,
    pub split2: SP,
}

/// A Copland phrase.
#[derive(Debug, PartialEq, Eq)]
pub enum Term {
    asp(ASP),
    att(Plc, Box<Term>),
    lseq(Box<Term>, Box<Term>),
    bseq(Split, Box<Term>, Box<Term>),
    bpar(Split, Box<Term>, Box<Term>),
}

/// Raw evidence: a sequence of encoded measurements.
#[derive(Clone, Debug, PartialEq, Eq)]
pub enum RawEv {
    RawEv(Vec<String>),
}

/// Evidence: the raw measurements together with their evidence type.
#[derive(Debug, PartialEq, Eq)]
pub struct Evidence {
    pub RAWEV: RawEv,
    pub EVIDENCET: JsonValue,
}

/// The signatures and compatibility map of the ASPs of a session.
#[derive(Debug)]
pub struct GlobalContext {
    pub ASP_Types: StrMap<JsonValue>,
    pub ASP_Comps: StrMap<ASP_ID>,
}

/// The places of a session, how to reach them and their ASP context.
#[derive(Debug)]
pub struct Attestation_Session {
    pub Session_Plc: Plc,
    pub Plc_Mapping: StrMap<String>,
    pub PubKey_Mapping: StrMap<String>,
    pub Session_Context: GlobalContext,
}

/// A request to run a protocol term.
#[derive(Debug)]
pub struct ProtocolRunRequest {
    pub TYPE: String,
    pub ACTION: String,
    pub REQ_PLC: Plc,
    pub TO_PLC: Plc,
    pub TERM: Term,
    pub EVIDENCE: Evidence,
    pub ATTESTATION_SESSION: Attestation_Session,
}

/// The answer to a `ProtocolRunRequest`.
#[derive(Debug)]
pub struct ProtocolRunResponse {
    pub TYPE: String,
    pub ACTION: String,
    pub SUCCESS: bool,
    pub PAYLOAD: Evidence,
}

/// A request to summarize the appraisal of some evidence.
#[derive(Debug)]
pub struct AppraisalSummaryRequest {
    pub TYPE: String,
    pub ACTION: String,
    pub ATTESTATION_SESSION: Attestation_Session,
    pub EVIDENCE: Evidence,
}

/// The answer to an `AppraisalSummaryRequest`.
#[derive(Debug)]
pub struct AppraisalSummaryResponse {
    pub TYPE: String,
    pub ACTION: String,
    pub SUCCESS: bool,
    pub PAYLOAD: JsonValue,
}

/// The split in which both branches receive all incoming evidence.
pub open spec fn split_all() -> Split {
    Split { split1: SP::ALL, split2: SP::ALL }
}

/// The split in which both branches receive all incoming evidence.
pub fn split_all_exec() -> (s: Split)
    ensures
        s == split_all(),
{
    Split { split1: SP::ALL, split2: SP::ALL }
}

/// `a` invokes the ASP `id` at place `plc` on target `targ`.
pub open spec fn is_aspc(a: ASP, id: Seq<char>, plc: Seq<char>, targ: Seq<char>) -> bool {
    a matches ASP::ASPC(p) && p.ASP_ID@ == id && p.ASP_PLC@ == plc && p.ASP_TARG_ID@ == targ
}

/// The arguments of an ASP invocation (`null` for the other ASPs).
pub open spec fn aspc_args(a: ASP) -> JsonValue {
    match a {
        ASP::ASPC(p) => p.ASP_ARGS,
        _ => JsonValue::Null,
    }
}

/// An invocation of the ASP `id` at place `plc` on target `targ`, with arguments `args`.
pub fn make_aspc(id: &str, args: JsonValue, plc: &str, targ: &str) -> (a: ASP)
    ensures
        is_aspc(a, id@, plc@, targ@),
        aspc_args(a) == args,
{
    ASP::ASPC(
        ASP_PARAMS {
            ASP_ID: id.to_string(),
            ASP_ARGS: args,
            ASP_PLC: plc.to_string(),
            ASP_TARG_ID: targ.to_string(),
        },
    )
}

/// A deep copy of ASP parameters.
pub fn copy_asp_params(p: &ASP_PARAMS) -> (res: ASP_PARAMS)
    ensures
        res == *p,
{
    ASP_PARAMS {
        ASP_ID: p.ASP_ID.clone(),
        ASP_ARGS: copy_json_value(&p.ASP_ARGS),
        ASP_PLC: p.ASP_PLC.clone(),
        ASP_TARG_ID: p.ASP_TARG_ID.clone(),
    }
}

/// A deep copy of an ASP.
pub fn copy_asp(a: &ASP) -> (res: ASP)
    ensures
        res == *a,
{
    match a {
        ASP::NULL => ASP::NULL,
        ASP::CPY => ASP::CPY,
        ASP::ASPC(p) => ASP::ASPC(copy_asp_params(p)),
        ASP::SIG => ASP::SIG,
        ASP::HSH => ASP::HSH,
        ASP::APPR => ASP::APPR,
        ASP::ENC(q) => ASP::ENC(q.clone()),
    }
}

/// A deep copy of a term.
pub fn copy_term(t: &Term) -> (res: Term)
    ensures
        res == *t,
    decreases t,
{
    match t {
        Term::asp(a) => Term::asp(copy_asp(a)),
        Term::att(q, t1) => Term::att(q.clone(), Box::new(copy_term(t1))),
        Term::lseq(t1, t2) => Term::lseq(Box::new(copy_term(t1)), Box::new(copy_term(t2))),
        Term::bseq(sp, t1, t2) => Term::bseq(
            *sp,
            Box::new(copy_term(t1)),
            Box::new(copy_term(t2)),
        ),
        Term::bpar(sp, t1, t2) => Term::bpar(
            *sp,
            Box::new(copy_term(t1)),
            Box::new(copy_term(t2)),
        ),
    }
}

impl Clone for Term {
    fn clone(&self) -> (res: Self)
        ensures
            res == *self,
    {
        copy_term(self)
    }
}

impl Clone for ASP {
    fn clone(&self) -> (res: Self)
        ensures
            res == *self,
    {
        copy_asp(self)
    }
}

impl Clone for ASP_PARAMS {
    fn clone(&self) -> (res: Self)
        ensures
            res == *self,
    {
        copy_asp_params(self)
    }
}

/// Every measurement of the raw evidence is empty: the appraisal found no fault.
pub open spec fn rawev_all_empty(rev: RawEv) -> bool {
    all_empty(rawev_items(rev))
}

/// The measurements of raw evidence.
pub open spec fn rawev_items(rev: RawEv) -> Seq<String> {
    match rev {
        RawEv::RawEv(v) => v@,
    }
}

/// Every string of `s` is empty.
pub open spec fn all_empty(s: Seq<String>) -> bool {
    forall|i: int| 0 <= i < s.len() ==> (#[trigger] s[i])@.len() == 0
}

/// A copy of raw evidence.
pub fn copy_rawev(rev: &RawEv) -> (res: RawEv)
    ensures
        rawev_items(res) == rawev_items(*rev),
{
    match rev {
        RawEv::RawEv(v) => {
            let mut w: Vec<String> = Vec::new();
            let n = v.len();
            let mut i: usize = 0;
            while i < n
                invariant
                    n == v@.len(),
                    i <= n,
                    w@ == v@.subrange(0, i as int),
                decreases n - i,
            {
                w.push(v[i].clone());
                proof {
                    assert(w@ =~= v@.subrange(0, i + 1));
                }
                i = i + 1;
            }
            proof {
                assert(w@ =~= v@);
            }
            RawEv::RawEv(w)
        },
    }
}

} // verus!
