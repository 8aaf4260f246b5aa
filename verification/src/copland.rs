//! Copland phrases and protocol messages of the standalone test client:
//! ASP parameters carry their arguments as a map of strings, and each
//! ASP invocation names its evidence split and forwarding.
use vstd::prelude::*;

use crate::str_map::StrMap;

verus! {

/// A place: the name of a node that runs attestation services.
pub type Plc = String;

/// The parameters of an attestation service provider invocation.
#[derive(Debug)]
pub struct ASP_PARAMS {
    pub ASP_ID: String,
    pub ASP_ARGS: StrMap<String>,
    pub ASP_PLC: Plc,
    pub ASP_TARG_ID: String,
}

/// What happens to the evidence that an ASP receives.
#[derive(Debug)]
pub enum FWD {
    COMP,
    ENCR,
    EXTD(String),
    KILL,
    KEEP,
}

/// Whether a branch of a branching term receives the incoming evidence.
#[derive(Clone, Copy, Debug, PartialEq, Eq, Structural)]
pub enum SP {
    ALL,
    NONE,
}

/// A primitive Copland action.
#[derive(Debug)]
pub enum ASP {
    NULL,
    CPY,
    ASPC(SP, FWD, ASP_PARAMS),
    SIG,
    HSH,
    ENC(Plc),
}

/// The evidence splits of the two branches of a branching term.
pub type Split = (SP, SP);

/// A Copland phrase.
#[derive(Debug)]
pub enum Term {
    asp(ASP),
    att(Plc, Box<Term>),
    lseq(Box<Term>, Box<Term>),
    bseq(Split, Box<Term>, Box<Term>),
    bpar(Split, Box<Term>, Box<Term>),
}

/// Raw evidence: a sequence of encoded measurements.
#[derive(Debug)]
pub enum RawEv {
    RawEv(Vec<String>),
}

/// The places of a session and how to reach them.
#[derive(Debug)]
pub struct Attestation_Session {
    pub Session_Plc: Plc,
    pub Plc_Mapping: StrMap<String>,
    pub PubKey_Mapping: StrMap<String>,
}

/// A request to run a protocol term.
#[derive(Debug)]
pub struct ProtocolRunRequest {
    pub TYPE: String,
    pub ACTION: String,
    pub REQ_PLC: Plc,
    pub TERM: Term,
    pub RAWEV: RawEv,
    pub ATTESTATION_SESSION: Attestation_Session,
}

/// The answer to a `ProtocolRunRequest`.
#[derive(Debug)]
pub struct ProtocolRunResponse {
    pub TYPE: String,
    pub ACTION: String,
    pub SUCCESS: bool,
    pub PAYLOAD: RawEv,
}

/// The session of the test client: place `P0`, places `P0`, `P1` and `P2`
/// at `localhost` ports 5000, 5001 and 5002, and an empty public key for `P1`.
pub fn test_client_session() -> (session: Attestation_Session)
    ensures
        session.Session_Plc@ == "P0"@,
        session.Plc_Mapping@.dom() == set!["P0"@, "P1"@, "P2"@],
        session.Plc_Mapping@["P0"@]@ == "localhost:5000"@,
        session.Plc_Mapping@["P1"@]@ == "localhost:5001"@,
        session.Plc_Mapping@["P2"@]@ == "localhost:5002"@,
        session.PubKey_Mapping@.dom() == set!["P1"@],
        session.PubKey_Mapping@["P1"@]@ == ""@,
{
    proof {
        reveal_strlit("P0");
        reveal_strlit("P1");
        reveal_strlit("P2");
    }
    let mut my_plcmap: StrMap<String> = StrMap::new();
    my_plcmap.insert("P0".to_string(), "localhost:5000".to_string());
    assert(my_plcmap@["P0"@]@ == "localhost:5000"@);
    my_plcmap.insert("P1".to_string(), "localhost:5001".to_string());
    assert("P0"@[1] != "P1"@[1]);
    assert(my_plcmap@["P0"@]@ == "localhost:5000"@);
    assert(my_plcmap@["P1"@]@ == "localhost:5001"@);
    my_plcmap.insert("P2".to_string(), "localhost:5002".to_string());
    assert("P0"@[1] != "P2"@[1] && "P1"@[1] != "P2"@[1]);
    let mut my_pubmap: StrMap<String> = StrMap::new();
    my_pubmap.insert("P1".to_string(), "".to_string());
    let session = Attestation_Session {
        Session_Plc: "P0".to_string(),
        Plc_Mapping: my_plcmap,
        PubKey_Mapping: my_pubmap,
    };
    assert(session.Plc_Mapping@.dom() =~= set!["P0"@, "P1"@, "P2"@]);
    assert(session.PubKey_Mapping@.dom() =~= set!["P1"@]);
    session
}

/// The test client's request to run `term` on behalf of `TOP_PLC`, with the
/// nonce as its only raw evidence, in the given session.
pub fn test_client_request(term: Term, nonce: String, session: Attestation_Session) -> (vreq:
    ProtocolRunRequest)
    ensures
        vreq.TYPE@ == "REQUEST"@,
        vreq.ACTION@ == "RUN"@,
        vreq.REQ_PLC@ == "TOP_PLC"@,
        vreq.TERM == term,
        vreq.RAWEV matches RawEv::RawEv(v) && v@ == seq![nonce],
        vreq.ATTESTATION_SESSION == session,
{
    let mut rawev_vec: Vec<String> = Vec::new();
    rawev_vec.push(nonce);
    proof {
        assert(rawev_vec@ =~= seq![nonce]);
    }
    ProtocolRunRequest {
        TYPE: "REQUEST".to_string(),
        ACTION: "RUN".to_string(),
        REQ_PLC: "TOP_PLC".to_string(),
        TERM: term,
        RAWEV: RawEv::RawEv(rawev_vec),
        ATTESTATION_SESSION: session,
    }
}

} // verus!
