//! Protocol terms for attesting HAMR-generated systems: the contract slice
//! check, the Verus hash and run checks, and their signed sequential
//! composition.
use vstd::prelude::*;
use vstd::string::StrSliceExecFns;

use crate::am_protocol::{aspc_args, is_aspc, make_aspc, split_all, split_all_exec, Term, ASP};
use crate::json_value::{JsonValue, json_empty_object, json_is_string_object, string_pairs_view};

verus! {

/// The golden evidence file that a HAMR attestation report root holds by default.
pub const DEFAULT_HAMR_GOLDEN_EVIDENCE_FILENAME: &'static str = "hamr_contract_golden_evidence.json";

/// `t` followed, with all evidence passed to both branches, by the ASP `asp`.
pub open spec fn spec_add_asp(asp: ASP, t: Term) -> Term {
    Term::bseq(split_all(), Box::new(t), Box::new(Term::asp(asp)))
}

/// `t` followed, with all evidence passed to both branches, by `new_t`.
pub open spec fn spec_add_term_bseq(new_t: Term, t: Term) -> Term {
    Term::bseq(split_all(), Box::new(t), Box::new(new_t))
}

/// The term that runs the ASPs of `asps`: the last one first, each later
/// one in a branching sequence after the ones that follow it.
pub open spec fn spec_asp_vec_to_term(asps: Seq<ASP>) -> Term
    decreases asps.len(),
{
    if asps.len() == 0 {
        Term::asp(ASP::NULL)
    } else if asps.len() == 1 {
        Term::asp(asps[0])
    } else {
        spec_add_asp(asps[0], spec_asp_vec_to_term(asps.drop_first()))
    }
}

/// The branching sequence of the terms of `terms`, built in the same way.
pub open spec fn spec_vec_terms_to_bseq(terms: Seq<Term>) -> Term
    decreases terms.len(),
{
    if terms.len() == 0 {
        Term::asp(ASP::NULL)
    } else if terms.len() == 1 {
        terms[0]
    } else {
        spec_add_term_bseq(terms[0], spec_vec_terms_to_bseq(terms.drop_first()))
    }
}

/// The ASPs of a term, left to right.
pub open spec fn term_asps(t: Term) -> Seq<ASP>
    decreases t,
{
    match t {
        Term::asp(a) => seq![a],
        Term::att(_, t1) => term_asps(*t1),
        Term::lseq(t1, t2) => term_asps(*t1) + term_asps(*t2),
        Term::bseq(_, t1, t2) => term_asps(*t1) + term_asps(*t2),
        Term::bpar(_, t1, t2) => term_asps(*t1) + term_asps(*t2),
    }
}

/// Appends the ASP `asp` after `t` in a branching sequence.
pub fn add_asp(asp: ASP, t: Term) -> (res: Term)
    ensures
        res == spec_add_asp(asp, t),
{
    Term::bseq(split_all_exec(), Box::new(t), Box::new(Term::asp(asp)))
}

/// Appends `new_t` after `t` in a branching sequence.
pub fn add_term_bseq(new_t: Term, t: Term) -> (res: Term)
    ensures
        res == spec_add_term_bseq(new_t, t),
{
    Term::bseq(split_all_exec(), Box::new(t), Box::new(new_t))
}

proof fn lemma_asp_vec_suffix(s: Seq<ASP>, k: int)
    requires
        1 <= k < s.len(),
    ensures
        spec_asp_vec_to_term(s.subrange(k - 1, s.len() as int)) == spec_add_asp(
            s[k - 1],
            spec_asp_vec_to_term(s.subrange(k, s.len() as int)),
        ),
{
    let tail = s.subrange(k - 1, s.len() as int);
    assert(tail.drop_first() =~= s.subrange(k, s.len() as int));
}

proof fn lemma_terms_suffix(s: Seq<Term>, k: int)
    requires
        1 <= k < s.len(),
    ensures
        spec_vec_terms_to_bseq(s.subrange(k - 1, s.len() as int)) == spec_add_term_bseq(
            s[k - 1],
            spec_vec_terms_to_bseq(s.subrange(k, s.len() as int)),
        ),
{
    let tail = s.subrange(k - 1, s.len() as int);
    assert(tail.drop_first() =~= s.subrange(k, s.len() as int));
}

/// The term that runs the given ASPs (see `spec_asp_vec_to_term`); `NULL` when there are none.
pub fn ASP_Vec_to_Term(asps: Vec<ASP>) -> (res: Term)
    ensures
        res == spec_asp_vec_to_term(asps@),
{
    let ghost all = asps@;
    let n = asps.len();
    if n == 0 {
        return Term::asp(ASP::NULL);
    }
    let mut asps = asps;
    let last = asps.pop().unwrap();
    let mut acc = Term::asp(last);
    proof {
        assert(all.subrange(n - 1, n as int) =~= seq![all[n - 1]]);
    }
    while asps.len() > 0
        invariant
            n == all.len(),
            1 <= asps@.len() + 1 <= n,
            asps@ == all.subrange(0, asps@.len() as int),
            acc == spec_asp_vec_to_term(all.subrange(asps@.len() as int, n as int)),
        decreases asps.len(),
    {
        let ghost k = asps@.len() as int;
        let x = asps.pop().unwrap();
        proof {
            lemma_asp_vec_suffix(all, k);
            assert(asps@ =~= all.subrange(0, asps@.len() as int));
        }
        acc = add_asp(x, acc);
    }
    proof {
        assert(all.subrange(0, n as int) =~= all);
    }
    acc
}

/// The branching sequence of the given terms (see `spec_vec_terms_to_bseq`);
/// `NULL` when there are none.
pub fn vec_terms_to_bseq(v: Vec<Term>) -> (res: Term)
    ensures
        res == spec_vec_terms_to_bseq(v@),
{
    let ghost all = v@;
    let n = v.len();
    if n == 0 {
        return Term::asp(ASP::NULL);
    }
    let mut v = v;
    let mut acc = v.pop().unwrap();
    proof {
        assert(all.subrange(n - 1, n as int) =~= seq![all[n - 1]]);
    }
    while v.len() > 0
        invariant
            n == all.len(),
            1 <= v@.len() + 1 <= n,
            v@ == all.subrange(0, v@.len() as int),
            acc == spec_vec_terms_to_bseq(all.subrange(v@.len() as int, n as int)),
        decreases v.len(),
    {
        let ghost k = v@.len() as int;
        let x = v.pop().unwrap();
        proof {
            lemma_terms_suffix(all, k);
            assert(v@ =~= all.subrange(0, v@.len() as int));
        }
        acc = add_term_bseq(x, acc);
    }
    proof {
        assert(all.subrange(0, n as int) =~= all);
    }
    acc
}

/// Building a term from ASPs is building the branching sequence of the
/// single-ASP terms.
pub proof fn law_asp_vec_is_bseq_of_asps(asps: Seq<ASP>)
    ensures
        spec_asp_vec_to_term(asps) == spec_vec_terms_to_bseq(
            asps.map_values(|a: ASP| Term::asp(a)),
        ),
    decreases asps.len(),
{
    let ts = asps.map_values(|a: ASP| Term::asp(a));
    if asps.len() > 1 {
        law_asp_vec_is_bseq_of_asps(asps.drop_first());
        assert(ts.drop_first() =~= asps.drop_first().map_values(|a: ASP| Term::asp(a)));
    }
}

/// The term built from a non-empty list of ASPs runs exactly those ASPs,
/// in reverse order.
pub proof fn law_asp_vec_runs_asps_reversed(asps: Seq<ASP>)
    requires
        asps.len() > 0,
    ensures
        term_asps(spec_asp_vec_to_term(asps)) == asps.reverse(),
    decreases asps.len(),
{
    if asps.len() == 1 {
        assert(asps.reverse() =~= seq![asps[0]]);
    } else {
        let rest = asps.drop_first();
        law_asp_vec_runs_asps_reversed(rest);
        let t = spec_asp_vec_to_term(rest);
        assert(spec_asp_vec_to_term(asps) == spec_add_asp(asps[0], t));
        assert(term_asps(Term::asp(asps[0])) == seq![asps[0]]);
        assert(term_asps(spec_add_asp(asps[0], t)) == term_asps(t) + term_asps(
            Term::asp(asps[0]),
        ));
        assert(asps.reverse() =~= rest.reverse() + seq![asps[0]]);
    }
}

/// The arguments of the contract slice check: no golden-evidence environment
/// variable, the golden evidence file, and the attestation report (twice).
pub open spec fn file_slice_args(golden: Seq<char>, report: Seq<char>) -> Seq<(Seq<char>, Seq<char>)> {
    seq![
        ("env_var_golden"@, ""@),
        ("filepath_golden"@, golden),
        ("report_filepath"@, report),
        ("attestation_report_filepath"@, report),
    ]
}

/// `a` is the contract slice check of the report `report` against the golden evidence `golden`.
pub open spec fn is_file_slice_asp(a: ASP, golden: Seq<char>, report: Seq<char>) -> bool {
    &&& is_aspc(a, "hamr_readfile_range_many"@, "P0"@, "hamr_readfile_range_many_targ"@)
    &&& json_is_string_object(aspc_args(a), file_slice_args(golden, report))
}

/// The ASP that checks the slices of the attestation report at `report_fp`
/// against the golden evidence at `golden_evidence_fp`.
pub fn File_Slice_to_ASP(golden_evidence_fp: &str, report_fp: &str) -> (a: ASP)
    ensures
        is_file_slice_asp(a, golden_evidence_fp@, report_fp@),
{
    let mut members: Vec<(String, String)> = Vec::new();
    members.push(("env_var_golden".to_string(), "".to_string()));
    members.push(("filepath_golden".to_string(), golden_evidence_fp.to_string()));
    members.push(("report_filepath".to_string(), report_fp.to_string()));
    members.push(("attestation_report_filepath".to_string(), report_fp.to_string()));
    proof {
        assert(string_pairs_view(members@) =~= file_slice_args(golden_evidence_fp@, report_fp@));
    }
    let asp_args_json = JsonValue::object_of_strings(members);
    make_aspc(
        "hamr_readfile_range_many",
        asp_args_json,
        "P0",
        "hamr_readfile_range_many_targ",
    )
}

/// `name` joined below the directory `dir`: `name` alone when `dir` is
/// empty, no separator added when `dir` already ends with `/`.
pub open spec fn path_join(dir: Seq<char>, name: Seq<char>) -> Seq<char> {
    if dir.len() == 0 {
        name
    } else if dir.last() == '/' {
        dir + name
    } else {
        dir + "/"@ + name
    }
}

/// The golden evidence file of a HAMR attestation: the one given, else
/// `hamr_contract_golden_evidence.json` in the attestation report's directory.
pub open spec fn spec_hamr_golden_evidence_fp(maybe_fp: Option<Seq<char>>, report_dir: Seq<char>) -> Seq<char> {
    match maybe_fp {
        Some(f) => f,
        None => path_join(report_dir, DEFAULT_HAMR_GOLDEN_EVIDENCE_FILENAME@),
    }
}

/// The golden evidence file of a HAMR attestation whose report lies in
/// `report_dir` (see `spec_hamr_golden_evidence_fp`).
pub fn hamr_golden_evidence_fp(maybe_fp: Option<String>, report_dir: String) -> (fp: String)
    ensures
        fp@ == spec_hamr_golden_evidence_fp(
            match maybe_fp {
                Some(f) => Some(f@),
                None => None,
            },
            report_dir@,
        ),
{
    match maybe_fp {
        Some(f) => f,
        None => {
            let n = report_dir.as_str().unicode_len();
            if n == 0 {
                DEFAULT_HAMR_GOLDEN_EVIDENCE_FILENAME.to_string()
            } else {
                let last = report_dir.as_str().get_char(n - 1);
                let mut fp = report_dir;
                if last != '/' {
                    fp.append("/");
                }
                fp.append(DEFAULT_HAMR_GOLDEN_EVIDENCE_FILENAME);
                fp
            }
        },
    }
}

/// The checks that a HAMR attestation protocol can run.
#[derive(Clone, Copy, Debug, PartialEq, Eq, Structural)]
pub enum HamrCheck {
    /// The contract slices of the attestation report against golden evidence.
    Contracts,
    /// A hash of the Verus executable.
    VerusHash,
    /// A run of Verus on the code.
    VerusRun,
}

/// The contract check runs when asked for, and when no check is asked for.
pub open spec fn hamr_contracts_effective(contracts: bool, verus_hash: bool, verus_run: bool) -> bool {
    contracts || !(contracts || verus_hash || verus_run)
}

/// The checks that run, in order.
pub open spec fn hamr_checks(contracts: bool, verus_hash: bool, verus_run: bool) -> Seq<HamrCheck> {
    (if hamr_contracts_effective(contracts, verus_hash, verus_run) {
        seq![HamrCheck::Contracts]
    } else {
        seq![]
    }) + (if verus_hash {
        seq![HamrCheck::VerusHash]
    } else {
        seq![]
    }) + (if verus_run {
        seq![HamrCheck::VerusRun]
    } else {
        seq![]
    })
}

/// The position of a check in a HAMR protocol: contracts, then the Verus
/// hash, then the Verus run.
pub open spec fn hamr_check_rank(c: HamrCheck) -> int {
    match c {
        HamrCheck::Contracts => 0,
        HamrCheck::VerusHash => 1,
        HamrCheck::VerusRun => 2,
    }
}

/// The checks that run are exactly those asked for, in the order contracts,
/// Verus hash, Verus run; when no check is asked for, the contract check
/// runs alone.
pub proof fn law_hamr_checks_asked_for(contracts: bool, verus_hash: bool, verus_run: bool)
    ensures
        hamr_checks(contracts, verus_hash, verus_run).contains(HamrCheck::VerusHash)
            <==> verus_hash,
        hamr_checks(contracts, verus_hash, verus_run).contains(HamrCheck::VerusRun) <==> verus_run,
        verus_hash || verus_run ==> (hamr_checks(contracts, verus_hash, verus_run).contains(
            HamrCheck::Contracts,
        ) <==> contracts),
        !(contracts || verus_hash || verus_run) ==> hamr_checks(contracts, verus_hash, verus_run)
            == seq![HamrCheck::Contracts],
        forall|i: int, j: int|
            0 <= i < j < hamr_checks(contracts, verus_hash, verus_run).len() ==> hamr_check_rank(
                #[trigger] hamr_checks(contracts, verus_hash, verus_run)[i],
            ) < hamr_check_rank(#[trigger] hamr_checks(contracts, verus_hash, verus_run)[j]),
{
    let checks = hamr_checks(contracts, verus_hash, verus_run);
    let s1: Seq<HamrCheck> = if hamr_contracts_effective(contracts, verus_hash, verus_run) {
        seq![HamrCheck::Contracts]
    } else {
        seq![]
    };
    let s2: Seq<HamrCheck> = if verus_hash {
        seq![HamrCheck::VerusHash]
    } else {
        seq![]
    };
    let s3: Seq<HamrCheck> = if verus_run {
        seq![HamrCheck::VerusRun]
    } else {
        seq![]
    };
    assert(checks == s1 + s2 + s3);
    assert(verus_hash ==> checks[s1.len() as int] == HamrCheck::VerusHash);
    assert(verus_run ==> checks[(s1.len() + s2.len()) as int] == HamrCheck::VerusRun);
    assert(hamr_contracts_effective(contracts, verus_hash, verus_run) ==> checks[0]
        == HamrCheck::Contracts);
    assert(forall|i: int| 0 <= i < checks.len() ==> #[trigger] checks[i] == if i < s1.len() {
        HamrCheck::Contracts
    } else if i < s1.len() + s2.len() {
        HamrCheck::VerusHash
    } else {
        HamrCheck::VerusRun
    });
    if !(contracts || verus_hash || verus_run) {
        assert(checks =~= seq![HamrCheck::Contracts]);
    }
}

/// The name of the file, in the attestation report's directory, that holds
/// the term of a check.
pub open spec fn hamr_check_filename(c: HamrCheck) -> Seq<char> {
    match c {
        HamrCheck::Contracts => "hamr_contracts_only_maestro_term.json"@,
        HamrCheck::VerusHash => "hamr_verus_hash_term.json"@,
        HamrCheck::VerusRun => "hamr_verus_run_term.json"@,
    }
}

/// `t` is the term of the check `c`.
pub open spec fn is_hamr_check_term(c: HamrCheck, t: Term, golden: Seq<char>, report: Seq<char>) -> bool {
    match c {
        HamrCheck::Contracts => t matches Term::asp(a) && is_file_slice_asp(a, golden, report),
        HamrCheck::VerusHash => t matches Term::asp(a) && is_aspc(
            a,
            "hashfile"@,
            "p1"@,
            "cargo_verus_exe_targ"@,
        ) && aspc_args(a) == json_empty_object(),
        HamrCheck::VerusRun => t matches Term::asp(a) && is_aspc(
            a,
            "run_command_cargo_verus"@,
            "p1"@,
            "run_cargo_verus_targ"@,
        ) && aspc_args(a) == json_empty_object(),
    }
}

/// `a` is the signature ASP that ends a HAMR attestation protocol.
pub open spec fn is_hamr_sig_asp(a: ASP) -> bool {
    is_aspc(a, "sig"@, "P0"@, "sig_targid"@) && aspc_args(a) == json_empty_object()
}

/// The terms of the checks, the file names to save them under, and the
/// whole protocol term.
#[derive(Debug)]
pub struct HamrTermGen {
    /// The checks' terms in branching sequence, followed by a signature.
    pub term: Term,
    /// For each check that runs, in order: the file name and the check's term.
    pub outputs: Vec<(String, Term)>,
}

/// The terms that `do_hamr_term_gen` gives: one output per check that runs,
/// and the whole term as their branching sequence followed by the signature.
pub open spec fn is_hamr_term_gen(
    g: HamrTermGen,
    golden: Seq<char>,
    report: Seq<char>,
    contracts: bool,
    verus_hash: bool,
    verus_run: bool,
) -> bool {
    let checks = hamr_checks(contracts, verus_hash, verus_run);
    &&& g.outputs@.len() == checks.len()
    &&& forall|i: int|
        0 <= i < checks.len() ==> #[trigger] g.outputs@[i].0@ == hamr_check_filename(checks[i])
            && is_hamr_check_term(checks[i], g.outputs@[i].1, golden, report)
    &&& g.term matches Term::lseq(body, sig)
    &&& *body == spec_vec_terms_to_bseq(g.outputs@.map_values(|o: (String, Term)| o.1))
    &&& is_hamr_sig_term(*sig)
}

/// `t` is the signature ASP that ends a HAMR attestation protocol.
pub open spec fn is_hamr_sig_term(t: Term) -> bool {
    t matches Term::asp(s) && is_hamr_sig_asp(s)
}

/// Builds the HAMR attestation protocol: the contract check of the report at
/// `hamr_report_filepath` against the golden evidence at `golden_evidence_fp`
/// (run when asked for, or when no check is asked for), the Verus hash check
/// and the Verus run check, in that order, then a signature.
pub fn do_hamr_term_gen(
    golden_evidence_fp: &str,
    hamr_report_filepath: &str,
    hamr_contracts_bool: bool,
    verus_hash_bool: bool,
    verus_run_bool: bool,
) -> (g: HamrTermGen)
    ensures
        is_hamr_term_gen(
            g,
            golden_evidence_fp@,
            hamr_report_filepath@,
            hamr_contracts_bool,
            verus_hash_bool,
            verus_run_bool,
        ),
{
    let hamr_contracts = if !(hamr_contracts_bool || verus_hash_bool || verus_run_bool) {
        true
    } else {
        hamr_contracts_bool
    };
    let ghost checks = hamr_checks(hamr_contracts_bool, verus_hash_bool, verus_run_bool);
    let mut v: Vec<Term> = Vec::new();
    let mut outputs: Vec<(String, Term)> = Vec::new();
    let ghost mut done: Seq<HamrCheck> = seq![];
    if hamr_contracts {
        let asp = File_Slice_to_ASP(golden_evidence_fp, hamr_report_filepath);
        let term = Term::asp(asp);
        outputs.push(("hamr_contracts_only_maestro_term.json".to_string(), term.clone()));
        v.push(term);
        proof {
            done = done.push(HamrCheck::Contracts);
        }
    }
    if verus_hash_bool {
        let term = Term::asp(make_aspc("hashfile", JsonValue::empty_object(), "p1", "cargo_verus_exe_targ"));
        outputs.push(("hamr_verus_hash_term.json".to_string(), term.clone()));
        v.push(term);
        proof {
            done = done.push(HamrCheck::VerusHash);
        }
    }
    if verus_run_bool {
        let term = Term::asp(
            make_aspc("run_command_cargo_verus", JsonValue::empty_object(), "p1", "run_cargo_verus_targ"),
        );
        outputs.push(("hamr_verus_run_term.json".to_string(), term.clone()));
        v.push(term);
        proof {
            done = done.push(HamrCheck::VerusRun);
        }
    }
    proof {
        assert(done =~= checks);
        assert(v@ =~= outputs@.map_values(|o: (String, Term)| o.1));
    }
    let contracts_hash_run_term = vec_terms_to_bseq(v);
    let sigasp = make_aspc("sig", JsonValue::empty_object(), "P0", "sig_targid");
    let sigterm = Term::lseq(Box::new(contracts_hash_run_term), Box::new(Term::asp(sigasp)));
    HamrTermGen { term: sigterm, outputs }
}

/// Every HAMR attestation protocol runs at least one check and ends with a signature.
pub proof fn law_hamr_term_signed_and_nonempty(
    g: HamrTermGen,
    golden: Seq<char>,
    report: Seq<char>,
    contracts: bool,
    verus_hash: bool,
    verus_run: bool,
)
    requires
        is_hamr_term_gen(g, golden, report, contracts, verus_hash, verus_run),
    ensures
        g.outputs@.len() >= 1,
        g.term matches Term::lseq(_, sig) && is_hamr_sig_term(*sig),
{
}

} // verus!
