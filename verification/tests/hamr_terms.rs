use rust_am_clients::am_protocol::{Split, Term, ASP, ASP_PARAMS};
use rust_am_clients::copland::SP;
use rust_am_clients::hamr::{
    add_asp, add_term_bseq, do_hamr_term_gen, hamr_golden_evidence_fp, vec_terms_to_bseq, File_Slice_to_ASP, ASP_Vec_to_Term,
};
use rust_am_clients::json_value::{JsonObject, JsonValue};

fn all() -> Split {
    Split { split1: SP::ALL, split2: SP::ALL }
}

fn bseq(t1: Term, t2: Term) -> Term {
    Term::bseq(all(), Box::new(t1), Box::new(t2))
}

fn aspc(id: &str) -> ASP {
    ASP::ASPC(ASP_PARAMS {
        ASP_ID: id.to_string(),
        ASP_ARGS: JsonValue::Null,
        ASP_PLC: "P0".to_string(),
        ASP_TARG_ID: format!("{id}_targ"),
    })
}

fn leaves(t: &Term, out: &mut Vec<ASP>) {
    match t {
        Term::asp(a) => out.push(a.clone()),
        Term::att(_, t1) => leaves(t1, out),
        Term::lseq(t1, t2) | Term::bseq(_, t1, t2) | Term::bpar(_, t1, t2) => {
            leaves(t1, out);
            leaves(t2, out);
        }
    }
}

fn string_member(o: &JsonObject, key: &str) -> Option<String> {
    match o {
        JsonObject::Empty => None,
        JsonObject::Member(k, v, rest) => {
            if k == key {
                match &**v {
                    JsonValue::Str(s) => Some(s.clone()),
                    _ => None,
                }
            } else {
                string_member(rest, key)
            }
        }
    }
}

#[test]
fn add_asp_puts_asp_second() {
    let t = add_asp(ASP::SIG, Term::asp(ASP::HSH));
    assert_eq!(t, bseq(Term::asp(ASP::HSH), Term::asp(ASP::SIG)));
}

#[test]
fn add_term_bseq_puts_new_term_second() {
    let t = add_term_bseq(Term::asp(ASP::CPY), Term::asp(ASP::NULL));
    assert_eq!(t, bseq(Term::asp(ASP::NULL), Term::asp(ASP::CPY)));
}

#[test]
fn asp_vec_empty_is_null() {
    assert_eq!(ASP_Vec_to_Term(vec![]), Term::asp(ASP::NULL));
    assert_eq!(vec_terms_to_bseq(vec![]), Term::asp(ASP::NULL));
}

#[test]
fn asp_vec_single() {
    assert_eq!(ASP_Vec_to_Term(vec![ASP::SIG]), Term::asp(ASP::SIG));
    assert_eq!(vec_terms_to_bseq(vec![Term::asp(ASP::HSH)]), Term::asp(ASP::HSH));
}

#[test]
fn asp_vec_three_nests_to_the_left() {
    let t = ASP_Vec_to_Term(vec![aspc("a"), aspc("b"), aspc("c")]);
    let expected = bseq(bseq(Term::asp(aspc("c")), Term::asp(aspc("b"))), Term::asp(aspc("a")));
    assert_eq!(t, expected);
}

#[test]
fn asp_vec_runs_asps_reversed() {
    let asps = vec![aspc("a"), aspc("b"), aspc("c"), aspc("d")];
    let t = ASP_Vec_to_Term(asps.clone());
    let mut out = Vec::new();
    leaves(&t, &mut out);
    let mut rev = asps;
    rev.reverse();
    assert_eq!(out, rev);
}

#[test]
fn asp_vec_equals_bseq_of_asp_terms() {
    let asps = vec![aspc("a"), ASP::SIG, aspc("b")];
    let terms: Vec<Term> = asps.iter().map(|a| Term::asp(a.clone())).collect();
    assert_eq!(ASP_Vec_to_Term(asps), vec_terms_to_bseq(terms));
}

#[test]
fn file_slice_asp_fields() {
    let a = File_Slice_to_ASP("/g/golden.json", "/r/report.json");
    match a {
        ASP::ASPC(p) => {
            assert_eq!(p.ASP_ID, "hamr_readfile_range_many");
            assert_eq!(p.ASP_PLC, "P0");
            assert_eq!(p.ASP_TARG_ID, "hamr_readfile_range_many_targ");
            match &p.ASP_ARGS {
                JsonValue::Object(o) => {
                    assert_eq!(string_member(o, "env_var_golden").as_deref(), Some(""));
                    assert_eq!(string_member(o, "filepath_golden").as_deref(), Some("/g/golden.json"));
                    assert_eq!(string_member(o, "report_filepath").as_deref(), Some("/r/report.json"));
                    assert_eq!(
                        string_member(o, "attestation_report_filepath").as_deref(),
                        Some("/r/report.json")
                    );
                }
                _ => panic!("arguments are not an object"),
            }
        }
        _ => panic!("not an ASP invocation"),
    }
}

fn sig_asp() -> ASP {
    ASP::ASPC(ASP_PARAMS {
        ASP_ID: "sig".to_string(),
        ASP_ARGS: JsonValue::Object(JsonObject::Empty),
        ASP_PLC: "P0".to_string(),
        ASP_TARG_ID: "sig_targid".to_string(),
    })
}

#[test]
fn hamr_default_is_contracts_only() {
    let g = do_hamr_term_gen("/g.json", "/r.json", false, false, false);
    assert_eq!(g.outputs.len(), 1);
    assert_eq!(g.outputs[0].0, "hamr_contracts_only_maestro_term.json");
    let slice = Term::asp(File_Slice_to_ASP("/g.json", "/r.json"));
    assert_eq!(g.outputs[0].1, slice);
    assert_eq!(g.term, Term::lseq(Box::new(slice), Box::new(Term::asp(sig_asp()))));
}

#[test]
fn hamr_hash_only_skips_contracts() {
    let g = do_hamr_term_gen("/g.json", "/r.json", false, true, false);
    assert_eq!(g.outputs.len(), 1);
    assert_eq!(g.outputs[0].0, "hamr_verus_hash_term.json");
    match &g.outputs[0].1 {
        Term::asp(ASP::ASPC(p)) => {
            assert_eq!(p.ASP_ID, "hashfile");
            assert_eq!(p.ASP_PLC, "p1");
            assert_eq!(p.ASP_TARG_ID, "cargo_verus_exe_targ");
            assert_eq!(p.ASP_ARGS, JsonValue::Object(JsonObject::Empty));
        }
        _ => panic!("unexpected term"),
    }
}

#[test]
fn hamr_all_checks_in_order_and_signed() {
    let g = do_hamr_term_gen("/g.json", "/r.json", true, true, true);
    let names: Vec<&str> = g.outputs.iter().map(|o| o.0.as_str()).collect();
    assert_eq!(
        names,
        vec![
            "hamr_contracts_only_maestro_term.json",
            "hamr_verus_hash_term.json",
            "hamr_verus_run_term.json"
        ]
    );
    let parts: Vec<Term> = g.outputs.iter().map(|o| o.1.clone()).collect();
    let body = vec_terms_to_bseq(parts);
    assert_eq!(g.term, Term::lseq(Box::new(body), Box::new(Term::asp(sig_asp()))));
    match &g.outputs[2].1 {
        Term::asp(ASP::ASPC(p)) => {
            assert_eq!(p.ASP_ID, "run_command_cargo_verus");
            assert_eq!(p.ASP_TARG_ID, "run_cargo_verus_targ");
        }
        _ => panic!("unexpected term"),
    }
}

#[test]
fn golden_evidence_default_in_report_directory() {
    assert_eq!(hamr_golden_evidence_fp(Some("/g.json".to_string()), "/r".to_string()), "/g.json");
    assert_eq!(
        hamr_golden_evidence_fp(None, "/r/dir".to_string()),
        "/r/dir/hamr_contract_golden_evidence.json"
    );
    assert_eq!(hamr_golden_evidence_fp(None, "/".to_string()), "/hamr_contract_golden_evidence.json");
    assert_eq!(hamr_golden_evidence_fp(None, "".to_string()), "hamr_contract_golden_evidence.json");
    for dir in ["/r/dir", "/", "", "rel/d/"] {
        let expected = std::path::Path::new(dir).join("hamr_contract_golden_evidence.json");
        assert_eq!(hamr_golden_evidence_fp(None, dir.to_string()), expected.to_str().unwrap());
    }
}
