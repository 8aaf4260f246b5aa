//! Options of the standalone test client: which protocol term to run and
//! which attestation and appraisal servers to talk to.
use vstd::prelude::*;

verus! {

/// The error that `pico_args` reports for arguments it cannot parse.
#[verifier::external_type_specification]
#[verifier::external_body]
pub struct ExPicoArgsError(pico_args::Error);

/// The usage text of the test client.
pub const HELP: &'static str = "\
App

USAGE:
  app [OPTIONS]

FLAGS:
  -h, --help            Prints help information

OPTIONS:
  --termfile f        f = JSON filepath with Copland term (i.e. 'myterm.json').  Takes precedence over --term option.
  --term s            s = ['cert' | 'filehash' | 'bg' | 'parmut'] (default: 'cert')
  --attserver uuid    uuid = 'host:port' of attestation server (default: 'localhost:5000')
  --appserver uuid    uuid = 'host:port' of attestation server (default: 'localhost:5003')

";

/// The options of the test client, each optional.
#[derive(Clone, Debug)]
pub struct ClientArgsOpt {
    pub opt_term_name: Option<String>,
    pub opt_term_filename: Option<String>,
    pub opt_att_server_uuid: Option<String>,
    pub opt_app_server_uuid: Option<String>,
}

/// The options that the argument parser returned; parsing must have succeeded.
pub fn get_client_args(parsed: Result<ClientArgsOpt, pico_args::Error>) -> (args: ClientArgsOpt)
    requires
        parsed is Ok,
    ensures
        parsed == Ok::<ClientArgsOpt, pico_args::Error>(args),
{
    match parsed {
        Ok(opt_args) => opt_args,
        Err(_) => vstd::pervasive::unreached(),
    }
}

/// The term file of a predefined demo phrase, if `name` is one: `cert`,
/// `filehash`, `bg` or `parmut`, each with `.json` appended.
pub open spec fn demo_term_file(name: Seq<char>) -> Option<Seq<char>> {
    if name == "cert"@ {
        Some("cert.json"@)
    } else if name == "filehash"@ {
        Some("filehash.json"@)
    } else if name == "bg"@ {
        Some("bg.json"@)
    } else if name == "parmut"@ {
        Some("parmut.json"@)
    } else {
        None
    }
}

/// The predefined demo phrases are exactly `cert`, `filehash`, `bg` and
/// `parmut`, and the file of each is its name followed by `.json`.
pub proof fn law_demo_phrases(name: Seq<char>)
    ensures
        demo_term_file(name) is Some <==> (name == "cert"@ || name == "filehash"@ || name
            == "bg"@ || name == "parmut"@),
        demo_term_file(name) is Some ==> demo_term_file(name)->0 == name + ".json"@,
{
    reveal_strlit("cert");
    reveal_strlit("filehash");
    reveal_strlit("bg");
    reveal_strlit("parmut");
    reveal_strlit(".json");
    reveal_strlit("cert.json");
    reveal_strlit("filehash.json");
    reveal_strlit("bg.json");
    reveal_strlit("parmut.json");
    if name == "cert"@ {
        assert("cert.json"@ =~= "cert"@ + ".json"@);
    } else if name == "filehash"@ {
        assert("filehash.json"@ =~= "filehash"@ + ".json"@);
    } else if name == "bg"@ {
        assert("bg.json"@ =~= "bg"@ + ".json"@);
    } else if name == "parmut"@ {
        assert("parmut.json"@ =~= "parmut"@ + ".json"@);
    }
}

/// Without a term file, the options are valid exactly when no phrase is
/// named or a demo phrase is, and then select `<phrase>.json` (`cert.json`
/// when none is named).
pub proof fn law_term_options(args: ClientArgsOpt)
    requires
        args.opt_term_filename is None,
    ensures
        term_options_valid(args) <==> match args.opt_term_name {
            Some(tn) => tn@ == "cert"@ || tn@ == "filehash"@ || tn@ == "bg"@ || tn@ == "parmut"@,
            None => true,
        },
        term_options_valid(args) ==> spec_term_filepath(args) == match args.opt_term_name {
            Some(tn) => tn@ + ".json"@,
            None => "cert.json"@,
        },
{
    if let Some(tn) = args.opt_term_name {
        law_demo_phrases(tn@);
    }
}

/// The options name a term the test client can find: a term file, a
/// predefined phrase, or nothing (for the default).
pub open spec fn term_options_valid(args: ClientArgsOpt) -> bool {
    args.opt_term_filename is None ==> match args.opt_term_name {
        Some(tn) => demo_term_file(tn@) is Some,
        None => true,
    }
}

/// The term file that the options select: the term file when given; else
/// the file of the named demo phrase; else `cert.json`.
pub open spec fn spec_term_filepath(args: ClientArgsOpt) -> Seq<char> {
    match args.opt_term_filename {
        Some(s) => s@,
        None => match args.opt_term_name {
            Some(tn) => demo_term_file(tn@)->0,
            None => "cert.json"@,
        },
    }
}

/// Whether `s` holds the text `lit`.
fn str_is(s: &String, lit: &str) -> (res: bool)
    ensures
        res == (s@ == lit@),
{
    *s == lit.to_string()
}

/// Whether the options name a term the test client can find (see `term_options_valid`).
pub fn term_options_are_valid(argsin: &ClientArgsOpt) -> (valid: bool)
    ensures
        valid == term_options_valid(*argsin),
{
    match (&argsin.opt_term_filename, &argsin.opt_term_name) {
        (None, Some(tn)) => {
            str_is(tn, "cert") || str_is(tn, "filehash") || str_is(tn, "bg") || str_is(tn, "parmut")
        },
        _ => true,
    }
}

/// The term file that the options select (see `spec_term_filepath`).
pub fn get_term_filepath(argsin: ClientArgsOpt) -> (fp: String)
    requires
        term_options_valid(argsin),
    ensures
        fp@ == spec_term_filepath(argsin),
{
    let ClientArgsOpt { opt_term_name: maybe_term, opt_term_filename: maybe_filename, .. } = argsin;
    match maybe_filename {
        Some(s) => s,
        None => match maybe_term {
            Some(tn) => {
                if str_is(&tn, "cert") {
                    "cert.json".to_string()
                } else if str_is(&tn, "filehash") {
                    "filehash.json".to_string()
                } else if str_is(&tn, "bg") {
                    "bg.json".to_string()
                } else {
                    "parmut.json".to_string()
                }
            },
            None => "cert.json".to_string(),
        },
    }
}

/// The attestation server of the options: the one given, else `localhost:5000`.
pub fn get_att_uuid(argsin: ClientArgsOpt) -> (uuid: String)
    ensures
        uuid@ == match argsin.opt_att_server_uuid {
            Some(s) => s@,
            None => "localhost:5000"@,
        },
{
    match argsin.opt_att_server_uuid {
        Some(s) => s,
        None => "localhost:5000".to_string(),
    }
}

/// The appraisal server of the options: the one given, else `localhost:5003`.
pub fn get_app_uuid(argsin: ClientArgsOpt) -> (uuid: String)
    ensures
        uuid@ == match argsin.opt_app_server_uuid {
            Some(s) => s@,
            None => "localhost:5003"@,
        },
{
    match argsin.opt_app_server_uuid {
        Some(s) => s,
        None => "localhost:5003".to_string(),
    }
}

} // verus!
