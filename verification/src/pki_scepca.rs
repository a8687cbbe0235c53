//! Get CA (and RA) certificates from a SCEP server (RFC 8894).

use vstd::prelude::*;
use vstd::string::*;

use crate::Arity;
use crate::CmdOutV;
use crate::CmdOutcome;
use crate::Command;
use crate::OpKind;
use crate::Opt;
use crate::parse::ParsedOptions;
use crate::parse::ParsedV;
use crate::parse::spec_opt_str;
use crate::parse::spec_present;
use crate::report::push_opt_seg;
use crate::report::spec_opt_seg;
use crate::text::bool_line;
use crate::text::opt_line;
use crate::text::required_line;
use crate::text::spec_bool_str;
use crate::text::spec_opt_line;
use crate::text::spec_required_line;

verus! {

/// What the scepca command answers: the server URL is required; the output
/// templates and encoding are reported as given.
pub open spec fn spec_scepca(m: ParsedV) -> CmdOutV {
    match spec_opt_str(m, "u"@) {
        None => CmdOutV { lines: seq![spec_required_line("url"@)], status: 2 },
        Some(u) => CmdOutV {
            lines: seq![spec_opt_line("url"@, u)] + spec_opt_seg(m, "c"@, "caout"@) + spec_opt_seg(
                m,
                "r"@,
                "raout"@,
            ) + spec_opt_seg(m, "f"@, "outform"@) + seq![
                "force:  "@ + spec_bool_str(spec_present(m, "F"@)),
                "scepca()"@,
            ],
            status: 0,
        },
    }
}

/// Get CA (and RA) certificates from a SCEP server.
pub fn pki_scepca(m: &ParsedOptions) -> (r: CmdOutcome)
    ensures
        r@ == spec_scepca(m@),
{
    let mut lines: Vec<String> = Vec::new();
    let url = match m.opt_str("u") {
        Some(u) => u,
        None => {
            lines.push(required_line("url"));
            proof {
                assert(lines.deep_view() =~= spec_scepca(m@).lines);
            }
            return CmdOutcome { lines, status: 2 };
        },
    };
    lines.push(opt_line("url", url.as_str()));
    let ghost a1 = seq![spec_opt_line("url"@, url@)];
    proof {
        assert(lines.deep_view() =~= a1);
    }
    push_opt_seg(&mut lines, m, "c", "caout");
    let ghost a2 = a1 + spec_opt_seg(m@, "c"@, "caout"@);
    proof {
        assert(lines.deep_view() =~= a2);
    }
    push_opt_seg(&mut lines, m, "r", "raout");
    let ghost a3 = a2 + spec_opt_seg(m@, "r"@, "raout"@);
    proof {
        assert(lines.deep_view() =~= a3);
    }
    push_opt_seg(&mut lines, m, "f", "outform");
    let ghost a4 = a3 + spec_opt_seg(m@, "f"@, "outform"@);
    proof {
        assert(lines.deep_view() =~= a4);
    }
    lines.push(bool_line("force:  ", m.opt_present("F")));
    lines.push("scepca()".to_owned());
    proof {
        assert(lines.deep_view() =~= a4.push(
            "force:  "@ + spec_bool_str(spec_present(m@, "F"@)),
        ).push("scepca()"@));
        assert(lines.deep_view() =~= spec_scepca(m@).lines);
    }
    CmdOutcome { lines, status: 0 }
}

/// The descriptor of the scepca command.
pub fn command() -> (r: Command)
    ensures
        r@.op == OpKind::Scepca,
        r@.short == 'C',
        r@.long == "scepca"@,
{
    let mut brief: Vec<String> = Vec::new();
    brief.push("--url url [--caout file] [--raout file] [--outform der|pem] [--force]".to_owned());
    let mut options: Vec<Opt> = Vec::new();
    options.push(
        Opt {
            long: "help".to_owned(),
            short: 'h',
            arity: Arity::Flag,
            descr: "show usage information".to_owned(),
        },
    );
    options.push(
        Opt {
            long: "url".to_owned(),
            short: 'u',
            arity: Arity::Single,
            descr: "URL of the SCEP server".to_owned(),
        },
    );
    options.push(
        Opt {
            long: "caout".to_owned(),
            short: 'c',
            arity: Arity::Single,
            descr: "CA certificate [template]".to_owned(),
        },
    );
    options.push(
        Opt {
            long: "raout".to_owned(),
            short: 'r',
            arity: Arity::Single,
            descr: "RA certificate [template]".to_owned(),
        },
    );
    options.push(
        Opt {
            long: "outform".to_owned(),
            short: 'f',
            arity: Arity::Single,
            descr: "encoding of stored certificates, default: der".to_owned(),
        },
    );
    options.push(
        Opt {
            long: "force".to_owned(),
            short: 'F',
            arity: Arity::Flag,
            descr: "force overwrite of existing files".to_owned(),
        },
    );
    Command::new(
        OpKind::Scepca,
        'C',
        "scepca".to_owned(),
        "get CA [and RA] certificate[s] from a SCEP server".to_owned(),
        brief,
        options,
    )
}

} // verus!
