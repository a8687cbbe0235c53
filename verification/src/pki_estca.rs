//! Get CA certificates from an EST server (RFC 7030).

use vstd::prelude::*;
use vstd::string::*;

use crate::Arity;
use crate::CmdOutV;
use crate::CmdOutcome;
use crate::Command;
use crate::OpKind;
use crate::Opt;
use crate::parse::ParsedOptions;
use crate::parse::ParsedV;
use crate::parse::spec_opt_str;
use crate::parse::spec_present;
use crate::parse::spec_values;
use crate::report::push_opt_seg;
use crate::report::spec_opt_seg;
use crate::text::bool_line;
use crate::text::opt_line;
use crate::text::push_multi_lines;
use crate::text::required_line;
use crate::text::spec_bool_str;
use crate::text::spec_multi_lines;
use crate::text::spec_opt_line;
use crate::text::spec_required_line;

verus! {

/// What the estca command answers: the server URL and at least one TLS CA
/// certificate are required; the rest is reported as given.
pub open spec fn spec_estca(m: ParsedV) -> CmdOutV {
    match spec_opt_str(m, "u"@) {
        None => CmdOutV { lines: seq![spec_required_line("url"@)], status: 2 },
        Some(u) => {
            let cacerts = spec_values(m, "C"@);
            let head = seq![spec_opt_line("url"@, u)] + spec_multi_lines("cacert"@, cacerts);
            if cacerts.len() == 0 {
                CmdOutV { lines: head + seq![spec_required_line("cacert"@)], status: 2 }
            } else {
                CmdOutV {
                    lines: head + spec_opt_seg(m, "l"@, "label"@) + spec_opt_seg(
                        m,
                        "c"@,
                        "caout"@,
                    ) + spec_opt_seg(m, "f"@, "outform"@) + seq![
                        "force:  "@ + spec_bool_str(spec_present(m, "F"@)),
                        "estca()"@,
                    ],
                    status: 0,
                }
            }
        },
    }
}

/// Get CA certificates from an EST server.
pub fn pki_estca(m: &ParsedOptions) -> (r: CmdOutcome)
    ensures
        r@ == spec_estca(m@),
{
    let mut lines: Vec<String> = Vec::new();
    let url = match m.opt_str("u") {
        Some(u) => u,
        None => {
            lines.push(required_line("url"));
            proof {
                assert(lines.deep_view() =~= spec_estca(m@).lines);
            }
            return CmdOutcome { lines, status: 2 };
        },
    };
    lines.push(opt_line("url", url.as_str()));
    let cacerts = m.opt_strs("C");
    push_multi_lines(&mut lines, "cacert", &cacerts);
    let ghost head = seq![spec_opt_line("url"@, url@)] + spec_multi_lines(
        "cacert"@,
        spec_values(m@, "C"@),
    );
    proof {
        assert(lines.deep_view() =~= head);
    }
    if cacerts.len() == 0 {
        lines.push(required_line("cacert"));
        proof {
            assert(lines.deep_view() =~= spec_estca(m@).lines);
        }
        return CmdOutcome { lines, status: 2 };
    }
    push_opt_seg(&mut lines, m, "l", "label");
    let ghost a1 = head + spec_opt_seg(m@, "l"@, "label"@);
    proof {
        assert(lines.deep_view() =~= a1);
    }
    push_opt_seg(&mut lines, m, "c", "caout");
    let ghost a2 = a1 + spec_opt_seg(m@, "c"@, "caout"@);
    proof {
        assert(lines.deep_view() =~= a2);
    }
    push_opt_seg(&mut lines, m, "f", "outform");
    let ghost a3 = a2 + spec_opt_seg(m@, "f"@, "outform"@);
    proof {
        assert(lines.deep_view() =~= a3);
    }
    lines.push(bool_line("force:  ", m.opt_present("F")));
    lines.push("estca()".to_owned());
    proof {
        assert(lines.deep_view() =~= a3.push(
            "force:  "@ + spec_bool_str(spec_present(m@, "F"@)),
        ).push("estca()"@));
        assert(lines.deep_view() =~= spec_estca(m@).lines);
    }
    CmdOutcome { lines, status: 0 }
}

/// The descriptor of the estca command.
pub fn command() -> (r: Command)
    ensures
        r@.op == OpKind::Estca,
        r@.short == 'e',
        r@.long == "estca"@,
{
    let mut brief: Vec<String> = Vec::new();
    brief.push("--url url [--label label] --cacert file+ [--caout file]".to_owned());
    brief.push("[--outform der|pem] [--force]".to_owned());
    let mut options: Vec<Opt> = Vec::new();
    options.push(
        Opt {
            long: "help".to_owned(),
            short: 'h',
            arity: Arity::Flag,
            descr: "show usage information".to_owned(),
        },
    );
    options.push(
        Opt {
            long: "url".to_owned(),
            short: 'u',
            arity: Arity::Single,
            descr: "URL of the EST server".to_owned(),
        },
    );
    options.push(
        Opt {
            long: "label".to_owned(),
            short: 'l',
            arity: Arity::Single,
            descr: "label in the EST server path".to_owned(),
        },
    );
    options.push(
        Opt {
            long: "cacert".to_owned(),
            short: 'C',
            arity: Arity::Multiple,
            descr: "TLS CA certificate(s)".to_owned(),
        },
    );
    options.push(
        Opt {
            long: "caout".to_owned(),
            short: 'c',
            arity: Arity::Single,
            descr: "CA certificate [template]".to_owned(),
        },
    );
    options.push(
        Opt {
            long: "outform".to_owned(),
            short: 'f',
            arity: Arity::Single,
            descr: "encoding of stored certificates, default: der".to_owned(),
        },
    );
    options.push(
        Opt {
            long: "force".to_owned(),
            short: 'F',
            arity: Arity::Flag,
            descr: "force overwrite of existing files".to_owned(),
        },
    );
    Command::new(
        OpKind::Estca,
        'e',
        "estca".to_owned(),
        "get CA certificate[s] from an EST server".to_owned(),
        brief,
        options,
    )
}

} // verus!
