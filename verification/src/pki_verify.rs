//! Verify a certificate using one or more CA certificates.

use vstd::prelude::*;
use vstd::string::*;

use crate::Arity;
use crate::CmdOutV;
use crate::CmdOutcome;
use crate::Command;
use crate::OpKind;
use crate::Opt;
use crate::parse::ParsedOptions;
use crate::parse::ParsedV;
use crate::parse::spec_present;
use crate::parse::spec_values;
use crate::report::push_in_seg;
use crate::report::spec_in_seg;
use crate::text::bool_line;
use crate::text::push_multi_lines;
use crate::text::required_line;
use crate::text::spec_bool_str;
use crate::text::spec_multi_lines;
use crate::text::spec_required_line;

verus! {

/// What the verify command answers: at least one CA certificate is required;
/// the certificate to verify comes from `--in` or standard input; the online
/// flag is reported.
pub open spec fn spec_verify(m: ParsedV) -> CmdOutV {
    let cacerts = spec_values(m, "c"@);
    let head = spec_multi_lines("cacert"@, cacerts);
    if cacerts.len() == 0 {
        CmdOutV { lines: head + seq![spec_required_line("cacert"@)], status: 2 }
    } else {
        CmdOutV {
            lines: head + spec_multi_lines("crl"@, spec_values(m, "l"@)) + spec_in_seg(
                m,
                "i"@,
                "in"@,
            ) + seq!["online: "@ + spec_bool_str(spec_present(m, "o"@)), "verify()"@],
            status: 0,
        }
    }
}

/// Verify a certificate signature.
pub fn pki_verify(m: &ParsedOptions) -> (r: CmdOutcome)
    ensures
        r@ == spec_verify(m@),
{
    let mut lines: Vec<String> = Vec::new();
    let cacerts = m.opt_strs("c");
    push_multi_lines(&mut lines, "cacert", &cacerts);
    let ghost head = spec_multi_lines("cacert"@, spec_values(m@, "c"@));
    proof {
        assert(lines.deep_view() =~= head);
    }
    if cacerts.len() == 0 {
        lines.push(required_line("cacert"));
        proof {
            assert(lines.deep_view() =~= spec_verify(m@).lines);
        }
        return CmdOutcome { lines, status: 2 };
    }
    let crls = m.opt_strs("l");
    push_multi_lines(&mut lines, "crl", &crls);
    let ghost a1 = head + spec_multi_lines("crl"@, spec_values(m@, "l"@));
    proof {
        assert(lines.deep_view() =~= a1);
    }
    push_in_seg(&mut lines, m, "i", "in");
    let ghost a2 = a1 + spec_in_seg(m@, "i"@, "in"@);
    proof {
        assert(lines.deep_view() =~= a2);
    }
    lines.push(bool_line("online: ", m.opt_present("o")));
    lines.push("verify()".to_owned());
    proof {
        assert(lines.deep_view() =~= a2.push(
            "online: "@ + spec_bool_str(spec_present(m@, "o"@)),
        ).push("verify()"@));
        assert(lines.deep_view() =~= spec_verify(m@).lines);
    }
    CmdOutcome { lines, status: 0 }
}

/// The descriptor of the verify command.
pub fn command() -> (r: Command)
    ensures
        r@.op == OpKind::Verify,
        r@.short == 'v',
        r@.long == "verify"@,
{
    let mut brief: Vec<String> = Vec::new();
    brief.push("[--in file] [--cacert file]+ [--crl file]".to_owned());
    let mut options: Vec<Opt> = Vec::new();
    options.push(
        Opt {
            long: "help".to_owned(),
            short: 'h',
            arity: Arity::Flag,
            descr: "show usage information".to_owned(),
        },
    );
    options.push(
        Opt {
            long: "in".to_owned(),
            short: 'i',
            arity: Arity::Single,
            descr: "X.509 certificate to verify, default: stdin".to_owned(),
        },
    );
    options.push(
        Opt {
            long: "cacert".to_owned(),
            short: 'c',
            arity: Arity::Multiple,
            descr: "CA certificate(s) for trustchain verification".to_owned(),
        },
    );
    options.push(
        Opt {
            long: "crl".to_owned(),
            short: 'l',
            arity: Arity::Multiple,
            descr: "CRL(s) for trustchain verification".to_owned(),
        },
    );
    options.push(
        Opt {
            long: "online".to_owned(),
            short: 'o',
            arity: Arity::Flag,
            descr: "enable online CRL/OCSP revocation checking".to_owned(),
        },
    );
    Command::new(
        OpKind::Verify,
        'v',
        "verify".to_owned(),
        "verify a certificate using one or more CA certificates".to_owned(),
        brief,
        options,
    )
}

} // verus!
