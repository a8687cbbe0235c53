//! Issue an attribute certificate.

use vstd::prelude::*;
use vstd::string::*;

use crate::Arity;
use crate::CmdOutV;
use crate::CmdOutcome;
use crate::Command;
use crate::OpKind;
use crate::Opt;
use crate::parse::ParsedOptions;
use crate::parse::ParsedV;
use crate::parse::spec_opt_str;
use crate::report::opt_str_or_empty;
use crate::report::push_in_seg;
use crate::report::push_multi_seg;
use crate::report::push_opt_seg;
use crate::report::spec_in_seg;
use crate::report::spec_multi_seg;
use crate::report::spec_opt_seg;
use crate::report::spec_or_empty;
use crate::text::both_set_line;
use crate::text::either_required_line;
use crate::text::opt_line;
use crate::text::required_line;
use crate::text::spec_both_set_line;
use crate::text::spec_either_required_line;
use crate::text::spec_opt_line;
use crate::text::spec_required_line;

verus! {

/// What the acert command answers: the issuer certificate is required, and
/// exactly one of the issuer key file and the issuer key handle must be
/// given; the rest is reported as given.
pub open spec fn spec_acert(m: ParsedV) -> CmdOutV {
    match spec_opt_str(m, "c"@) {
        None => CmdOutV { lines: seq![spec_required_line("issuercert"@)], status: 2 },
        Some(cert) => {
            let issuerkey = spec_or_empty(m, "k"@);
            let issuerkeyid = spec_or_empty(m, "x"@);
            let head = seq![
                spec_opt_line("issuercert"@, cert),
                spec_opt_line("issuerkey"@, issuerkey),
                spec_opt_line("issuerkeyid"@, issuerkeyid),
            ];
            if issuerkey.len() == 0 && issuerkeyid.len() == 0 {
                CmdOutV {
                    lines: head + seq![spec_either_required_line("issuerkey"@, "issuerkeyid"@)],
                    status: 2,
                }
            } else if issuerkey.len() > 0 && issuerkeyid.len() > 0 {
                CmdOutV {
                    lines: head + seq![spec_both_set_line("issuerkey"@, "issuerkeyid"@)],
                    status: 2,
                }
            } else {
                CmdOutV {
                    lines: head + spec_in_seg(m, "i"@, "in"@) + spec_multi_seg(m, "m"@, "group"@)
                        + spec_opt_seg(m, "s"@, "serial"@) + spec_opt_seg(m, "l"@, "lifetime"@)
                        + spec_opt_seg(m, "F"@, "not-before"@) + spec_opt_seg(m, "T"@, "not-after"@)
                        + spec_opt_seg(m, "D"@, "dateform"@) + spec_opt_seg(m, "g"@, "digest"@)
                        + spec_opt_seg(m, "R"@, "rsa-padding"@) + spec_opt_seg(m, "f"@, "outform"@)
                        + seq!["acert()"@],
                    status: 0,
                }
            }
        },
    }
}

/// Issue an attribute certificate.
pub fn pki_acert(m: &ParsedOptions) -> (r: CmdOutcome)
    ensures
        r@ == spec_acert(m@),
{
    let mut lines: Vec<String> = Vec::new();
    let issuercert = match m.opt_str("c") {
        Some(v) => v,
        None => {
            lines.push(required_line("issuercert"));
            proof {
                assert(lines.deep_view() =~= spec_acert(m@).lines);
            }
            return CmdOutcome { lines, status: 2 };
        },
    };
    lines.push(opt_line("issuercert", issuercert.as_str()));
    let issuerkey = opt_str_or_empty(m, "k");
    lines.push(opt_line("issuerkey", issuerkey.as_str()));
    let issuerkeyid = opt_str_or_empty(m, "x");
    lines.push(opt_line("issuerkeyid", issuerkeyid.as_str()));
    let ghost head = seq![
        spec_opt_line("issuercert"@, issuercert@),
        spec_opt_line("issuerkey"@, spec_or_empty(m@, "k"@)),
        spec_opt_line("issuerkeyid"@, spec_or_empty(m@, "x"@)),
    ];
    proof {
        assert(lines.deep_view() =~= head);
    }
    if issuerkey.as_str().is_empty() && issuerkeyid.as_str().is_empty() {
        lines.push(either_required_line("issuerkey", "issuerkeyid"));
        proof {
            assert(lines.deep_view() =~= spec_acert(m@).lines);
        }
        return CmdOutcome { lines, status: 2 };
    }
    if !issuerkey.as_str().is_empty() && !issuerkeyid.as_str().is_empty() {
        lines.push(both_set_line("issuerkey", "issuerkeyid"));
        proof {
            assert(lines.deep_view() =~= spec_acert(m@).lines);
        }
        return CmdOutcome { lines, status: 2 };
    }
    push_in_seg(&mut lines, m, "i", "in");
    push_multi_seg(&mut lines, m, "m", "group");
    let ghost a1 = head + spec_in_seg(m@, "i"@, "in"@) + spec_multi_seg(m@, "m"@, "group"@);
    proof {
        assert(lines.deep_view() =~= a1);
    }
    push_opt_seg(&mut lines, m, "s", "serial");
    push_opt_seg(&mut lines, m, "l", "lifetime");
    let ghost a2 = a1 + spec_opt_seg(m@, "s"@, "serial"@) + spec_opt_seg(m@, "l"@, "lifetime"@);
    proof {
        assert(lines.deep_view() =~= a2);
    }
    push_opt_seg(&mut lines, m, "F", "not-before");
    push_opt_seg(&mut lines, m, "T", "not-after");
    push_opt_seg(&mut lines, m, "D", "dateform");
    let ghost a3 = a2 + spec_opt_seg(m@, "F"@, "not-before"@) + spec_opt_seg(m@, "T"@, "not-after"@)
        + spec_opt_seg(m@, "D"@, "dateform"@);
    proof {
        assert(lines.deep_view() =~= a3);
    }
    push_opt_seg(&mut lines, m, "g", "digest");
    push_opt_seg(&mut lines, m, "R", "rsa-padding");
    push_opt_seg(&mut lines, m, "f", "outform");
    let ghost a4 = a3 + spec_opt_seg(m@, "g"@, "digest"@) + spec_opt_seg(m@, "R"@, "rsa-padding"@)
        + spec_opt_seg(m@, "f"@, "outform"@);
    proof {
        assert(lines.deep_view() =~= a4);
    }
    lines.push("acert()".to_owned());
    proof {
        assert(lines.deep_view() =~= a4.push("acert()"@));
        assert(lines.deep_view() =~= spec_acert(m@).lines);
    }
    CmdOutcome { lines, status: 0 }
}

/// The descriptor of the acert command.
pub fn command() -> (r: Command)
    ensures
        r@.op == OpKind::Acert,
        r@.short == 'z',
        r@.long == "acert"@,
{
    let mut brief: Vec<String> = Vec::new();
    brief.push("[--in file] [--group name]+ --issuerkey file|--issuerkeyid hex".to_owned());
    brief.push(" --issuercert file [--serial hex] [--lifetime hours]".to_owned());
    brief.push("[--not-before datetime] [--not-after datetime] [--dateform form]".to_owned());
    brief.push(
        "[--digest md5|sha1|sha224|sha256|sha384|sha512|sha3_224|sha3_256|sha3_384|sha3_512]"
            .to_owned(),
    );
    brief.push("[--rsa-padding pkcs1|pss] [--outform der|pem]".to_owned());
    let mut options: Vec<Opt> = Vec::new();
    options.push(
        Opt {
            long: "help".to_owned(),
            short: 'h',
            arity: Arity::Flag,
            descr: "show usage information".to_owned(),
        },
    );
    options.push(
        Opt {
            long: "in".to_owned(),
            short: 'i',
            arity: Arity::Single,
            descr: "holder certificate, default: stdin".to_owned(),
        },
    );
    options.push(
        Opt {
            long: "group".to_owned(),
            short: 'm',
            arity: Arity::Multiple,
            descr: "group membership string to include".to_owned(),
        },
    );
    options.push(
        Opt {
            long: "issuercert".to_owned(),
            short: 'c',
            arity: Arity::Single,
            descr: "issuer certificate file".to_owned(),
        },
    );
    options.push(
        Opt {
            long: "issuerkey".to_owned(),
            short: 'k',
            arity: Arity::Single,
            descr: "issuer private key file".to_owned(),
        },
    );
    options.push(
        Opt {
            long: "issuerkeyid".to_owned(),
            short: 'x',
            arity: Arity::Single,
            descr: "smartcard or TPM issuer private key object handle".to_owned(),
        },
    );
    options.push(
        Opt {
            long: "serial".to_owned(),
            short: 's',
            arity: Arity::Single,
            descr: "serial number in hex, default: random".to_owned(),
        },
    );
    options.push(
        Opt {
            long: "lifetime".to_owned(),
            short: 'l',
            arity: Arity::Single,
            descr: "hours the acert is valid, default: 24".to_owned(),
        },
    );
    options.push(
        Opt {
            long: "not-before".to_owned(),
            short: 'F',
            arity: Arity::Single,
            descr: "date/time the validity of the AC starts".to_owned(),
        },
    );
    options.push(
        Opt {
            long: "not-after".to_owned(),
            short: 'T',
            arity: Arity::Single,
            descr: "date/time the validity of the AC ends".to_owned(),
        },
    );
    options.push(
        Opt {
            long: "dateform".to_owned(),
            short: 'D',
            arity: Arity::Single,
            descr: "strptime(3) input format, default: %d.%m.%y %T".to_owned(),
        },
    );
    options.push(
        Opt {
            long: "digest".to_owned(),
            short: 'g',
            arity: Arity::Single,
            descr: "digest for signature creation, default: key-specific".to_owned(),
        },
    );
    options.push(
        Opt {
            long: "rsa-padding".to_owned(),
            short: 'R',
            arity: Arity::Single,
            descr: "padding for RSA signatures, default: pkcs1".to_owned(),
        },
    );
    options.push(
        Opt {
            long: "outform".to_owned(),
            short: 'f',
            arity: Arity::Single,
            descr: "encoding of generated cert, default: der".to_owned(),
        },
    );
    Command::new(
        OpKind::Acert,
        'z',
        "acert".to_owned(),
        "issue an attribute certificate".to_owned(),
        brief,
        options,
    )
}

} // verus!
