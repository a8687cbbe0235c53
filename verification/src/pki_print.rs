//! Print a credential in a human readable form.

use vstd::prelude::*;
use vstd::string::*;

use crate::Arity;
use crate::CmdOutV;
use crate::CmdOutcome;
use crate::Command;
use crate::OpKind;
use crate::Opt;
use crate::parse::ParsedOptions;
use crate::parse::ParsedV;

verus! {

/// What the print command answers on any parsed options.
pub open spec fn spec_print(m: ParsedV) -> CmdOutV {
    CmdOutV { lines: seq!["print()"@], status: 0 }
}

/// Print a credential in a human readable form.
pub fn pki_print(m: &ParsedOptions) -> (r: CmdOutcome)
    ensures
        r@ == spec_print(m@),
{
    let mut lines: Vec<String> = Vec::new();
    lines.push("print()".to_owned());
    proof {
        assert(lines.deep_view() =~= spec_print(m@).lines);
    }
    CmdOutcome { lines, status: 0 }
}

/// The descriptor of the print command.
pub fn command() -> (r: Command)
    ensures
        r@.op == OpKind::Print,
        r@.short == 'a',
        r@.long == "print"@,
{
    let mut brief: Vec<String> = Vec::new();
    brief.push("[--in file|--keyid hex]".to_owned());
    brief.push(
        "[--type x509|crl|ac|pub|priv|rsa|ecdsa|ed25519|ed448|ocsp-req|ocsp-rsp]".to_owned(),
    );
    let mut options: Vec<Opt> = Vec::new();
    options.push(
        Opt {
            long: "help".to_owned(),
            short: 'h',
            arity: Arity::Flag,
            descr: "show usage information".to_owned(),
        },
    );
    options.push(
        Opt {
            long: "in".to_owned(),
            short: 'i',
            arity: Arity::Single,
            descr: "input file, default: stdin".to_owned(),
        },
    );
    options.push(
        Opt {
            long: "keyid".to_owned(),
            short: 'x',
            arity: Arity::Single,
            descr: "smartcard or TPM object handle".to_owned(),
        },
    );
    options.push(
        Opt {
            long: "type".to_owned(),
            short: 't',
            arity: Arity::Single,
            descr: "type of credential, default: x509".to_owned(),
        },
    );
    Command::new(
        OpKind::Print,
        'a',
        "print".to_owned(),
        "print a credential in a human readable form".to_owned(),
        brief,
        options,
    )
}

} // verus!
