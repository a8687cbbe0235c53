//! Extract the subject DN of an X.509 certificate.

use vstd::prelude::*;
use vstd::string::*;

use crate::Arity;
use crate::CmdOutV;
use crate::CmdOutcome;
use crate::Command;
use crate::OpKind;
use crate::Opt;
use crate::parse::ParsedOptions;
use crate::parse::ParsedV;

verus! {

/// What the dn command answers on any parsed options.
pub open spec fn spec_dn(m: ParsedV) -> CmdOutV {
    CmdOutV { lines: seq!["dn()"@], status: 0 }
}

/// Extract the subject DN.
pub fn pki_dn(m: &ParsedOptions) -> (r: CmdOutcome)
    ensures
        r@ == spec_dn(m@),
{
    let mut lines: Vec<String> = Vec::new();
    lines.push("dn()".to_owned());
    proof {
        assert(lines.deep_view() =~= spec_dn(m@).lines);
    }
    CmdOutcome { lines, status: 0 }
}

/// The descriptor of the dn command.
pub fn command() -> (r: Command)
    ensures
        r@.op == OpKind::Dn,
        r@.short == 'd',
        r@.long == "dn"@,
{
    let mut brief: Vec<String> = Vec::new();
    brief.push("[--in file] [--format config|hex|base64|bin]".to_owned());
    let mut options: Vec<Opt> = Vec::new();
    options.push(
        Opt {
            long: "help".to_owned(),
            short: 'h',
            arity: Arity::Flag,
            descr: "show usage information".to_owned(),
        },
    );
    options.push(
        Opt {
            long: "in".to_owned(),
            short: 'i',
            arity: Arity::Single,
            descr: "input file, default: stdin".to_owned(),
        },
    );
    options.push(
        Opt {
            long: "format".to_owned(),
            short: 'f',
            arity: Arity::Single,
            descr: "output format, default: config".to_owned(),
        },
    );
    Command::new(
        OpKind::Dn,
        'd',
        "dn".to_owned(),
        "extract the subject DN of an X.509 certificate".to_owned(),
        brief,
        options,
    )
}

} // verus!
