//! OCSP responder.

use vstd::prelude::*;
use vstd::string::*;

use crate::CmdOutV;
use crate::CmdOutcome;
use crate::Command;
use crate::OpKind;
use crate::Opt;
use crate::parse::ParsedOptions;
use crate::parse::ParsedV;

verus! {

/// What the ocsp command answers on any parsed options.
pub open spec fn spec_ocsp(m: ParsedV) -> CmdOutV {
    CmdOutV { lines: seq!["ocsp()"@], status: 0 }
}

/// Run the OCSP responder.
pub fn pki_ocsp(m: &ParsedOptions) -> (r: CmdOutcome)
    ensures
        r@ == spec_ocsp(m@),
{
    let mut lines: Vec<String> = Vec::new();
    lines.push("ocsp()".to_owned());
    proof {
        assert(lines.deep_view() =~= spec_ocsp(m@).lines);
    }
    CmdOutcome { lines, status: 0 }
}

/// The descriptor of the ocsp command, which declares no options of its own.
pub fn command() -> (r: Command)
    ensures
        r@.op == OpKind::Ocsp,
        r@.short == 'o',
        r@.long == "ocsp"@,
{
    let brief: Vec<String> = Vec::new();
    let options: Vec<Opt> = Vec::new();
    Command::new(OpKind::Ocsp, 'o', "ocsp".to_owned(), "OCSP responder".to_owned(), brief, options)
}

} // verus!
