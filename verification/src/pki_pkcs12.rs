//! Show info about and export from PKCS#12 containers.

use vstd::prelude::*;
use vstd::string::*;

use crate::Arity;
use crate::CmdOutV;
use crate::CmdOutcome;
use crate::Command;
use crate::OpKind;
use crate::Opt;
use crate::parse::ParsedOptions;
use crate::parse::ParsedV;
use crate::parse::spec_present;
use crate::report::push_in_seg;
use crate::report::push_opt_seg;
use crate::report::spec_in_seg;
use crate::report::spec_opt_seg;
use crate::text::bool_line;
use crate::text::spec_bool_str;

verus! {

/// What the pkcs12 command answers: the input source, the list flag, the
/// export and outform options as given, then its placeholder body.
pub open spec fn spec_pkcs12(m: ParsedV) -> CmdOutV {
    CmdOutV {
        lines: spec_in_seg(m, "i"@, "in"@) + seq!["list: "@ + spec_bool_str(spec_present(m, "l"@))]
            + spec_opt_seg(m, "e"@, "export"@) + spec_opt_seg(m, "f"@, "outform"@) + seq![
            "pkcs12()"@,
        ],
        status: 0,
    }
}

/// Show info about a PKCS#12 container.
pub fn pki_pkcs12(m: &ParsedOptions) -> (r: CmdOutcome)
    ensures
        r@ == spec_pkcs12(m@),
{
    let mut lines: Vec<String> = Vec::new();
    push_in_seg(&mut lines, m, "i", "in");
    let ghost a1 = spec_in_seg(m@, "i"@, "in"@);
    proof {
        assert(lines.deep_view() =~= a1);
    }
    lines.push(bool_line("list: ", m.opt_present("l")));
    let ghost a2 = a1 + seq!["list: "@ + spec_bool_str(spec_present(m@, "l"@))];
    proof {
        assert(lines.deep_view() =~= a2);
    }
    push_opt_seg(&mut lines, m, "e", "export");
    let ghost a3 = a2 + spec_opt_seg(m@, "e"@, "export"@);
    proof {
        assert(lines.deep_view() =~= a3);
    }
    push_opt_seg(&mut lines, m, "f", "outform");
    let ghost a4 = a3 + spec_opt_seg(m@, "f"@, "outform"@);
    proof {
        assert(lines.deep_view() =~= a4);
    }
    lines.push("pkcs12()".to_owned());
    proof {
        assert(lines.deep_view() =~= a4.push("pkcs12()"@));
        assert(lines.deep_view() =~= spec_pkcs12(m@).lines);
    }
    CmdOutcome { lines, status: 0 }
}

/// The descriptor of the pkcs12 command.
pub fn command() -> (r: Command)
    ensures
        r@.op == OpKind::Pkcs12,
        r@.short == 'u',
        r@.long == "pkcs12"@,
{
    let mut brief: Vec<String> = Vec::new();
    brief.push("--export index|--list [--in file]".to_owned());
    brief.push("[--outform der|pem]".to_owned());
    let mut options: Vec<Opt> = Vec::new();
    options.push(
        Opt {
            long: "help".to_owned(),
            short: 'h',
            arity: Arity::Flag,
            descr: "show usage information".to_owned(),
        },
    );
    options.push(
        Opt {
            long: "in".to_owned(),
            short: 'i',
            arity: Arity::Single,
            descr: "input file, default: stdin".to_owned(),
        },
    );
    options.push(
        Opt {
            long: "list".to_owned(),
            short: 'l',
            arity: Arity::Flag,
            descr: "list certificates and keys".to_owned(),
        },
    );
    options.push(
        Opt {
            long: "export".to_owned(),
            short: 'e',
            arity: Arity::Single,
            descr: "export the credential with the given index".to_owned(),
        },
    );
    options.push(
        Opt {
            long: "outform".to_owned(),
            short: 'f',
            arity: Arity::Single,
            descr: "encoding of exported credentials, default: der".to_owned(),
        },
    );
    Command::new(
        OpKind::Pkcs12,
        'u',
        "pkcs12".to_owned(),
        "PKCS#12 functions".to_owned(),
        brief,
        options,
    )
}

} // verus!
