//! Extract the public key from a private key or certificate.

use vstd::prelude::*;
use vstd::string::*;

use crate::Arity;
use crate::CmdOutV;
use crate::CmdOutcome;
use crate::Command;
use crate::OpKind;
use crate::Opt;
use crate::parse::ParsedOptions;
use crate::parse::ParsedV;
use crate::report::opt_str_or_empty;
use crate::report::push_opt_seg;
use crate::report::spec_opt_seg;
use crate::report::spec_or_empty;
use crate::text::both_set_line;
use crate::text::either_stdin_line;
use crate::text::opt_line;
use crate::text::spec_both_set_line;
use crate::text::spec_either_stdin_line;
use crate::text::spec_opt_line;

verus! {

/// What the pub command answers: the input file and the hardware key handle
/// are alternatives and may not both be given; with neither, input falls back
/// to standard input.
pub open spec fn spec_pub(m: ParsedV) -> CmdOutV {
    let file = spec_or_empty(m, "i"@);
    let keyid = spec_or_empty(m, "x"@);
    let head = seq![spec_opt_line("in"@, file), spec_opt_line("keyid"@, keyid)];
    if file.len() > 0 && keyid.len() > 0 {
        CmdOutV { lines: head + seq![spec_both_set_line("in"@, "keyid"@)], status: 2 }
    } else {
        let head2 = head + (if file.len() == 0 && keyid.len() == 0 {
            seq![spec_either_stdin_line("in"@, "keyid"@)]
        } else {
            Seq::<Seq<char>>::empty()
        });
        CmdOutV {
            lines: head2 + spec_opt_seg(m, "f"@, "outform"@) + spec_opt_seg(m, "t"@, "type"@)
                + seq!["pub()"@],
            status: 0,
        }
    }
}

/// Extract a public key from a private key or certificate.
pub fn pki_pub(m: &ParsedOptions) -> (r: CmdOutcome)
    ensures
        r@ == spec_pub(m@),
{
    let mut lines: Vec<String> = Vec::new();
    let file = opt_str_or_empty(m, "i");
    lines.push(opt_line("in", file.as_str()));
    let keyid = opt_str_or_empty(m, "x");
    lines.push(opt_line("keyid", keyid.as_str()));
    let ghost head = seq![
        spec_opt_line("in"@, spec_or_empty(m@, "i"@)),
        spec_opt_line("keyid"@, spec_or_empty(m@, "x"@)),
    ];
    proof {
        assert(lines.deep_view() =~= head);
    }
    if !file.as_str().is_empty() && !keyid.as_str().is_empty() {
        lines.push(both_set_line("in", "keyid"));
        proof {
            assert(lines.deep_view() =~= spec_pub(m@).lines);
        }
        return CmdOutcome { lines, status: 2 };
    }
    if file.as_str().is_empty() && keyid.as_str().is_empty() {
        lines.push(either_stdin_line("in", "keyid"));
    }
    let ghost head2 = head + (if spec_or_empty(m@, "i"@).len() == 0 && spec_or_empty(
        m@,
        "x"@,
    ).len() == 0 {
        seq![spec_either_stdin_line("in"@, "keyid"@)]
    } else {
        Seq::<Seq<char>>::empty()
    });
    proof {
        assert(lines.deep_view() =~= head2);
    }
    push_opt_seg(&mut lines, m, "f", "outform");
    push_opt_seg(&mut lines, m, "t", "type");
    let ghost a1 = head2 + spec_opt_seg(m@, "f"@, "outform"@) + spec_opt_seg(m@, "t"@, "type"@);
    proof {
        assert(lines.deep_view() =~= a1);
    }
    lines.push("pub()".to_owned());
    proof {
        assert(lines.deep_view() =~= a1.push("pub()"@));
        assert(lines.deep_view() =~= spec_pub(m@).lines);
    }
    CmdOutcome { lines, status: 0 }
}

/// The descriptor of the pub command.
pub fn command() -> (r: Command)
    ensures
        r@.op == OpKind::Pub,
        r@.short == 'p',
        r@.long == "pub"@,
{
    let mut brief: Vec<String> = Vec::new();
    brief.push("[--in file|--keyid hex] [--type rsa|ecdsa|priv|pub|pkcs10|x509]".to_owned());
    brief.push("[--outform der|pem|dnskey|sshkey]".to_owned());
    let mut options: Vec<Opt> = Vec::new();
    options.push(
        Opt {
            long: "help".to_owned(),
            short: 'h',
            arity: Arity::Flag,
            descr: "show usage information".to_owned(),
        },
    );
    options.push(
        Opt {
            long: "in".to_owned(),
            short: 'i',
            arity: Arity::Single,
            descr: "input file, default: stdin".to_owned(),
        },
    );
    options.push(
        Opt {
            long: "keyid".to_owned(),
            short: 'x',
            arity: Arity::Single,
            descr: "smartcard or TPM private key object handle".to_owned(),
        },
    );
    options.push(
        Opt {
            long: "type".to_owned(),
            short: 't',
            arity: Arity::Single,
            descr: "type of credential, default: priv".to_owned(),
        },
    );
    options.push(
        Opt {
            long: "outform".to_owned(),
            short: 'f',
            arity: Arity::Single,
            descr: "encoding of extracted public key, default: der".to_owned(),
        },
    );
    Command::new(
        OpKind::Pub,
        'p',
        "pub".to_owned(),
        "extract the public key from a private key/certificate".to_owned(),
        brief,
        options,
    )
}

} // verus!
