//! Wrap and unwrap PKCS#7 containers.

use vstd::prelude::*;
use vstd::string::*;

use crate::Arity;
use crate::CmdOutV;
use crate::CmdOutcome;
use crate::Command;
use crate::OpKind;
use crate::Opt;
use crate::parse::ParsedOptions;
use crate::parse::ParsedV;
use crate::parse::spec_present;
use crate::report::opt_str_or_empty;
use crate::report::push_in_seg;
use crate::report::push_opt_seg;
use crate::report::spec_in_seg;
use crate::report::spec_opt_seg;
use crate::report::spec_or_empty;
use crate::text::bool_line;
use crate::text::opt_line;
use crate::text::spec_bool_str;
use crate::text::spec_opt_line;

verus! {

/// What the pkcs7 command answers: the chosen mode flags, the key and
/// certificate paths, and the signature parameters, all reported as given.
pub open spec fn spec_pkcs7(m: ParsedV) -> CmdOutV {
    CmdOutV {
        lines: spec_in_seg(m, "i"@, "in"@) + seq![
            "sign:    "@ + spec_bool_str(spec_present(m, "s"@)),
            "verify:  "@ + spec_bool_str(spec_present(m, "u"@)),
            "encrypt: "@ + spec_bool_str(spec_present(m, "e"@)),
            "decrypt: "@ + spec_bool_str(spec_present(m, "d"@)),
            "show:    "@ + spec_bool_str(spec_present(m, "p"@)),
            spec_opt_line("key"@, spec_or_empty(m, "k"@)),
            spec_opt_line("cert"@, spec_or_empty(m, "c"@)),
        ] + spec_opt_seg(m, "g"@, "digest"@) + spec_opt_seg(m, "R"@, "rsa-padding"@) + seq![
            "pkcs7()"@,
        ],
        status: 0,
    }
}

/// Wrap or unwrap a PKCS#7 container.
pub fn pki_pkcs7(m: &ParsedOptions) -> (r: CmdOutcome)
    ensures
        r@ == spec_pkcs7(m@),
{
    let mut lines: Vec<String> = Vec::new();
    push_in_seg(&mut lines, m, "i", "in");
    lines.push(bool_line("sign:    ", m.opt_present("s")));
    lines.push(bool_line("verify:  ", m.opt_present("u")));
    lines.push(bool_line("encrypt: ", m.opt_present("e")));
    lines.push(bool_line("decrypt: ", m.opt_present("d")));
    lines.push(bool_line("show:    ", m.opt_present("p")));
    let key = opt_str_or_empty(m, "k");
    lines.push(opt_line("key", key.as_str()));
    let cert = opt_str_or_empty(m, "c");
    lines.push(opt_line("cert", cert.as_str()));
    let ghost a1 = spec_in_seg(m@, "i"@, "in"@) + seq![
        "sign:    "@ + spec_bool_str(spec_present(m@, "s"@)),
        "verify:  "@ + spec_bool_str(spec_present(m@, "u"@)),
        "encrypt: "@ + spec_bool_str(spec_present(m@, "e"@)),
        "decrypt: "@ + spec_bool_str(spec_present(m@, "d"@)),
        "show:    "@ + spec_bool_str(spec_present(m@, "p"@)),
        spec_opt_line("key"@, spec_or_empty(m@, "k"@)),
        spec_opt_line("cert"@, spec_or_empty(m@, "c"@)),
    ];
    proof {
        assert(lines.deep_view() =~= a1);
    }
    push_opt_seg(&mut lines, m, "g", "digest");
    push_opt_seg(&mut lines, m, "R", "rsa-padding");
    let ghost a2 = a1 + spec_opt_seg(m@, "g"@, "digest"@) + spec_opt_seg(m@, "R"@, "rsa-padding"@);
    proof {
        assert(lines.deep_view() =~= a2);
    }
    lines.push("pkcs7()".to_owned());
    proof {
        assert(lines.deep_view() =~= a2.push("pkcs7()"@));
        assert(lines.deep_view() =~= spec_pkcs7(m@).lines);
    }
    CmdOutcome { lines, status: 0 }
}

/// The descriptor of the pkcs7 command.
pub fn command() -> (r: Command)
    ensures
        r@.op == OpKind::Pkcs7,
        r@.short == '7',
        r@.long == "pkcs7"@,
{
    let mut brief: Vec<String> = Vec::new();
    brief.push("--sign|--verify|--encrypt|--decrypt|--show".to_owned());
    brief.push("[--in file] [--cert file]+ [--key file]".to_owned());
    brief.push(
        "[--digest md5|sha1|sha224|sha256|sha384|sha512|sha3_224|sha3_256|sha3_384|sha3_512]"
            .to_owned(),
    );
    brief.push("[--rsa-padding pkcs1|pss]".to_owned());
    let mut options: Vec<Opt> = Vec::new();
    options.push(
        Opt {
            long: "help".to_owned(),
            short: 'h',
            arity: Arity::Flag,
            descr: "show usage information".to_owned(),
        },
    );
    options.push(
        Opt {
            long: "sign".to_owned(),
            short: 's',
            arity: Arity::Flag,
            descr: "create PKCS#7 signed-data".to_owned(),
        },
    );
    options.push(
        Opt {
            long: "verify".to_owned(),
            short: 'u',
            arity: Arity::Flag,
            descr: "verify PKCS#7 signed-data".to_owned(),
        },
    );
    options.push(
        Opt {
            long: "encrypt".to_owned(),
            short: 'e',
            arity: Arity::Flag,
            descr: "create PKCS#7 enveloped-data".to_owned(),
        },
    );
    options.push(
        Opt {
            long: "decrypt".to_owned(),
            short: 'd',
            arity: Arity::Flag,
            descr: "decrypt PKCS#7 enveloped-data".to_owned(),
        },
    );
    options.push(
        Opt {
            long: "show".to_owned(),
            short: 'p',
            arity: Arity::Flag,
            descr: "show info about PKCS#7, print certificates".to_owned(),
        },
    );
    options.push(
        Opt {
            long: "in".to_owned(),
            short: 'i',
            arity: Arity::Single,
            descr: "input file, default: stdin".to_owned(),
        },
    );
    options.push(
        Opt {
            long: "key".to_owned(),
            short: 'k',
            arity: Arity::Single,
            descr: "path to private key for sign/decrypt".to_owned(),
        },
    );
    options.push(
        Opt {
            long: "cert".to_owned(),
            short: 'c',
            arity: Arity::Single,
            descr: "path to certificate for sign/verify/encrypt".to_owned(),
        },
    );
    options.push(
        Opt {
            long: "digest".to_owned(),
            short: 'g',
            arity: Arity::Single,
            descr: "digest for signature creation, default: key-specific".to_owned(),
        },
    );
    options.push(
        Opt {
            long: "rsa-padding".to_owned(),
            short: 'R',
            arity: Arity::Single,
            descr: "padding for RSA signatures, default: pkcs1".to_owned(),
        },
    );
    Command::new(
        OpKind::Pkcs7,
        '7',
        "pkcs7".to_owned(),
        "PKCS#7 wrap/unwrap functions".to_owned(),
        brief,
        options,
    )
}

} // verus!
