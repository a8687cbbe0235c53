//! Create a self signed certificate.

use vstd::prelude::*;
use vstd::string::*;

use crate::Arity;
use crate::CmdOutV;
use crate::CmdOutcome;
use crate::Command;
use crate::OpKind;
use crate::Opt;
use crate::parse::ParsedOptions;
use crate::parse::ParsedV;
use crate::parse::spec_present;
use crate::report::opt_str_or_empty;
use crate::report::push_multi_seg;
use crate::report::push_opt_seg;
use crate::report::spec_multi_seg;
use crate::report::spec_opt_seg;
use crate::report::spec_or_empty;
use crate::text::bool_line;
use crate::text::both_set_line;
use crate::text::either_stdin_line;
use crate::text::opt_line;
use crate::text::spec_bool_str;
use crate::text::spec_both_set_line;
use crate::text::spec_either_stdin_line;
use crate::text::spec_opt_line;

verus! {

/// What the self command answers: the input file and the hardware key handle
/// are alternatives; every given certificate parameter is reported in order.
pub open spec fn spec_self_signed(m: ParsedV) -> CmdOutV {
    let file = spec_or_empty(m, "i"@);
    let keyid = spec_or_empty(m, "x"@);
    let head = seq![spec_opt_line("in"@, file), spec_opt_line("keyid"@, keyid)];
    if file.len() > 0 && keyid.len() > 0 {
        CmdOutV { lines: head + seq![spec_both_set_line("in"@, "keyid"@)], status: 2 }
    } else {
        let head2 = head + (if file.len() == 0 && keyid.len() == 0 {
            seq![spec_either_stdin_line("in"@, "keyid"@)]
        } else {
            Seq::<Seq<char>>::empty()
        });
        CmdOutV {
            lines: head2 + spec_opt_seg(m, "t"@, "type"@) + spec_opt_seg(m, "d"@, "dn"@)
                + spec_multi_seg(m, "a"@, "san"@) + spec_opt_seg(m, "l"@, "lifetime"@)
                + spec_opt_seg(m, "s"@, "serial"@) + seq![
                "ca flag:  "@ + spec_bool_str(spec_present(m, "b"@)),
            ] + spec_opt_seg(m, "p"@, "pathlen"@) + spec_opt_seg(m, "F"@, "not-before"@)
                + spec_opt_seg(m, "T"@, "not-after"@) + spec_opt_seg(m, "D"@, "dateform"@)
                + spec_multi_seg(m, "e"@, "flag"@) + spec_multi_seg(m, "o"@, "ocsp"@)
                + spec_multi_seg(m, "B"@, "addrblock"@) + spec_multi_seg(m, "n"@, "nc-permitted"@)
                + spec_multi_seg(m, "N"@, "nc-excluded"@) + spec_multi_seg(
                m,
                "M"@,
                "policy-mapping"@,
            ) + spec_opt_seg(m, "E"@, "policy-explicit"@) + spec_opt_seg(m, "H"@, "policy-inhibit"@)
                + spec_opt_seg(m, "A"@, "policy-any"@) + spec_multi_seg(m, "P"@, "cert-policy"@)
                + spec_multi_seg(m, "C"@, "cps-uri"@) + spec_multi_seg(m, "U"@, "user-notice"@)
                + spec_opt_seg(m, "X"@, "critical"@) + spec_opt_seg(m, "g"@, "digest"@)
                + spec_opt_seg(m, "R"@, "rsa-padding"@) + spec_opt_seg(m, "f"@, "outform"@) + seq![
                "self()"@,
            ],
            status: 0,
        }
    }
}

/// Create a self signed certificate.
#[verifier::rlimit(60)]
pub fn pki_self(m: &ParsedOptions) -> (r: CmdOutcome)
    ensures
        r@ == spec_self_signed(m@),
{
    let mut lines: Vec<String> = Vec::new();
    let file = opt_str_or_empty(m, "i");
    lines.push(opt_line("in", file.as_str()));
    let keyid = opt_str_or_empty(m, "x");
    lines.push(opt_line("keyid", keyid.as_str()));
    let ghost head = seq![
        spec_opt_line("in"@, spec_or_empty(m@, "i"@)),
        spec_opt_line("keyid"@, spec_or_empty(m@, "x"@)),
    ];
    proof {
        assert(lines.deep_view() =~= head);
    }
    if !file.as_str().is_empty() && !keyid.as_str().is_empty() {
        lines.push(both_set_line("in", "keyid"));
        proof {
            assert(lines.deep_view() =~= spec_self_signed(m@).lines);
        }
        return CmdOutcome { lines, status: 2 };
    }
    if file.as_str().is_empty() && keyid.as_str().is_empty() {
        lines.push(either_stdin_line("in", "keyid"));
    }
    let ghost head2 = head + (if spec_or_empty(m@, "i"@).len() == 0 && spec_or_empty(
        m@,
        "x"@,
    ).len() == 0 {
        seq![spec_either_stdin_line("in"@, "keyid"@)]
    } else {
        Seq::<Seq<char>>::empty()
    });
    proof {
        assert(lines.deep_view() =~= head2);
    }
    push_opt_seg(&mut lines, m, "t", "type");
    push_opt_seg(&mut lines, m, "d", "dn");
    push_multi_seg(&mut lines, m, "a", "san");
    let ghost a1 = head2 + spec_opt_seg(m@, "t"@, "type"@) + spec_opt_seg(m@, "d"@, "dn"@)
        + spec_multi_seg(m@, "a"@, "san"@);
    proof {
        assert(lines.deep_view() =~= a1);
    }
    push_opt_seg(&mut lines, m, "l", "lifetime");
    push_opt_seg(&mut lines, m, "s", "serial");
    lines.push(bool_line("ca flag:  ", m.opt_present("b")));
    let ghost a2 = a1 + spec_opt_seg(m@, "l"@, "lifetime"@) + spec_opt_seg(m@, "s"@, "serial"@)
        + seq!["ca flag:  "@ + spec_bool_str(spec_present(m@, "b"@))];
    proof {
        assert(lines.deep_view() =~= a2);
    }
    push_opt_seg(&mut lines, m, "p", "pathlen");
    push_opt_seg(&mut lines, m, "F", "not-before");
    push_opt_seg(&mut lines, m, "T", "not-after");
    push_opt_seg(&mut lines, m, "D", "dateform");
    let ghost a3 = a2 + spec_opt_seg(m@, "p"@, "pathlen"@) + spec_opt_seg(m@, "F"@, "not-before"@)
        + spec_opt_seg(m@, "T"@, "not-after"@) + spec_opt_seg(m@, "D"@, "dateform"@);
    proof {
        assert(lines.deep_view() =~= a3);
    }
    push_multi_seg(&mut lines, m, "e", "flag");
    push_multi_seg(&mut lines, m, "o", "ocsp");
    push_multi_seg(&mut lines, m, "B", "addrblock");
    let ghost a4 = a3 + spec_multi_seg(m@, "e"@, "flag"@) + spec_multi_seg(m@, "o"@, "ocsp"@)
        + spec_multi_seg(m@, "B"@, "addrblock"@);
    proof {
        assert(lines.deep_view() =~= a4);
    }
    push_multi_seg(&mut lines, m, "n", "nc-permitted");
    push_multi_seg(&mut lines, m, "N", "nc-excluded");
    push_multi_seg(&mut lines, m, "M", "policy-mapping");
    let ghost a5 = a4 + spec_multi_seg(m@, "n"@, "nc-permitted"@) + spec_multi_seg(
        m@,
        "N"@,
        "nc-excluded"@,
    ) + spec_multi_seg(m@, "M"@, "policy-mapping"@);
    proof {
        assert(lines.deep_view() =~= a5);
    }
    push_opt_seg(&mut lines, m, "E", "policy-explicit");
    push_opt_seg(&mut lines, m, "H", "policy-inhibit");
    push_opt_seg(&mut lines, m, "A", "policy-any");
    let ghost a6 = a5 + spec_opt_seg(m@, "E"@, "policy-explicit"@) + spec_opt_seg(
        m@,
        "H"@,
        "policy-inhibit"@,
    ) + spec_opt_seg(m@, "A"@, "policy-any"@);
    proof {
        assert(lines.deep_view() =~= a6);
    }
    push_multi_seg(&mut lines, m, "P", "cert-policy");
    push_multi_seg(&mut lines, m, "C", "cps-uri");
    push_multi_seg(&mut lines, m, "U", "user-notice");
    let ghost a7 = a6 + spec_multi_seg(m@, "P"@, "cert-policy"@) + spec_multi_seg(
        m@,
        "C"@,
        "cps-uri"@,
    ) + spec_multi_seg(m@, "U"@, "user-notice"@);
    proof {
        assert(lines.deep_view() =~= a7);
    }
    push_opt_seg(&mut lines, m, "X", "critical");
    push_opt_seg(&mut lines, m, "g", "digest");
    push_opt_seg(&mut lines, m, "R", "rsa-padding");
    push_opt_seg(&mut lines, m, "f", "outform");
    let ghost a8 = a7 + spec_opt_seg(m@, "X"@, "critical"@) + spec_opt_seg(m@, "g"@, "digest"@)
        + spec_opt_seg(m@, "R"@, "rsa-padding"@) + spec_opt_seg(m@, "f"@, "outform"@);
    proof {
        assert(lines.deep_view() =~= a8);
    }
    lines.push("self()".to_owned());
    proof {
        assert(lines.deep_view() =~= a8.push("self()"@));
        assert(lines.deep_view() =~= spec_self_signed(m@).lines);
    }
    CmdOutcome { lines, status: 0 }
}

/// The descriptor of the self command.
pub fn command() -> (r: Command)
    ensures
        r@.op == OpKind::SelfSigned,
        r@.short == 's',
        r@.long == "self"@,
{
    let mut brief: Vec<String> = Vec::new();
    brief.push("[--in file|--keyid hex] [--type rsa|ecdsa|ed25519|ed448|priv]".to_owned());
    brief.push(" --dn distinguished-name [--san subjectAltName]+".to_owned());
    brief.push("[--lifetime days] [--serial hex] [--ca] [--ocsp uri]+".to_owned());
    brief.push("[--not-before datetime] [--not-after datetime] [--dateform form]".to_owned());
    brief.push(
        "[--flag serverAuth|clientAuth|crlSign|ocspSigning|msSmartcardLogon]+".to_owned(),
    );
    brief.push("[--nc-permitted name] [--nc-excluded name]".to_owned());
    brief.push("[--policy-map issuer-oid:subject-oid]".to_owned());
    brief.push("[--policy-explicit len] [--policy-inhibit len] [--policy-any len]".to_owned());
    brief.push("[--cert-policy oid [--cps-uri uri] [--user-notice text]]+".to_owned());
    brief.push(
        "[--digest md5|sha1|sha224|sha256|sha384|sha512|sha3_224|sha3_256|sha3_384|sha3_512]"
            .to_owned(),
    );
    brief.push("[--rsa-padding pkcs1|pss] [--critical oid]".to_owned());
    brief.push("[--outform der|pem]".to_owned());
    let mut options: Vec<Opt> = Vec::new();
    options.push(
        Opt {
            long: "help".to_owned(),
            short: 'h',
            arity: Arity::Flag,
            descr: "show usage information".to_owned(),
        },
    );
    options.push(
        Opt {
            long: "in".to_owned(),
            short: 'i',
            arity: Arity::Single,
            descr: "private key input file, default: stdin".to_owned(),
        },
    );
    options.push(
        Opt {
            long: "keyid".to_owned(),
            short: 'x',
            arity: Arity::Single,
            descr: "smartcard or TPM private key object handle".to_owned(),
        },
    );
    options.push(
        Opt {
            long: "type".to_owned(),
            short: 't',
            arity: Arity::Single,
            descr: "type of input key, default: priv".to_owned(),
        },
    );
    options.push(
        Opt {
            long: "dn".to_owned(),
            short: 'd',
            arity: Arity::Single,
            descr: "subject and issuer distinguished name".to_owned(),
        },
    );
    options.push(
        Opt {
            long: "san".to_owned(),
            short: 'a',
            arity: Arity::Multiple,
            descr: "subjectAltName to include in certificate".to_owned(),
        },
    );
    options.push(
        Opt {
            long: "lifetime".to_owned(),
            short: 'l',
            arity: Arity::Single,
            descr: "days the certificate is valid, default: 1095".to_owned(),
        },
    );
    options.push(
        Opt {
            long: "not-before".to_owned(),
            short: 'F',
            arity: Arity::Single,
            descr: "date/time the validity of the cert starts".to_owned(),
        },
    );
    options.push(
        Opt {
            long: "not-after".to_owned(),
            short: 'T',
            arity: Arity::Single,
            descr: "date/time the validity of the cert ends".to_owned(),
        },
    );
    options.push(
        Opt {
            long: "dateform".to_owned(),
            short: 'D',
            arity: Arity::Single,
            descr: "strptime(3) input format, default: %d.%m.%y %T".to_owned(),
        },
    );
    options.push(
        Opt {
            long: "serial".to_owned(),
            short: 's',
            arity: Arity::Single,
            descr: "serial number in hex, default: random".to_owned(),
        },
    );
    options.push(
        Opt {
            long: "ca".to_owned(),
            short: 'b',
            arity: Arity::Flag,
            descr: "include CA basicConstraint, default: no".to_owned(),
        },
    );
    options.push(
        Opt {
            long: "pathlen".to_owned(),
            short: 'p',
            arity: Arity::Single,
            descr: "set path length constraint".to_owned(),
        },
    );
    options.push(
        Opt {
            long: "addrblock".to_owned(),
            short: 'B',
            arity: Arity::Multiple,
            descr: "RFC 3779 addrBlock to include".to_owned(),
        },
    );
    options.push(
        Opt {
            long: "nc-permitted".to_owned(),
            short: 'n',
            arity: Arity::Multiple,
            descr: "add permitted NameConstraint".to_owned(),
        },
    );
    options.push(
        Opt {
            long: "nc-excluded".to_owned(),
            short: 'N',
            arity: Arity::Multiple,
            descr: "add excluded NameConstraint".to_owned(),
        },
    );
    options.push(
        Opt {
            long: "cert-policy".to_owned(),
            short: 'P',
            arity: Arity::Multiple,
            descr: "certificatePolicy OID to include".to_owned(),
        },
    );
    options.push(
        Opt {
            long: "cps-uri".to_owned(),
            short: 'C',
            arity: Arity::Multiple,
            descr: "Certification Practice statement URI for certificatePolicy".to_owned(),
        },
    );
    options.push(
        Opt {
            long: "user-notice".to_owned(),
            short: 'U',
            arity: Arity::Multiple,
            descr: "user notice for certificatePolicy".to_owned(),
        },
    );
    options.push(
        Opt {
            long: "policy-mapping".to_owned(),
            short: 'M',
            arity: Arity::Multiple,
            descr: "policyMapping from issuer to subject OID".to_owned(),
        },
    );
    options.push(
        Opt {
            long: "policy-explicit".to_owned(),
            short: 'E',
            arity: Arity::Single,
            descr: "requireExplicitPolicy constraint".to_owned(),
        },
    );
    options.push(
        Opt {
            long: "policy-inhibit".to_owned(),
            short: 'H',
            arity: Arity::Single,
            descr: "inhibitPolicyMapping constraint".to_owned(),
        },
    );
    options.push(
        Opt {
            long: "policy-any".to_owned(),
            short: 'A',
            arity: Arity::Single,
            descr: "inhibitAnyPolicy constraint".to_owned(),
        },
    );
    options.push(
        Opt {
            long: "flag".to_owned(),
            short: 'e',
            arity: Arity::Multiple,
            descr: "include extendedKeyUsage flag".to_owned(),
        },
    );
    options.push(
        Opt {
            long: "ocsp".to_owned(),
            short: 'o',
            arity: Arity::Multiple,
            descr: "OCSP AuthorityInfoAccess URI to include".to_owned(),
        },
    );
    options.push(
        Opt {
            long: "digest".to_owned(),
            short: 'g',
            arity: Arity::Single,
            descr: "digest for signature creation, default: key-specific".to_owned(),
        },
    );
    options.push(
        Opt {
            long: "rsa-padding".to_owned(),
            short: 'R',
            arity: Arity::Single,
            descr: "padding for RSA signatures, default: pkcs1".to_owned(),
        },
    );
    options.push(
        Opt {
            long: "critical".to_owned(),
            short: 'X',
            arity: Arity::Single,
            descr: "critical extension OID to include for test purposes".to_owned(),
        },
    );
    options.push(
        Opt {
            long: "outform".to_owned(),
            short: 'f',
            arity: Arity::Single,
            descr: "encoding of generated cert, default: der".to_owned(),
        },
    );
    Command::new(
        OpKind::SelfSigned,
        's',
        "self".to_owned(),
        "create a self signed certificate".to_owned(),
        brief,
        options,
    )
}

} // verus!
