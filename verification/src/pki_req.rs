//! Create a PKCS#10 certificate request.

use vstd::prelude::*;
use vstd::string::*;

use crate::Arity;
use crate::CmdOutV;
use crate::CmdOutcome;
use crate::Command;
use crate::OpKind;
use crate::Opt;
use crate::parse::ParsedOptions;
use crate::parse::ParsedV;
use crate::parse::spec_opt_str;
use crate::report::opt_str_or_empty;
use crate::report::push_multi_seg;
use crate::report::push_opt_seg;
use crate::report::spec_multi_seg;
use crate::report::spec_opt_seg;
use crate::report::spec_or_empty;
use crate::strongswan::creds::key_type_str;
use crate::strongswan::creds::keys::KeyType;
use crate::strongswan::creds::spec_key_type_str;
use crate::text::both_set_line;
use crate::text::either_stdin_line;
use crate::text::opt_line;
use crate::text::spec_both_set_line;
use crate::text::spec_either_stdin_line;
use crate::text::spec_opt_line;
use crate::text::str_eq;

verus! {

/// The input key type a `--type` value names, if any; RSA when the option is
/// absent.
pub open spec fn spec_req_key_type(m: ParsedV) -> Option<KeyType> {
    match spec_opt_str(m, "t"@) {
        Some(t) => if t == "rsa"@ {
            Some(KeyType::RSA)
        } else if t == "ecdsa"@ {
            Some(KeyType::ECDSA)
        } else if t == "priv"@ {
            Some(KeyType::ANY)
        } else {
            None
        },
        None => Some(KeyType::RSA),
    }
}

/// What the req command answers: the input file and the hardware key handle
/// are alternatives; the input kind must be known; the request parameters are
/// reported as given.
pub open spec fn spec_req(m: ParsedV) -> CmdOutV {
    let file = spec_or_empty(m, "i"@);
    let keyid = spec_or_empty(m, "x"@);
    let head = seq![spec_opt_line("in"@, file), spec_opt_line("keyid"@, keyid)];
    if file.len() > 0 && keyid.len() > 0 {
        CmdOutV { lines: head + seq![spec_both_set_line("in"@, "keyid"@)], status: 2 }
    } else {
        let head2 = head + (if file.len() == 0 && keyid.len() == 0 {
            seq![spec_either_stdin_line("in"@, "keyid"@)]
        } else {
            Seq::<Seq<char>>::empty()
        });
        match spec_req_key_type(m) {
            None => CmdOutV { lines: head2 + seq!["invalid input type"@], status: 2 },
            Some(k) => CmdOutV {
                lines: head2 + seq!["option: --type "@ + spec_key_type_str(k)] + spec_opt_seg(
                    m,
                    "o"@,
                    "oldreq"@,
                ) + spec_opt_seg(m, "d"@, "dn"@) + spec_multi_seg(m, "a"@, "san"@) + spec_multi_seg(
                    m,
                    "e"@,
                    "flag"@,
                ) + spec_opt_seg(m, "P"@, "profile"@) + spec_opt_seg(m, "p"@, "password"@)
                    + spec_opt_seg(m, "g"@, "digest"@) + spec_opt_seg(m, "R"@, "rsa-padding"@)
                    + spec_opt_seg(m, "f"@, "outform"@) + seq!["req()"@],
                status: 0,
            },
        }
    }
}

/// Create a self-signed PKCS#10 certificate request.
pub fn pki_req(m: &ParsedOptions) -> (r: CmdOutcome)
    ensures
        r@ == spec_req(m@),
{
    let mut lines: Vec<String> = Vec::new();
    let file = opt_str_or_empty(m, "i");
    lines.push(opt_line("in", file.as_str()));
    let keyid = opt_str_or_empty(m, "x");
    lines.push(opt_line("keyid", keyid.as_str()));
    let ghost head = seq![
        spec_opt_line("in"@, spec_or_empty(m@, "i"@)),
        spec_opt_line("keyid"@, spec_or_empty(m@, "x"@)),
    ];
    proof {
        assert(lines.deep_view() =~= head);
    }
    if !file.as_str().is_empty() && !keyid.as_str().is_empty() {
        lines.push(both_set_line("in", "keyid"));
        proof {
            assert(lines.deep_view() =~= spec_req(m@).lines);
        }
        return CmdOutcome { lines, status: 2 };
    }
    if file.as_str().is_empty() && keyid.as_str().is_empty() {
        lines.push(either_stdin_line("in", "keyid"));
    }
    let ghost head2 = head + (if spec_or_empty(m@, "i"@).len() == 0 && spec_or_empty(
        m@,
        "x"@,
    ).len() == 0 {
        seq![spec_either_stdin_line("in"@, "keyid"@)]
    } else {
        Seq::<Seq<char>>::empty()
    });
    proof {
        assert(lines.deep_view() =~= head2);
    }
    let in_type: KeyType = match m.opt_str("t") {
        Some(t) => {
            if str_eq(t.as_str(), "rsa") {
                KeyType::RSA
            } else if str_eq(t.as_str(), "ecdsa") {
                KeyType::ECDSA
            } else if str_eq(t.as_str(), "priv") {
                KeyType::ANY
            } else {
                lines.push("invalid input type".to_owned());
                proof {
                    assert(lines.deep_view() =~= spec_req(m@).lines);
                }
                return CmdOutcome { lines, status: 2 };
            }
        },
        None => KeyType::RSA,
    };
    lines.push("option: --type ".to_owned().concat(key_type_str(&in_type)));
    let ghost a1 = head2 + seq!["option: --type "@ + spec_key_type_str(in_type)];
    proof {
        assert(lines.deep_view() =~= a1);
    }
    push_opt_seg(&mut lines, m, "o", "oldreq");
    push_opt_seg(&mut lines, m, "d", "dn");
    let ghost a2 = a1 + spec_opt_seg(m@, "o"@, "oldreq"@) + spec_opt_seg(m@, "d"@, "dn"@);
    proof {
        assert(lines.deep_view() =~= a2);
    }
    push_multi_seg(&mut lines, m, "a", "san");
    push_multi_seg(&mut lines, m, "e", "flag");
    let ghost a3 = a2 + spec_multi_seg(m@, "a"@, "san"@) + spec_multi_seg(m@, "e"@, "flag"@);
    proof {
        assert(lines.deep_view() =~= a3);
    }
    push_opt_seg(&mut lines, m, "P", "profile");
    push_opt_seg(&mut lines, m, "p", "password");
    let ghost a4 = a3 + spec_opt_seg(m@, "P"@, "profile"@) + spec_opt_seg(m@, "p"@, "password"@);
    proof {
        assert(lines.deep_view() =~= a4);
    }
    push_opt_seg(&mut lines, m, "g", "digest");
    push_opt_seg(&mut lines, m, "R", "rsa-padding");
    push_opt_seg(&mut lines, m, "f", "outform");
    let ghost a5 = a4 + spec_opt_seg(m@, "g"@, "digest"@) + spec_opt_seg(m@, "R"@, "rsa-padding"@)
        + spec_opt_seg(m@, "f"@, "outform"@);
    proof {
        assert(lines.deep_view() =~= a5);
    }
    lines.push("req()".to_owned());
    proof {
        assert(lines.deep_view() =~= a5.push("req()"@));
        assert(lines.deep_view() =~= spec_req(m@).lines);
    }
    CmdOutcome { lines, status: 0 }
}

/// The descriptor of the req command.
pub fn command() -> (r: Command)
    ensures
        r@.op == OpKind::Req,
        r@.short == 'r',
        r@.long == "req"@,
{
    let mut brief: Vec<String> = Vec::new();
    brief.push("[--in file|--keyid hex] [--type rsa|ecdsa|priv]".to_owned());
    brief.push(" --oldreq file|--dn distinguished-name [--san subjectAltName]+".to_owned());
    brief.push("[--flag serverAuth|clientAuth|ocspSigning|msSmartcardLogon]+".to_owned());
    brief.push("[--profile server|client|dual|ocsp] [--password challengePassword]".to_owned());
    brief.push(
        "[--digest sha1|sha224|sha256|sha384|sha512|sha3_224|sha3_256|sha3_384|sha3_512]"
            .to_owned(),
    );
    brief.push("[--rsa-padding pkcs1|pss] [--outform der|pem]".to_owned());
    let mut options: Vec<Opt> = Vec::new();
    options.push(
        Opt {
            long: "help".to_owned(),
            short: 'h',
            arity: Arity::Flag,
            descr: "show usage information".to_owned(),
        },
    );
    options.push(
        Opt {
            long: "in".to_owned(),
            short: 'i',
            arity: Arity::Single,
            descr: "private key input file, default: stdin".to_owned(),
        },
    );
    options.push(
        Opt {
            long: "keyid".to_owned(),
            short: 'x',
            arity: Arity::Single,
            descr: "smartcard or TPM private key object handle".to_owned(),
        },
    );
    options.push(
        Opt {
            long: "type".to_owned(),
            short: 't',
            arity: Arity::Single,
            descr: "type of input key, default: priv".to_owned(),
        },
    );
    options.push(
        Opt {
            long: "oldreq".to_owned(),
            short: 'o',
            arity: Arity::Single,
            descr: "old certificate request to be used as a template".to_owned(),
        },
    );
    options.push(
        Opt {
            long: "dn".to_owned(),
            short: 'd',
            arity: Arity::Single,
            descr: "subject distinguished name".to_owned(),
        },
    );
    options.push(
        Opt {
            long: "san".to_owned(),
            short: 'a',
            arity: Arity::Multiple,
            descr: "subjectAltName to include in cert request".to_owned(),
        },
    );
    options.push(
        Opt {
            long: "flag".to_owned(),
            short: 'e',
            arity: Arity::Multiple,
            descr: "include extendedKeyUsage flag".to_owned(),
        },
    );
    options.push(
        Opt {
            long: "profile".to_owned(),
            short: 'P',
            arity: Arity::Single,
            descr: "certificate profile name to include in cert request".to_owned(),
        },
    );
    options.push(
        Opt {
            long: "password".to_owned(),
            short: 'p',
            arity: Arity::Single,
            descr: "challengePassword to include in cert request".to_owned(),
        },
    );
    options.push(
        Opt {
            long: "digest".to_owned(),
            short: 'g',
            arity: Arity::Single,
            descr: "digest for signature creation, default: key-specific".to_owned(),
        },
    );
    options.push(
        Opt {
            long: "rsa-padding".to_owned(),
            short: 'R',
            arity: Arity::Single,
            descr: "padding for RSA signatures, default: pkcs1".to_owned(),
        },
    );
    options.push(
        Opt {
            long: "outform".to_owned(),
            short: 'f',
            arity: Arity::Single,
            descr: "encoding of generated request, default: der".to_owned(),
        },
    );
    Command::new(
        OpKind::Req,
        'r',
        "req".to_owned(),
        "create a PKCS#10 certificate request".to_owned(),
        brief,
        options,
    )
}

} // verus!
