//! Calculate key identifiers of a key or certificate.

use vstd::prelude::*;
use vstd::string::*;

use crate::Arity;
use crate::CmdOutV;
use crate::CmdOutcome;
use crate::Command;
use crate::OpKind;
use crate::Opt;
use crate::parse::ParsedOptions;
use crate::parse::ParsedV;
use crate::parse::spec_opt_str;
use crate::report::push_opt_seg;
use crate::report::spec_opt_seg;
use crate::strongswan::creds::Builder;
use crate::strongswan::creds::BuilderV;
use crate::strongswan::creds::CredType;
use crate::strongswan::creds::certs::CertType;
use crate::strongswan::creds::keys::KeyType;
use crate::strongswan::creds::spec_build_lines;
use crate::text::and_stdin_line;
use crate::text::both_set_line;
use crate::text::spec_and_stdin_line;
use crate::text::spec_both_set_line;
use crate::text::str_eq;

verus! {

/// The credential kind a `--type` value names, if any; an RSA private key
/// when the option is absent.
pub open spec fn spec_keyid_cred_type(m: ParsedV) -> Option<CredType> {
    match spec_opt_str(m, "t"@) {
        Some(t) => if t == "rsa"@ || t == "rsa-priv"@ {
            Some(CredType::PrivateKey { key_type: KeyType::RSA })
        } else if t == "ecdsa"@ || t == "ecdsa-priv"@ {
            Some(CredType::PrivateKey { key_type: KeyType::ECDSA })
        } else if t == "priv"@ {
            Some(CredType::PrivateKey { key_type: KeyType::ANY })
        } else if t == "pub"@ {
            Some(CredType::PublicKey { key_type: KeyType::ANY })
        } else if t == "pkcs10"@ {
            Some(CredType::Certificate { cert_type: CertType::PKCS10Request })
        } else if t == "x509"@ {
            Some(CredType::Certificate { cert_type: CertType::X509 })
        } else {
            None
        },
        None => Some(CredType::PrivateKey { key_type: KeyType::RSA }),
    }
}

/// What the keyid command answers: the input file and the hardware key handle
/// may not both be given; the input kind must be known; the accumulated
/// request is rendered at the end.
pub open spec fn spec_keyid(m: ParsedV) -> CmdOutV {
    let file = spec_opt_str(m, "i"@);
    let keyid = spec_opt_str(m, "x"@);
    if file is Some && keyid is Some {
        CmdOutV { lines: seq![spec_both_set_line("in"@, "keyid"@)], status: 2 }
    } else {
        let head = if file is None && keyid is None {
            seq![spec_and_stdin_line("in"@, "keyid"@)]
        } else {
            Seq::<Seq<char>>::empty()
        };
        match spec_keyid_cred_type(m) {
            None => CmdOutV { lines: head + seq!["invalid input type"@], status: 2 },
            Some(ct) => {
                let b = BuilderV {
                    cred_type: ct,
                    file: file,
                    keyid: keyid,
                    x509_flags: None,
                    not_before: None,
                    not_after: None,
                    crl_uris: None,
                    ocsp_uris: None,
                };
                CmdOutV {
                    lines: head + spec_opt_seg(m, "I"@, "id"@) + spec_opt_seg(m, "f"@, "format"@)
                        + seq!["keyid()"@] + spec_build_lines(b),
                    status: 0,
                }
            },
        }
    }
}

/// Print the key identifiers of a credential.
pub fn pki_keyid(m: &ParsedOptions) -> (r: CmdOutcome)
    ensures
        r@ == spec_keyid(m@),
{
    let mut lines: Vec<String> = Vec::new();
    let file = m.opt_str("i");
    let keyid = m.opt_str("x");
    if file.is_some() && keyid.is_some() {
        lines.push(both_set_line("in", "keyid"));
        proof {
            assert(lines.deep_view() =~= spec_keyid(m@).lines);
        }
        return CmdOutcome { lines, status: 2 };
    }
    if file.is_none() && keyid.is_none() {
        lines.push(and_stdin_line("in", "keyid"));
    }
    let ghost head = if spec_opt_str(m@, "i"@) is None && spec_opt_str(m@, "x"@) is None {
        seq![spec_and_stdin_line("in"@, "keyid"@)]
    } else {
        Seq::<Seq<char>>::empty()
    };
    proof {
        assert(lines.deep_view() =~= head);
    }
    let cred_type: CredType = match m.opt_str("t") {
        Some(t) => {
            if str_eq(t.as_str(), "rsa") || str_eq(t.as_str(), "rsa-priv") {
                CredType::PrivateKey { key_type: KeyType::RSA }
            } else if str_eq(t.as_str(), "ecdsa") || str_eq(t.as_str(), "ecdsa-priv") {
                CredType::PrivateKey { key_type: KeyType::ECDSA }
            } else if str_eq(t.as_str(), "priv") {
                CredType::PrivateKey { key_type: KeyType::ANY }
            } else if str_eq(t.as_str(), "pub") {
                CredType::PublicKey { key_type: KeyType::ANY }
            } else if str_eq(t.as_str(), "pkcs10") {
                CredType::Certificate { cert_type: CertType::PKCS10Request }
            } else if str_eq(t.as_str(), "x509") {
                CredType::Certificate { cert_type: CertType::X509 }
            } else {
                lines.push("invalid input type".to_owned());
                proof {
                    assert(lines.deep_view() =~= spec_keyid(m@).lines);
                }
                return CmdOutcome { lines, status: 2 };
            }
        },
        None => CredType::PrivateKey { key_type: KeyType::RSA },
    };
    push_opt_seg(&mut lines, m, "I", "id");
    push_opt_seg(&mut lines, m, "f", "format");
    lines.push("keyid()".to_owned());
    let ghost a1 = head + spec_opt_seg(m@, "I"@, "id"@) + spec_opt_seg(m@, "f"@, "format"@) + seq![
        "keyid()"@,
    ];
    proof {
        assert(lines.deep_view() =~= a1);
    }
    let builder = Builder::new(&cred_type).file(file).keyid(keyid);
    let ghost bv = builder@;
    let (mut blines, ok) = builder.build();
    lines.append(&mut blines);
    proof {
        assert(bv == (BuilderV {
            cred_type: cred_type,
            file: spec_opt_str(m@, "i"@),
            keyid: spec_opt_str(m@, "x"@),
            x509_flags: None,
            not_before: None,
            not_after: None,
            crl_uris: None,
            ocsp_uris: None,
        }));
        assert(lines.deep_view() =~= a1 + spec_build_lines(bv));
        assert(lines.deep_view() =~= spec_keyid(m@).lines);
    }
    let status: u8 = if ok {
        0
    } else {
        1
    };
    CmdOutcome { lines, status }
}

/// The descriptor of the keyid command.
pub fn command() -> (r: Command)
    ensures
        r@.op == OpKind::Keyid,
        r@.short == 'k',
        r@.long == "keyid"@,
{
    let mut brief: Vec<String> = Vec::new();
    brief.push("[--in file|--keyid hex] [--type priv|rsa|ecdsa|pub|pkcs10|x509]".to_owned());
    brief.push("[--id all|spk|spki] [--format pretty|hex|base64|bin]".to_owned());
    let mut options: Vec<Opt> = Vec::new();
    options.push(
        Opt {
            long: "help".to_owned(),
            short: 'h',
            arity: Arity::Flag,
            descr: "show usage information".to_owned(),
        },
    );
    options.push(
        Opt {
            long: "in".to_owned(),
            short: 'i',
            arity: Arity::Single,
            descr: "input file, default: stdin".to_owned(),
        },
    );
    options.push(
        Opt {
            long: "keyid".to_owned(),
            short: 'x',
            arity: Arity::Single,
            descr: "smartcard or TPM private key object handle".to_owned(),
        },
    );
    options.push(
        Opt {
            long: "type".to_owned(),
            short: 't',
            arity: Arity::Single,
            descr: "type of key, default: priv".to_owned(),
        },
    );
    options.push(
        Opt {
            long: "id".to_owned(),
            short: 'I',
            arity: Arity::Single,
            descr: "type of identifier, default: all".to_owned(),
        },
    );
    options.push(
        Opt {
            long: "format".to_owned(),
            short: 'f',
            arity: Arity::Single,
            descr: "output format, default: pretty".to_owned(),
        },
    );
    Command::new(
        OpKind::Keyid,
        'k',
        "keyid".to_owned(),
        "calculate key identifiers of a key/certificate".to_owned(),
        brief,
        options,
    )
}

} // verus!
