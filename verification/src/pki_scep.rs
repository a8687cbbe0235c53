//! Enroll an X.509 certificate with a SCEP server (RFC 8894).

use vstd::prelude::*;
use vstd::string::*;

use crate::Arity;
use crate::CmdOutV;
use crate::CmdOutcome;
use crate::Command;
use crate::OpKind;
use crate::Opt;
use crate::parse::ParsedOptions;
use crate::parse::ParsedV;
use crate::parse::spec_opt_str;
use crate::report::opt_str_or_empty;
use crate::report::push_in_seg;
use crate::report::push_multi_seg;
use crate::report::push_opt_seg;
use crate::report::spec_in_seg;
use crate::report::spec_multi_seg;
use crate::report::spec_opt_seg;
use crate::report::spec_or_empty;
use crate::text::opt_line;
use crate::text::required_if_line;
use crate::text::required_line;
use crate::text::spec_opt_line;
use crate::text::spec_required_if_line;
use crate::text::spec_required_line;

verus! {

/// What the scep command answers: the server URL is required, and a client
/// certificate for renewal goes with its key, each requiring the other.
pub open spec fn spec_scep(m: ParsedV) -> CmdOutV {
    match spec_opt_str(m, "u"@) {
        None => CmdOutV { lines: seq![spec_required_line("url"@)], status: 2 },
        Some(u) => {
            let cert = spec_or_empty(m, "c"@);
            let key = spec_or_empty(m, "k"@);
            let head = seq![spec_opt_line("url"@, u)] + spec_in_seg(m, "i"@, "in"@) + spec_opt_seg(
                m,
                "d"@,
                "dn"@,
            ) + spec_multi_seg(m, "a"@, "san"@) + spec_opt_seg(m, "e"@, "cacert-enc"@)
                + spec_opt_seg(m, "s"@, "cacert-sig"@) + spec_multi_seg(m, "c"@, "cacert"@)
                + spec_opt_seg(m, "P"@, "profile"@) + spec_opt_seg(m, "p"@, "password"@) + seq![
                spec_opt_line("cert"@, cert),
                spec_opt_line("key"@, key),
            ];
            if cert.len() > 0 && key.len() == 0 {
                CmdOutV {
                    lines: head + seq![spec_required_if_line("key"@, "cert"@)],
                    status: 2,
                }
            } else if key.len() > 0 && cert.len() == 0 {
                CmdOutV {
                    lines: head + seq![spec_required_if_line("cert"@, "key"@)],
                    status: 2,
                }
            } else {
                CmdOutV {
                    lines: head + spec_opt_seg(m, "E"@, "cipher"@) + spec_opt_seg(
                        m,
                        "g"@,
                        "digest"@,
                    ) + spec_opt_seg(m, "R"@, "rsa-padding"@) + spec_opt_seg(m, "t"@, "interval"@)
                        + spec_opt_seg(m, "m"@, "maxpolltime"@) + spec_opt_seg(m, "f"@, "outform"@)
                        + seq!["scep()"@],
                    status: 0,
                }
            }
        },
    }
}

/// Enroll an X.509 certificate with a SCEP server.
pub fn pki_scep(m: &ParsedOptions) -> (r: CmdOutcome)
    ensures
        r@ == spec_scep(m@),
{
    let mut lines: Vec<String> = Vec::new();
    let url = match m.opt_str("u") {
        Some(u) => u,
        None => {
            lines.push(required_line("url"));
            proof {
                assert(lines.deep_view() =~= spec_scep(m@).lines);
            }
            return CmdOutcome { lines, status: 2 };
        },
    };
    lines.push(opt_line("url", url.as_str()));
    push_in_seg(&mut lines, m, "i", "in");
    push_opt_seg(&mut lines, m, "d", "dn");
    let ghost a1 = seq![spec_opt_line("url"@, url@)] + spec_in_seg(m@, "i"@, "in"@) + spec_opt_seg(
        m@,
        "d"@,
        "dn"@,
    );
    proof {
        assert(lines.deep_view() =~= a1);
    }
    push_multi_seg(&mut lines, m, "a", "san");
    push_opt_seg(&mut lines, m, "e", "cacert-enc");
    push_opt_seg(&mut lines, m, "s", "cacert-sig");
    let ghost a2 = a1 + spec_multi_seg(m@, "a"@, "san"@) + spec_opt_seg(m@, "e"@, "cacert-enc"@)
        + spec_opt_seg(m@, "s"@, "cacert-sig"@);
    proof {
        assert(lines.deep_view() =~= a2);
    }
    push_multi_seg(&mut lines, m, "c", "cacert");
    push_opt_seg(&mut lines, m, "P", "profile");
    push_opt_seg(&mut lines, m, "p", "password");
    let ghost a3 = a2 + spec_multi_seg(m@, "c"@, "cacert"@) + spec_opt_seg(m@, "P"@, "profile"@)
        + spec_opt_seg(m@, "p"@, "password"@);
    proof {
        assert(lines.deep_view() =~= a3);
    }
    let cert = opt_str_or_empty(m, "c");
    lines.push(opt_line("cert", cert.as_str()));
    let key = opt_str_or_empty(m, "k");
    lines.push(opt_line("key", key.as_str()));
    let ghost head = a3 + seq![
        spec_opt_line("cert"@, spec_or_empty(m@, "c"@)),
        spec_opt_line("key"@, spec_or_empty(m@, "k"@)),
    ];
    proof {
        assert(lines.deep_view() =~= head);
    }
    if !cert.as_str().is_empty() && key.as_str().is_empty() {
        lines.push(required_if_line("key", "cert"));
        proof {
            assert(lines.deep_view() =~= spec_scep(m@).lines);
        }
        return CmdOutcome { lines, status: 2 };
    }
    if !key.as_str().is_empty() && cert.as_str().is_empty() {
        lines.push(required_if_line("cert", "key"));
        proof {
            assert(lines.deep_view() =~= spec_scep(m@).lines);
        }
        return CmdOutcome { lines, status: 2 };
    }
    push_opt_seg(&mut lines, m, "E", "cipher");
    push_opt_seg(&mut lines, m, "g", "digest");
    push_opt_seg(&mut lines, m, "R", "rsa-padding");
    let ghost a4 = head + spec_opt_seg(m@, "E"@, "cipher"@) + spec_opt_seg(m@, "g"@, "digest"@)
        + spec_opt_seg(m@, "R"@, "rsa-padding"@);
    proof {
        assert(lines.deep_view() =~= a4);
    }
    push_opt_seg(&mut lines, m, "t", "interval");
    push_opt_seg(&mut lines, m, "m", "maxpolltime");
    push_opt_seg(&mut lines, m, "f", "outform");
    let ghost a5 = a4 + spec_opt_seg(m@, "t"@, "interval"@) + spec_opt_seg(m@, "m"@, "maxpolltime"@)
        + spec_opt_seg(m@, "f"@, "outform"@);
    proof {
        assert(lines.deep_view() =~= a5);
    }
    lines.push("scep()".to_owned());
    proof {
        assert(lines.deep_view() =~= a5.push("scep()"@));
        assert(lines.deep_view() =~= spec_scep(m@).lines);
    }
    CmdOutcome { lines, status: 0 }
}

/// The descriptor of the scep command.
pub fn command() -> (r: Command)
    ensures
        r@.op == OpKind::Scep,
        r@.short == 'S',
        r@.long == "scep"@,
{
    let mut brief: Vec<String> = Vec::new();
    brief.push(
        "--url url [--in file] [--dn distinguished-name] [--san subjectAltName]+".to_owned(),
    );
    brief.push(" --cacert-enc file --cacert-sig file [--cacert file]+".to_owned());
    brief.push("[--profile profile] [--password password]".to_owned());
    brief.push("[--cert file --key file] [--cipher aes|des3]".to_owned());
    brief.push(
        "[--digest sha256|sha384|sha512|sha224|sha1] [--rsa-padding pkcs1|pss]".to_owned(),
    );
    brief.push("[--interval time] [--maxpolltime time] [--outform der|pem]".to_owned());
    let mut options: Vec<Opt> = Vec::new();
    options.push(
        Opt {
            long: "help".to_owned(),
            short: 'h',
            arity: Arity::Flag,
            descr: "show usage information".to_owned(),
        },
    );
    options.push(
        Opt {
            long: "url".to_owned(),
            short: 'u',
            arity: Arity::Single,
            descr: "URL of the SCEP server".to_owned(),
        },
    );
    options.push(
        Opt {
            long: "in".to_owned(),
            short: 'i',
            arity: Arity::Single,
            descr: "RSA private key input file, default: stdin".to_owned(),
        },
    );
    options.push(
        Opt {
            long: "dn".to_owned(),
            short: 'd',
            arity: Arity::Single,
            descr: "subject distinguished name (optional if --cert is given)".to_owned(),
        },
    );
    options.push(
        Opt {
            long: "san".to_owned(),
            short: 'a',
            arity: Arity::Multiple,
            descr: "subjectAltName to include in cert request".to_owned(),
        },
    );
    options.push(
        Opt {
            long: "profile".to_owned(),
            short: 'P',
            arity: Arity::Single,
            descr: "certificate profile name to include in cert request".to_owned(),
        },
    );
    options.push(
        Opt {
            long: "password".to_owned(),
            short: 'p',
            arity: Arity::Single,
            descr: "challengePassword to include in cert request".to_owned(),
        },
    );
    options.push(
        Opt {
            long: "cacert-enc".to_owned(),
            short: 'e',
            arity: Arity::Single,
            descr: "CA certificate for encryption".to_owned(),
        },
    );
    options.push(
        Opt {
            long: "cacert-sig".to_owned(),
            short: 's',
            arity: Arity::Single,
            descr: "CA certificate for signature verification".to_owned(),
        },
    );
    options.push(
        Opt {
            long: "cacert".to_owned(),
            short: 'C',
            arity: Arity::Multiple,
            descr: "additional CA certificates".to_owned(),
        },
    );
    options.push(
        Opt {
            long: "cert".to_owned(),
            short: 'c',
            arity: Arity::Single,
            descr: "old certificate about to be renewed".to_owned(),
        },
    );
    options.push(
        Opt {
            long: "key".to_owned(),
            short: 'k',
            arity: Arity::Single,
            descr: "old RSA private key about to be replaced".to_owned(),
        },
    );
    options.push(
        Opt {
            long: "cipher".to_owned(),
            short: 'E',
            arity: Arity::Single,
            descr: "encryption cipher, default: aes".to_owned(),
        },
    );
    options.push(
        Opt {
            long: "digest".to_owned(),
            short: 'g',
            arity: Arity::Single,
            descr: "digest for signature creation, default: sha256".to_owned(),
        },
    );
    options.push(
        Opt {
            long: "rsa-padding".to_owned(),
            short: 'R',
            arity: Arity::Single,
            descr: "padding for RSA signatures, default: pkcs1".to_owned(),
        },
    );
    options.push(
        Opt {
            long: "interval".to_owned(),
            short: 't',
            arity: Arity::Single,
            descr: "poll interval, default: 60s".to_owned(),
        },
    );
    options.push(
        Opt {
            long: "maxpolltime".to_owned(),
            short: 'm',
            arity: Arity::Single,
            descr: "maximum poll time, default: 0 (no limit)".to_owned(),
        },
    );
    options.push(
        Opt {
            long: "outform".to_owned(),
            short: 'f',
            arity: Arity::Single,
            descr: "encoding of stored certificates, default: der".to_owned(),
        },
    );
    Command::new(
        OpKind::Scep,
        'S',
        "scep".to_owned(),
        "enroll an X.509 certificate with a SCEP server".to_owned(),
        brief,
        options,
    )
}

} // verus!
