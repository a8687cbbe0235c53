//! Enroll an X.509 certificate with an EST server (RFC 7030).

use vstd::prelude::*;
use vstd::string::*;

use crate::Arity;
use crate::CmdOutV;
use crate::CmdOutcome;
use crate::Command;
use crate::OpKind;
use crate::Opt;
use crate::parse::ParsedOptions;
use crate::parse::ParsedV;
use crate::parse::spec_opt_str;
use crate::parse::spec_values;
use crate::report::opt_str_or_empty;
use crate::report::push_in_seg;
use crate::report::push_opt_seg;
use crate::report::spec_in_seg;
use crate::report::spec_opt_seg;
use crate::report::spec_or_empty;
use crate::text::both_set_line;
use crate::text::spec_both_set_line;
use crate::text::invalid_value_line;
use crate::text::opt_line;
use crate::text::parse_u32;
use crate::text::push_multi_lines;
use crate::text::required_line;
use crate::text::spec_dec_digits;
use crate::text::spec_invalid_value_line;
use crate::text::spec_multi_lines;
use crate::text::spec_opt_line;
use crate::text::spec_parse_u32;
use crate::text::spec_required_line;
use crate::text::u32_to_string;

verus! {

/// The default poll interval in seconds.
pub const DEFAULT_POLL_INTERVAL: u32 = 60;

/// The lines that report a poll-time option in seconds, or the refusal of a
/// value that is not a number.
pub open spec fn spec_seconds_line(name: Seq<char>, v: Option<u32>) -> Result<Seq<char>, Seq<
    char,
>> {
    match v {
        Some(n) => Ok(spec_opt_line(name, spec_dec_digits(n as nat)) + " seconds"@),
        None => Err(spec_invalid_value_line(name)),
    }
}

/// What the est command answers: the server URL and at least one CA
/// certificate are required; an old certificate (by file or handle) and its
/// key (by file or handle) go together, one of each side and never both of
/// one side; the poll times must be numbers.
pub open spec fn spec_est(m: ParsedV) -> CmdOutV {
    match spec_opt_str(m, "u"@) {
        None => CmdOutV { lines: seq![spec_required_line("url"@)], status: 2 },
        Some(u) => {
            let cacerts = spec_values(m, "C"@);
            let head0 = seq![spec_opt_line("url"@, u)] + spec_multi_lines("cacert"@, cacerts);
            if cacerts.len() == 0 {
                CmdOutV { lines: head0 + seq![spec_required_line("cacert"@)], status: 2 }
            } else {
                let cert = spec_or_empty(m, "c"@);
                let certid = spec_or_empty(m, "X"@);
                let key = spec_or_empty(m, "k"@);
                let keyid = spec_or_empty(m, "x"@);
                let head = head0 + seq![
                    spec_opt_line("cert"@, cert),
                    spec_opt_line("certid"@, certid),
                    spec_opt_line("key"@, key),
                    spec_opt_line("keyid"@, keyid),
                ];
                if (cert.len() > 0 || certid.len() > 0) && (key.len() == 0 && keyid.len() == 0) {
                    CmdOutV {
                        lines: head + seq![
                            "'--key' or '--keyid' is required if '--cert' or '--certid' is set"@,
                        ],
                        status: 2,
                    }
                } else if (key.len() > 0 || keyid.len() > 0) && (cert.len() == 0 && certid.len()
                    == 0) {
                    CmdOutV {
                        lines: head + seq![
                            "'--cert' or '--certid' is required if '--key' or '--keyid' is set"@,
                        ],
                        status: 2,
                    }
                } else if key.len() > 0 && keyid.len() > 0 {
                    CmdOutV {
                        lines: head + seq![spec_both_set_line("key"@, "keyid"@)],
                        status: 2,
                    }
                } else if cert.len() > 0 && certid.len() > 0 {
                    CmdOutV {
                        lines: head + seq![spec_both_set_line("cert"@, "certid"@)],
                        status: 2,
                    }
                } else {
                    let head2 = head + spec_opt_seg(m, "l"@, "label"@) + spec_in_seg(m, "i"@, "in"@)
                        + spec_opt_seg(m, "p"@, "userpass"@);
                    let interval = match spec_opt_str(m, "t"@) {
                        Some(s) => spec_parse_u32(s),
                        None => Some(DEFAULT_POLL_INTERVAL),
                    };
                    match spec_seconds_line("interval"@, interval) {
                        Err(e) => CmdOutV { lines: head2 + seq![e], status: 2 },
                        Ok(l1) => {
                            let maxpoll = match spec_opt_str(m, "m"@) {
                                Some(s) => spec_parse_u32(s),
                                None => Some(0u32),
                            };
                            match spec_seconds_line("maxpolltime"@, maxpoll) {
                                Err(e) => CmdOutV { lines: head2 + seq![l1, e], status: 2 },
                                Ok(l2) => CmdOutV {
                                    lines: head2 + seq![l1, l2] + spec_opt_seg(
                                        m,
                                        "f"@,
                                        "outform"@,
                                    ) + seq!["est()"@],
                                    status: 0,
                                },
                            }
                        },
                    }
                }
            }
        },
    }
}

/// Enroll an X.509 certificate with an EST server.
pub fn pki_est(m: &ParsedOptions) -> (r: CmdOutcome)
    ensures
        r@ == spec_est(m@),
{
    let mut lines: Vec<String> = Vec::new();
    let url = match m.opt_str("u") {
        Some(u) => u,
        None => {
            lines.push(required_line("url"));
            proof {
                assert(lines.deep_view() =~= spec_est(m@).lines);
            }
            return CmdOutcome { lines, status: 2 };
        },
    };
    lines.push(opt_line("url", url.as_str()));
    let cacerts = m.opt_strs("C");
    push_multi_lines(&mut lines, "cacert", &cacerts);
    let ghost head0 = seq![spec_opt_line("url"@, url@)] + spec_multi_lines(
        "cacert"@,
        spec_values(m@, "C"@),
    );
    proof {
        assert(lines.deep_view() =~= head0);
    }
    if cacerts.len() == 0 {
        lines.push(required_line("cacert"));
        proof {
            assert(lines.deep_view() =~= spec_est(m@).lines);
        }
        return CmdOutcome { lines, status: 2 };
    }
    let cert = opt_str_or_empty(m, "c");
    lines.push(opt_line("cert", cert.as_str()));
    let certid = opt_str_or_empty(m, "X");
    lines.push(opt_line("certid", certid.as_str()));
    let key = opt_str_or_empty(m, "k");
    lines.push(opt_line("key", key.as_str()));
    let keyid = opt_str_or_empty(m, "x");
    lines.push(opt_line("keyid", keyid.as_str()));
    let ghost head = head0 + seq![
        spec_opt_line("cert"@, spec_or_empty(m@, "c"@)),
        spec_opt_line("certid"@, spec_or_empty(m@, "X"@)),
        spec_opt_line("key"@, spec_or_empty(m@, "k"@)),
        spec_opt_line("keyid"@, spec_or_empty(m@, "x"@)),
    ];
    proof {
        assert(lines.deep_view() =~= head);
    }
    let cert_set = !cert.as_str().is_empty();
    let certid_set = !certid.as_str().is_empty();
    let key_set = !key.as_str().is_empty();
    let keyid_set = !keyid.as_str().is_empty();
    if (cert_set || certid_set) && (!key_set && !keyid_set) {
        lines.push(
            "'--key' or '--keyid' is required if '--cert' or '--certid' is set".to_owned(),
        );
        proof {
            assert(lines.deep_view() =~= spec_est(m@).lines);
        }
        return CmdOutcome { lines, status: 2 };
    }
    if (key_set || keyid_set) && (!cert_set && !certid_set) {
        lines.push(
            "'--cert' or '--certid' is required if '--key' or '--keyid' is set".to_owned(),
        );
        proof {
            assert(lines.deep_view() =~= spec_est(m@).lines);
        }
        return CmdOutcome { lines, status: 2 };
    }
    if key_set && keyid_set {
        lines.push(both_set_line("key", "keyid"));
        proof {
            assert(lines.deep_view() =~= spec_est(m@).lines);
        }
        return CmdOutcome { lines, status: 2 };
    }
    if cert_set && certid_set {
        lines.push(both_set_line("cert", "certid"));
        proof {
            assert(lines.deep_view() =~= spec_est(m@).lines);
        }
        return CmdOutcome { lines, status: 2 };
    }
    push_opt_seg(&mut lines, m, "l", "label");
    push_in_seg(&mut lines, m, "i", "in");
    push_opt_seg(&mut lines, m, "p", "userpass");
    let ghost head2 = head + spec_opt_seg(m@, "l"@, "label"@) + spec_in_seg(m@, "i"@, "in"@)
        + spec_opt_seg(m@, "p"@, "userpass"@);
    proof {
        assert(lines.deep_view() =~= head2);
    }
    let poll_interval: u32 = match m.opt_str("t") {
        Some(s) => {
            match parse_u32(s.as_str()) {
                Some(n) => n,
                None => {
                    lines.push(invalid_value_line("interval"));
                    proof {
                        assert(lines.deep_view() =~= spec_est(m@).lines);
                    }
                    return CmdOutcome { lines, status: 2 };
                },
            }
        },
        None => DEFAULT_POLL_INTERVAL,
    };
    lines.push(opt_line("interval", u32_to_string(poll_interval).as_str()).concat(" seconds"));
    let ghost l1 = spec_opt_line("interval"@, spec_dec_digits(poll_interval as nat)) + " seconds"@;
    proof {
        assert(lines.deep_view() =~= head2.push(l1));
    }
    let max_poll_time: u32 = match m.opt_str("m") {
        Some(s) => {
            match parse_u32(s.as_str()) {
                Some(n) => n,
                None => {
                    lines.push(invalid_value_line("maxpolltime"));
                    proof {
                        assert(lines.deep_view() =~= spec_est(m@).lines);
                    }
                    return CmdOutcome { lines, status: 2 };
                },
            }
        },
        None => 0,
    };
    lines.push(opt_line("maxpolltime", u32_to_string(max_poll_time).as_str()).concat(" seconds"));
    let ghost l2 = spec_opt_line("maxpolltime"@, spec_dec_digits(max_poll_time as nat))
        + " seconds"@;
    proof {
        assert(lines.deep_view() =~= head2 + seq![l1, l2]);
    }
    push_opt_seg(&mut lines, m, "f", "outform");
    lines.push("est()".to_owned());
    proof {
        assert(lines.deep_view() =~= (head2 + seq![l1, l2] + spec_opt_seg(m@, "f"@, "outform"@))
            .push("est()"@));
        assert(lines.deep_view() =~= spec_est(m@).lines);
    }
    CmdOutcome { lines, status: 0 }
}

/// The descriptor of the est command.
pub fn command() -> (r: Command)
    ensures
        r@.op == OpKind::Est,
        r@.short == 'E',
        r@.long == "est"@,
{
    let mut brief: Vec<String> = Vec::new();
    brief.push("--url url [--label label] [--in file] --cacert file+".to_owned());
    brief.push("[--cert file|--certid hex --key file|--keyid hex]".to_owned());
    brief.push("[--userpass username:password] [--interval time]".to_owned());
    brief.push("[--maxpolltime time] [--outform der|pem]".to_owned());
    let mut options: Vec<Opt> = Vec::new();
    options.push(
        Opt {
            long: "help".to_owned(),
            short: 'h',
            arity: Arity::Flag,
            descr: "show usage information".to_owned(),
        },
    );
    options.push(
        Opt {
            long: "url".to_owned(),
            short: 'u',
            arity: Arity::Single,
            descr: "URL of the EST server".to_owned(),
        },
    );
    options.push(
        Opt {
            long: "label".to_owned(),
            short: 'l',
            arity: Arity::Single,
            descr: "label in the EST server path".to_owned(),
        },
    );
    options.push(
        Opt {
            long: "in".to_owned(),
            short: 'i',
            arity: Arity::Single,
            descr: "PKCS#10 input file, default: stdin".to_owned(),
        },
    );
    options.push(
        Opt {
            long: "cacert".to_owned(),
            short: 'C',
            arity: Arity::Multiple,
            descr: "CA certificate(s)".to_owned(),
        },
    );
    options.push(
        Opt {
            long: "cert".to_owned(),
            short: 'c',
            arity: Arity::Single,
            descr: "old certificate about to be renewed".to_owned(),
        },
    );
    options.push(
        Opt {
            long: "certid".to_owned(),
            short: 'X',
            arity: Arity::Single,
            descr: "smartcard or TPM certificate object handle".to_owned(),
        },
    );
    options.push(
        Opt {
            long: "key".to_owned(),
            short: 'k',
            arity: Arity::Single,
            descr: "old private key about to be replaced".to_owned(),
        },
    );
    options.push(
        Opt {
            long: "keyid".to_owned(),
            short: 'x',
            arity: Arity::Single,
            descr: "smartcard or TPM private key object handle".to_owned(),
        },
    );
    options.push(
        Opt {
            long: "userpass".to_owned(),
            short: 'p',
            arity: Arity::Single,
            descr: "username:password for http basic auth".to_owned(),
        },
    );
    options.push(
        Opt {
            long: "interval".to_owned(),
            short: 't',
            arity: Arity::Single,
            descr: "poll interval, default: 60s".to_owned(),
        },
    );
    options.push(
        Opt {
            long: "maxpolltime".to_owned(),
            short: 'm',
            arity: Arity::Single,
            descr: "maximum poll time, default: 0 (no limit)".to_owned(),
        },
    );
    options.push(
        Opt {
            long: "outform".to_owned(),
            short: 'f',
            arity: Arity::Single,
            descr: "encoding of stored certificates, default: der".to_owned(),
        },
    );
    Command::new(
        OpKind::Est,
        'E',
        "est".to_owned(),
        "enroll an X.509 certificate with an EST server".to_owned(),
        brief,
        options,
    )
}

} // verus!
