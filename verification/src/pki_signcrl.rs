//! Issue a CRL using a CA certificate and key.

use vstd::prelude::*;
use vstd::string::*;

use crate::Arity;
use crate::CmdOutV;
use crate::CmdOutcome;
use crate::Command;
use crate::OpKind;
use crate::Opt;
use crate::parse::ParsedOptions;
use crate::parse::ParsedV;
use crate::parse::spec_opt_str;
use crate::report::MAX_LIFETIME_DAYS;
use crate::report::opt_str_or_empty;
use crate::report::push_multi_seg;
use crate::report::push_opt_seg;
use crate::report::spec_multi_seg;
use crate::report::spec_opt_seg;
use crate::report::spec_lifetime_days;
use crate::report::spec_or_empty;
use crate::text::both_set_line;
use crate::text::either_required_line;
use crate::text::i64_to_string;
use crate::text::invalid_value_line;
use crate::text::opt_line;
use crate::text::parse_i64;
use crate::text::required_line;
use crate::text::spec_both_set_line;
use crate::text::spec_either_required_line;
use crate::text::spec_i64_digits;
use crate::text::spec_invalid_value_line;
use crate::text::spec_opt_line;
use crate::text::spec_required_line;

verus! {

/// What the signcrl command answers: the CA certificate is required, exactly
/// one of the CA key file and key handle must be given, and the lifetime in
/// days becomes seconds.
pub open spec fn spec_signcrl(m: ParsedV) -> CmdOutV {
    match spec_opt_str(m, "c"@) {
        None => CmdOutV { lines: seq![spec_required_line("cacert"@)], status: 2 },
        Some(cacert) => {
            let cakey = spec_or_empty(m, "k"@);
            let cakeyid = spec_or_empty(m, "x"@);
            let head = seq![
                spec_opt_line("cacert"@, cacert),
                spec_opt_line("cakey"@, cakey),
                spec_opt_line("cakeyid"@, cakeyid),
            ];
            if cakey.len() == 0 && cakeyid.len() == 0 {
                CmdOutV {
                    lines: head + seq![spec_either_required_line("cakey"@, "cakeyid"@)],
                    status: 2,
                }
            } else if cakey.len() > 0 && cakeyid.len() > 0 {
                CmdOutV {
                    lines: head + seq![spec_both_set_line("cakey"@, "cakeyid"@)],
                    status: 2,
                }
            } else {
                match spec_lifetime_days(m, "l"@, 15) {
                    None => CmdOutV {
                        lines: head + seq![spec_invalid_value_line("lifetime"@)],
                        status: 2,
                    },
                    Some(d) => CmdOutV {
                        lines: head + seq![
                            spec_opt_line("lifetime"@, spec_i64_digits(86400 * d)) + " seconds"@,
                        ] + spec_opt_seg(m, "F"@, "this-update"@) + spec_opt_seg(
                            m,
                            "T"@,
                            "next-update"@,
                        ) + spec_opt_seg(m, "D"@, "dateform"@) + spec_opt_seg(m, "a"@, "lastcrl"@)
                            + spec_opt_seg(m, "b"@, "basecrl"@) + spec_multi_seg(m, "u"@, "crl"@)
                            + spec_multi_seg(m, "z"@, "cert"@) + spec_multi_seg(m, "s"@, "serlal"@)
                            + spec_multi_seg(m, "r"@, "reason"@) + spec_multi_seg(m, "d"@, "date"@)
                            + spec_opt_seg(m, "X"@, "critical"@) + spec_opt_seg(m, "g"@, "digest"@)
                            + spec_opt_seg(m, "R"@, "rsa-padding"@) + spec_opt_seg(
                            m,
                            "f"@,
                            "outform"@,
                        ) + seq!["signcrl()"@],
                        status: 0,
                    },
                }
            }
        },
    }
}

/// Sign a CRL.
pub fn pki_signcrl(m: &ParsedOptions) -> (r: CmdOutcome)
    ensures
        r@ == spec_signcrl(m@),
{
    let mut lines: Vec<String> = Vec::new();
    let cacert = match m.opt_str("c") {
        Some(v) => v,
        None => {
            lines.push(required_line("cacert"));
            proof {
                assert(lines.deep_view() =~= spec_signcrl(m@).lines);
            }
            return CmdOutcome { lines, status: 2 };
        },
    };
    lines.push(opt_line("cacert", cacert.as_str()));
    let cakey = opt_str_or_empty(m, "k");
    lines.push(opt_line("cakey", cakey.as_str()));
    let cakeyid = opt_str_or_empty(m, "x");
    lines.push(opt_line("cakeyid", cakeyid.as_str()));
    let ghost head = seq![
        spec_opt_line("cacert"@, cacert@),
        spec_opt_line("cakey"@, spec_or_empty(m@, "k"@)),
        spec_opt_line("cakeyid"@, spec_or_empty(m@, "x"@)),
    ];
    proof {
        assert(lines.deep_view() =~= head);
    }
    if cakey.as_str().is_empty() && cakeyid.as_str().is_empty() {
        lines.push(either_required_line("cakey", "cakeyid"));
        proof {
            assert(lines.deep_view() =~= spec_signcrl(m@).lines);
        }
        return CmdOutcome { lines, status: 2 };
    }
    if !cakey.as_str().is_empty() && !cakeyid.as_str().is_empty() {
        lines.push(both_set_line("cakey", "cakeyid"));
        proof {
            assert(lines.deep_view() =~= spec_signcrl(m@).lines);
        }
        return CmdOutcome { lines, status: 2 };
    }
    let days: i64 = match m.opt_str("l") {
        Some(s) => {
            match parse_i64(s.as_str()) {
                Some(d) => d,
                None => {
                    lines.push(invalid_value_line("lifetime"));
                    proof {
                        assert(lines.deep_view() =~= spec_signcrl(m@).lines);
                    }
                    return CmdOutcome { lines, status: 2 };
                },
            }
        },
        None => 15,
    };
    if days > MAX_LIFETIME_DAYS || days < -MAX_LIFETIME_DAYS {
        lines.push(invalid_value_line("lifetime"));
        proof {
            assert(lines.deep_view() =~= spec_signcrl(m@).lines);
        }
        return CmdOutcome { lines, status: 2 };
    }
    let lifetime: i64 = 24 * 60 * 60 * days;
    lines.push(opt_line("lifetime", i64_to_string(lifetime).as_str()).concat(" seconds"));
    let ghost a1 = head + seq![
        spec_opt_line("lifetime"@, spec_i64_digits(86400 * days as int)) + " seconds"@,
    ];
    proof {
        assert(lines.deep_view() =~= a1);
    }
    push_opt_seg(&mut lines, m, "F", "this-update");
    push_opt_seg(&mut lines, m, "T", "next-update");
    push_opt_seg(&mut lines, m, "D", "dateform");
    let ghost a2 = a1 + spec_opt_seg(m@, "F"@, "this-update"@) + spec_opt_seg(
        m@,
        "T"@,
        "next-update"@,
    ) + spec_opt_seg(m@, "D"@, "dateform"@);
    proof {
        assert(lines.deep_view() =~= a2);
    }
    push_opt_seg(&mut lines, m, "a", "lastcrl");
    push_opt_seg(&mut lines, m, "b", "basecrl");
    let ghost a3 = a2 + spec_opt_seg(m@, "a"@, "lastcrl"@) + spec_opt_seg(m@, "b"@, "basecrl"@);
    proof {
        assert(lines.deep_view() =~= a3);
    }
    push_multi_seg(&mut lines, m, "u", "crl");
    push_multi_seg(&mut lines, m, "z", "cert");
    push_multi_seg(&mut lines, m, "s", "serlal");
    let ghost a4 = a3 + spec_multi_seg(m@, "u"@, "crl"@) + spec_multi_seg(m@, "z"@, "cert"@)
        + spec_multi_seg(m@, "s"@, "serlal"@);
    proof {
        assert(lines.deep_view() =~= a4);
    }
    push_multi_seg(&mut lines, m, "r", "reason");
    push_multi_seg(&mut lines, m, "d", "date");
    let ghost a5 = a4 + spec_multi_seg(m@, "r"@, "reason"@) + spec_multi_seg(m@, "d"@, "date"@);
    proof {
        assert(lines.deep_view() =~= a5);
    }
    push_opt_seg(&mut lines, m, "X", "critical");
    push_opt_seg(&mut lines, m, "g", "digest");
    push_opt_seg(&mut lines, m, "R", "rsa-padding");
    push_opt_seg(&mut lines, m, "f", "outform");
    let ghost a6 = a5 + spec_opt_seg(m@, "X"@, "critical"@) + spec_opt_seg(m@, "g"@, "digest"@)
        + spec_opt_seg(m@, "R"@, "rsa-padding"@) + spec_opt_seg(m@, "f"@, "outform"@);
    proof {
        assert(lines.deep_view() =~= a6);
    }
    lines.push("signcrl()".to_owned());
    proof {
        assert(lines.deep_view() =~= a6.push("signcrl()"@));
        assert(lines.deep_view() =~= spec_signcrl(m@).lines);
    }
    CmdOutcome { lines, status: 0 }
}

/// The descriptor of the signcrl command.
pub fn command() -> (r: Command)
    ensures
        r@.op == OpKind::Signcrl,
        r@.short == 'c',
        r@.long == "signcrl"@,
{
    let mut brief: Vec<String> = Vec::new();
    brief.push("--cacert file --cakey file|--cakeyid hex [--lifetime days]".to_owned());
    brief.push("[--this-update datetime] [--next-update datetime] [--dateform form]".to_owned());
    brief.push("[--lastcrl crl] [--basecrl crl] [--crluri uri]+".to_owned());
    brief.push("[[--reason key-compromise|ca-compromise|affiliation-changed|".to_owned());
    brief.push("           superseded|cessation-of-operation|certificate-hold]".to_owned());
    brief.push(" [--date timestamp] --cert file|--serial hex]*".to_owned());
    brief.push(
        "[--digest md5|sha1|sha224|sha256|sha384|sha512|sha3_224|sha3_256|sha3_384|sha3_512]"
            .to_owned(),
    );
    brief.push("[--rsa-padding pkcs1|pss] [--critical oid] [--outform der|pem]".to_owned());
    let mut options: Vec<Opt> = Vec::new();
    options.push(
        Opt {
            long: "help".to_owned(),
            short: 'h',
            arity: Arity::Flag,
            descr: "show usage information".to_owned(),
        },
    );
    options.push(
        Opt {
            long: "cacert".to_owned(),
            short: 'c',
            arity: Arity::Single,
            descr: "CA certificate file".to_owned(),
        },
    );
    options.push(
        Opt {
            long: "cakey".to_owned(),
            short: 'k',
            arity: Arity::Single,
            descr: "CA private key file".to_owned(),
        },
    );
    options.push(
        Opt {
            long: "cakeyid".to_owned(),
            short: 'x',
            arity: Arity::Single,
            descr: "smartcard or TPM CA private key object handle".to_owned(),
        },
    );
    options.push(
        Opt {
            long: "lifetime".to_owned(),
            short: 'l',
            arity: Arity::Single,
            descr: "days the CRL gets a nextUpdate, default: 15".to_owned(),
        },
    );
    options.push(
        Opt {
            long: "this-update".to_owned(),
            short: 'F',
            arity: Arity::Single,
            descr: "date/time the validity of the CRL starts".to_owned(),
        },
    );
    options.push(
        Opt {
            long: "next-update".to_owned(),
            short: 'T',
            arity: Arity::Single,
            descr: "date/time the validity of the CRL ends".to_owned(),
        },
    );
    options.push(
        Opt {
            long: "dateform".to_owned(),
            short: 'D',
            arity: Arity::Single,
            descr: "strptime(3) input format, default: %d.%m.%y %T".to_owned(),
        },
    );
    options.push(
        Opt {
            long: "lastcrl".to_owned(),
            short: 'a',
            arity: Arity::Single,
            descr: "CRL of lastUpdate to copy revocations from".to_owned(),
        },
    );
    options.push(
        Opt {
            long: "basecrl".to_owned(),
            short: 'b',
            arity: Arity::Single,
            descr: "base CRL to create a delta CRL for".to_owned(),
        },
    );
    options.push(
        Opt {
            long: "crluri".to_owned(),
            short: 'u',
            arity: Arity::Multiple,
            descr: "freshest delta CRL URI to include".to_owned(),
        },
    );
    options.push(
        Opt {
            long: "cert".to_owned(),
            short: 'z',
            arity: Arity::Multiple,
            descr: "certificate file to revoke".to_owned(),
        },
    );
    options.push(
        Opt {
            long: "serial".to_owned(),
            short: 's',
            arity: Arity::Multiple,
            descr: "hex encoded certificate serial number to revoke".to_owned(),
        },
    );
    options.push(
        Opt {
            long: "reason".to_owned(),
            short: 'r',
            arity: Arity::Multiple,
            descr: "reason for certificate revocation".to_owned(),
        },
    );
    options.push(
        Opt {
            long: "date".to_owned(),
            short: 'd',
            arity: Arity::Multiple,
            descr: "revocation date as unix timestamp, default: now".to_owned(),
        },
    );
    options.push(
        Opt {
            long: "digest".to_owned(),
            short: 'g',
            arity: Arity::Single,
            descr: "digest for signature creation, default: key-specific".to_owned(),
        },
    );
    options.push(
        Opt {
            long: "rsa-padding".to_owned(),
            short: 'R',
            arity: Arity::Single,
            descr: "padding for RSA signatures, default: pkcs1".to_owned(),
        },
    );
    options.push(
        Opt {
            long: "critical".to_owned(),
            short: 'X',
            arity: Arity::Single,
            descr: "critical extension OID to include for test purposes".to_owned(),
        },
    );
    options.push(
        Opt {
            long: "outform".to_owned(),
            short: 'f',
            arity: Arity::Single,
            descr: "encoding of generated crl, default: der".to_owned(),
        },
    );
    Command::new(
        OpKind::Signcrl,
        'c',
        "signcrl".to_owned(),
        "issue a CRL using a CA certificate and key".to_owned(),
        brief,
        options,
    )
}

} // verus!
