//! Issue a certificate using a CA certificate and key.

use vstd::prelude::*;
use vstd::string::*;

use crate::Arity;
use crate::CmdOutV;
use crate::CmdOutcome;
use crate::Command;
use crate::OpKind;
use crate::Opt;
use crate::datetime::datetime_parse_of;
use crate::datetime::now_epoch;
use crate::datetime::parse_datetime_epoch;
use crate::parse::ParsedOptions;
use crate::parse::ParsedV;
use crate::parse::spec_opt_str;
use crate::parse::spec_present;
use crate::parse::spec_values;
use crate::report::MAX_LIFETIME_DAYS;
use crate::report::opt_str_or_empty;
use crate::report::push_in_seg;
use crate::report::push_multi_seg;
use crate::report::push_opt_seg;
use crate::report::spec_in_seg;
use crate::report::spec_lifetime_days;
use crate::report::spec_multi_seg;
use crate::report::spec_opt_seg;
use crate::report::spec_or_empty;
use crate::report::spec_u32_or;
use crate::strongswan::creds::Builder;
use crate::strongswan::creds::BuilderV;
use crate::strongswan::creds::CredType;
use crate::strongswan::creds::certs::CertType;
use crate::strongswan::creds::spec_build_lines;
use crate::strongswan::x509::FLAG_CA;
use crate::strongswan::x509::FLAG_CLIENT_AUTH;
use crate::strongswan::x509::FLAG_CRL_SIGN;
use crate::strongswan::x509::FLAG_IKE_INTERMEDIATE;
use crate::strongswan::x509::FLAG_MS_SMARTCARD_LOGON;
use crate::strongswan::x509::FLAG_NONE;
use crate::strongswan::x509::FLAG_OCSP_SIGNER;
use crate::strongswan::x509::FLAG_SERVER_AUTH;
use crate::strongswan::x509::X509Flag;
use crate::strongswan::x509::X509_NO_CONSTRAINT;
use crate::text::both_set_line;
use crate::text::either_required_line;
use crate::text::invalid_value_line;
use crate::text::opt_line;
use crate::text::parse_i64;
use crate::text::parse_u32;
use crate::text::required_line;
use crate::text::spec_both_set_line;
use crate::text::spec_dec_digits;
use crate::text::spec_either_required_line;
use crate::text::spec_invalid_value_line;
use crate::text::spec_opt_line;
use crate::text::spec_required_line;
use crate::text::str_eq;
use crate::text::u32_to_string;

verus! {

/// The extended-key-usage bits a list of `--flag` values adds to `acc`, or
/// the first value that names no known flag.
pub open spec fn spec_issue_flags(vals: Seq<Seq<char>>, acc: u32) -> Result<u32, Seq<char>>
    decreases vals.len(),
{
    if vals.len() == 0 {
        Ok(acc)
    } else {
        let f = vals[0];
        if f == "serverAuth"@ {
            spec_issue_flags(vals.drop_first(), acc | FLAG_SERVER_AUTH)
        } else if f == "clientAuth"@ {
            spec_issue_flags(vals.drop_first(), acc | FLAG_CLIENT_AUTH)
        } else if f == "ikeIntermediate"@ {
            spec_issue_flags(vals.drop_first(), acc | FLAG_IKE_INTERMEDIATE)
        } else if f == "crlSign"@ {
            spec_issue_flags(vals.drop_first(), acc | FLAG_CRL_SIGN)
        } else if f == "ocspSigning"@ {
            spec_issue_flags(vals.drop_first(), acc | FLAG_OCSP_SIGNER)
        } else if f == "msSmartcardLogon"@ {
            spec_issue_flags(vals.drop_first(), acc | FLAG_MS_SMARTCARD_LOGON)
        } else {
            Err(f)
        }
    }
}

/// The `--dateform` value, or the default format.
pub open spec fn spec_issue_dateform(m: ParsedV) -> Seq<char> {
    match spec_opt_str(m, "D"@) {
        Some(v) => v,
        None => "%Y-%m-%dT%H:%M:%S%z"@,
    }
}

/// The later stages of the issue report, once the validity window is known:
/// the remaining option reports, the numeric policy constraints, and the
/// rendering of the accumulated request.
pub open spec fn spec_issue_tail(m: ParsedV, head: Seq<Seq<char>>, nb: i64, na: i64) -> CmdOutV {
    let head3 = head + spec_opt_seg(m, "s"@, "serial"@);
    match spec_u32_or(m, "p"@, X509_NO_CONSTRAINT) {
        None => CmdOutV { lines: head3 + seq![spec_invalid_value_line("pathlen"@)], status: 2 },
        Some(pathlen) => {
            let head4 = head3 + seq![
                spec_opt_line("pathlen"@, spec_dec_digits(pathlen as nat)),
            ];
            let flags0: u32 = if spec_present(m, "b"@) {
                FLAG_NONE | FLAG_CA
            } else {
                FLAG_NONE
            };
            match spec_issue_flags(spec_values(m, "e"@), flags0) {
                Err(f) => CmdOutV { lines: head4 + seq!["unknown --flag "@ + f], status: 2 },
                Ok(bits) => {
                    let head5 = head4 + spec_multi_seg(m, "I"@, "crlissuer"@) + spec_multi_seg(
                        m,
                        "B"@,
                        "addrblock"@,
                    ) + spec_multi_seg(m, "n"@, "nc-permitted"@) + spec_multi_seg(
                        m,
                        "N"@,
                        "nc-excluded"@,
                    ) + spec_multi_seg(m, "M"@, "policy-mapping"@);
                    match spec_u32_or(m, "E"@, X509_NO_CONSTRAINT) {
                        None => CmdOutV {
                            lines: head5 + seq![spec_invalid_value_line("policy-explicit"@)],
                            status: 2,
                        },
                        Some(re) => {
                            let head6 = head5 + seq![
                                spec_opt_line("policy-explicit"@, spec_dec_digits(re as nat)),
                            ];
                            match spec_u32_or(m, "H"@, X509_NO_CONSTRAINT) {
                                None => CmdOutV {
                                    lines: head6 + seq![
                                        spec_invalid_value_line("policy-inhibit"@),
                                    ],
                                    status: 2,
                                },
                                Some(im) => {
                                    let head7 = head6 + seq![
                                        spec_opt_line(
                                            "policy-inhibit"@,
                                            spec_dec_digits(im as nat),
                                        ),
                                    ];
                                    match spec_u32_or(m, "A"@, X509_NO_CONSTRAINT) {
                                        None => CmdOutV {
                                            lines: head7 + seq![
                                                spec_invalid_value_line("policy-any"@),
                                            ],
                                            status: 2,
                                        },
                                        Some(ia) => {
                                            let head8 = head7 + seq![
                                                spec_opt_line(
                                                    "policy-any"@,
                                                    spec_dec_digits(ia as nat),
                                                ),
                                            ] + spec_multi_seg(m, "P"@, "cert-policy"@)
                                                + spec_multi_seg(m, "C"@, "cps-uri"@)
                                                + spec_multi_seg(m, "U"@, "user-notice"@)
                                                + spec_opt_seg(m, "X"@, "critical"@)
                                                + spec_opt_seg(m, "g"@, "digest"@) + spec_opt_seg(
                                                m,
                                                "R"@,
                                                "rsa-padding"@,
                                            ) + spec_opt_seg(m, "f"@, "outform"@) + seq![
                                                "issue()"@,
                                            ];
                                            let b = BuilderV {
                                                cred_type: CredType::Certificate {
                                                    cert_type: CertType::X509,
                                                },
                                                file: None,
                                                keyid: None,
                                                x509_flags: Some(X509Flag { bits }),
                                                not_before: Some(nb),
                                                not_after: Some(na),
                                                crl_uris: Some(spec_values(m, "u"@)),
                                                ocsp_uris: Some(spec_values(m, "o"@)),
                                            };
                                            CmdOutV {
                                                lines: head8 + spec_build_lines(b),
                                                status: 0,
                                            }
                                        },
                                    }
                                },
                            }
                        },
                    }
                },
            }
        },
    }
}

/// What the issue command answers, with `now` the current time: the CA
/// certificate is required, exactly one of the CA key file and key handle
/// must be given, the validity window comes from the date options (by
/// default, from `now` to `now` plus the lifetime), and the accumulated
/// request is rendered at the end.
pub open spec fn spec_issue(m: ParsedV, now: i64) -> CmdOutV {
    match spec_opt_str(m, "c"@) {
        None => CmdOutV { lines: seq![spec_required_line("cacert"@)], status: 2 },
        Some(cacert) => {
            let cakey = spec_or_empty(m, "k"@);
            let cakeyid = spec_or_empty(m, "x"@);
            let head = seq![
                spec_opt_line("cacert"@, cacert),
                spec_opt_line("cakey"@, cakey),
                spec_opt_line("cakeyid"@, cakeyid),
            ];
            if cakey.len() == 0 && cakeyid.len() == 0 {
                CmdOutV {
                    lines: head + seq![spec_either_required_line("cakey"@, "cakeyid"@)],
                    status: 2,
                }
            } else if cakey.len() > 0 && cakeyid.len() > 0 {
                CmdOutV {
                    lines: head + seq![spec_both_set_line("cakey"@, "cakeyid"@)],
                    status: 2,
                }
            } else {
                let head2 = head + spec_in_seg(m, "i"@, "in"@) + spec_opt_seg(m, "t"@, "type"@)
                    + spec_opt_seg(m, "d"@, "dn"@) + spec_multi_seg(m, "a"@, "san"@);
                match spec_lifetime_days(m, "l"@, 1095) {
                    None => CmdOutV {
                        lines: head2 + seq![spec_invalid_value_line("lifetime"@)],
                        status: 2,
                    },
                    Some(days) => {
                        let lifetime = 86400 * (days as int);
                        let dateform = spec_issue_dateform(m);
                        let nb_r = match spec_opt_str(m, "F"@) {
                            Some(v) => datetime_parse_of(v, dateform),
                            None => Ok(now),
                        };
                        match nb_r {
                            Err(e) => CmdOutV { lines: head2 + seq![e], status: 1 },
                            Ok(nb) => {
                                match spec_opt_str(m, "T"@) {
                                    Some(v) => match datetime_parse_of(v, dateform) {
                                        Err(e) => CmdOutV {
                                            lines: head2 + seq![e],
                                            status: 1,
                                        },
                                        Ok(na) => spec_issue_tail(m, head2, nb, na),
                                    },
                                    None => {
                                        if i64::MIN <= nb + lifetime <= i64::MAX {
                                            spec_issue_tail(
                                                m,
                                                head2,
                                                nb,
                                                (nb + lifetime) as i64,
                                            )
                                        } else {
                                            CmdOutV {
                                                lines: head2 + seq![
                                                    spec_invalid_value_line("lifetime"@),
                                                ],
                                                status: 2,
                                            }
                                        }
                                    },
                                }
                            },
                        }
                    },
                }
            }
        },
    }
}

/// The later stages of the issue command, once the validity window is known:
/// they extend the report lines built so far.
#[verifier::rlimit(100)]
#[verifier::loop_isolation(false)]
fn pki_issue_tail(m: &ParsedOptions, lines: Vec<String>, nb: i64, na: i64) -> (r: CmdOutcome)
    ensures
        r@ == spec_issue_tail(m@, lines.deep_view(), nb, na),
{
    let ghost head = lines.deep_view();
    let mut lines = lines;
    push_opt_seg(&mut lines, m, "s", "serial");
    let ghost head3 = head + spec_opt_seg(m@, "s"@, "serial"@);
    proof {
        assert(lines.deep_view() =~= head3);
    }
    let pathlen: u32 = match m.opt_str("p") {
        Some(s) => {
            match parse_u32(s.as_str()) {
                Some(n) => n,
                None => {
                    lines.push(invalid_value_line("pathlen"));
                    proof {
                        assert(lines.deep_view() =~= spec_issue_tail(m@, head, nb, na).lines);
                    }
                    return CmdOutcome { lines, status: 2 };
                },
            }
        },
        None => X509_NO_CONSTRAINT,
    };
    lines.push(opt_line("pathlen", u32_to_string(pathlen).as_str()));
    let ghost head4 = head3 + seq![spec_opt_line("pathlen"@, spec_dec_digits(pathlen as nat))];
    proof {
        assert(lines.deep_view() =~= head4);
    }
    let mut bits: u32 = if m.opt_present("b") {
        FLAG_NONE | FLAG_CA
    } else {
        FLAG_NONE
    };
    let ghost bits0 = bits;
    let fvals = m.opt_strs("e");
    let ghost fv = spec_values(m@, "e"@);
    let mut k: usize = 0;
    proof {
        assert(fv.skip(0) =~= fv);
    }
    while k < fvals.len()
        invariant
            k <= fvals.len(),
            fvals.deep_view() == fv,
            fv == spec_values(m@, "e"@),
            lines.deep_view() == head4,
            head4 == head + spec_opt_seg(m@, "s"@, "serial"@) + seq![
                spec_opt_line("pathlen"@, spec_dec_digits(pathlen as nat)),
            ],
            spec_issue_flags(fv.skip(k as int), bits) == spec_issue_flags(fv, bits0),
        decreases fvals.len() - k,
    {
        let f = &fvals[k];
        proof {
            assert(f@ == fv[k as int]);
            assert(fv.skip(k as int)[0] == fv[k as int]);
            assert(fv.skip(k as int).drop_first() =~= fv.skip(k + 1));
        }
        if str_eq(f.as_str(), "serverAuth") {
            bits = bits | FLAG_SERVER_AUTH;
        } else if str_eq(f.as_str(), "clientAuth") {
            bits = bits | FLAG_CLIENT_AUTH;
        } else if str_eq(f.as_str(), "ikeIntermediate") {
            bits = bits | FLAG_IKE_INTERMEDIATE;
        } else if str_eq(f.as_str(), "crlSign") {
            bits = bits | FLAG_CRL_SIGN;
        } else if str_eq(f.as_str(), "ocspSigning") {
            bits = bits | FLAG_OCSP_SIGNER;
        } else if str_eq(f.as_str(), "msSmartcardLogon") {
            bits = bits | FLAG_MS_SMARTCARD_LOGON;
        } else {
            lines.push("unknown --flag ".to_owned().concat(f.as_str()));
            proof {
                assert(spec_issue_flags(fv, bits0) == Err::<u32, Seq<char>>(fv[k as int]));
                assert(lines.deep_view() =~= head4.push("unknown --flag "@ + fv[k as int]));
                assert(lines.deep_view() =~= spec_issue_tail(m@, head, nb, na).lines);
            }
            return CmdOutcome { lines, status: 2 };
        }
        k += 1;
    }
    proof {
        assert(fv.skip(fvals.len() as int) =~= Seq::<Seq<char>>::empty());
        assert(spec_issue_flags(fv, bits0) == Ok::<u32, Seq<char>>(bits));
    }
    push_multi_seg(&mut lines, m, "I", "crlissuer");
    push_multi_seg(&mut lines, m, "B", "addrblock");
    push_multi_seg(&mut lines, m, "n", "nc-permitted");
    push_multi_seg(&mut lines, m, "N", "nc-excluded");
    push_multi_seg(&mut lines, m, "M", "policy-mapping");
    let ghost head5 = head4 + spec_multi_seg(m@, "I"@, "crlissuer"@) + spec_multi_seg(
        m@,
        "B"@,
        "addrblock"@,
    ) + spec_multi_seg(m@, "n"@, "nc-permitted"@) + spec_multi_seg(m@, "N"@, "nc-excluded"@)
        + spec_multi_seg(m@, "M"@, "policy-mapping"@);
    proof {
        assert(lines.deep_view() =~= head5);
    }
    let require_explicit: u32 = match m.opt_str("E") {
        Some(s) => {
            match parse_u32(s.as_str()) {
                Some(n) => n,
                None => {
                    lines.push(invalid_value_line("policy-explicit"));
                    proof {
                        assert(lines.deep_view() =~= spec_issue_tail(m@, head, nb, na).lines);
                    }
                    return CmdOutcome { lines, status: 2 };
                },
            }
        },
        None => X509_NO_CONSTRAINT,
    };
    lines.push(opt_line("policy-explicit", u32_to_string(require_explicit).as_str()));
    let ghost head6 = head5 + seq![
        spec_opt_line("policy-explicit"@, spec_dec_digits(require_explicit as nat)),
    ];
    proof {
        assert(lines.deep_view() =~= head6);
    }
    let inhibit_mapping: u32 = match m.opt_str("H") {
        Some(s) => {
            match parse_u32(s.as_str()) {
                Some(n) => n,
                None => {
                    lines.push(invalid_value_line("policy-inhibit"));
                    proof {
                        assert(lines.deep_view() =~= spec_issue_tail(m@, head, nb, na).lines);
                    }
                    return CmdOutcome { lines, status: 2 };
                },
            }
        },
        None => X509_NO_CONSTRAINT,
    };
    lines.push(opt_line("policy-inhibit", u32_to_string(inhibit_mapping).as_str()));
    let ghost head7 = head6 + seq![
        spec_opt_line("policy-inhibit"@, spec_dec_digits(inhibit_mapping as nat)),
    ];
    proof {
        assert(lines.deep_view() =~= head7);
    }
    let inhibit_any: u32 = match m.opt_str("A") {
        Some(s) => {
            match parse_u32(s.as_str()) {
                Some(n) => n,
                None => {
                    lines.push(invalid_value_line("policy-any"));
                    proof {
                        assert(lines.deep_view() =~= spec_issue_tail(m@, head, nb, na).lines);
                    }
                    return CmdOutcome { lines, status: 2 };
                },
            }
        },
        None => X509_NO_CONSTRAINT,
    };
    lines.push(opt_line("policy-any", u32_to_string(inhibit_any).as_str()));
    let ghost head7a = head7 + seq![
        spec_opt_line("policy-any"@, spec_dec_digits(inhibit_any as nat)),
    ];
    proof {
        assert(lines.deep_view() =~= head7a);
    }
    push_multi_seg(&mut lines, m, "P", "cert-policy");
    push_multi_seg(&mut lines, m, "C", "cps-uri");
    push_multi_seg(&mut lines, m, "U", "user-notice");
    let ghost head7b = head7a + spec_multi_seg(m@, "P"@, "cert-policy"@) + spec_multi_seg(
        m@,
        "C"@,
        "cps-uri"@,
    ) + spec_multi_seg(m@, "U"@, "user-notice"@);
    proof {
        assert(lines.deep_view() =~= head7b);
    }
    push_opt_seg(&mut lines, m, "X", "critical");
    push_opt_seg(&mut lines, m, "g", "digest");
    push_opt_seg(&mut lines, m, "R", "rsa-padding");
    push_opt_seg(&mut lines, m, "f", "outform");
    lines.push("issue()".to_owned());
    let ghost head8 = head7b + spec_opt_seg(m@, "X"@, "critical"@) + spec_opt_seg(
        m@,
        "g"@,
        "digest"@,
    ) + spec_opt_seg(m@, "R"@, "rsa-padding"@) + spec_opt_seg(m@, "f"@, "outform"@) + seq![
        "issue()"@,
    ];
    proof {
        assert(lines.deep_view() =~= head8);
    }
    let crl_uris = m.opt_strs("u");
    let ocsp_uris = m.opt_strs("o");
    let cred = CredType::Certificate { cert_type: CertType::X509 };
    let builder = Builder::new(&cred).x509_flags(Some(X509Flag { bits })).not_before(
        Some(nb),
    ).not_after(Some(na)).crl_uris(Some(&crl_uris)).ocsp_uris(Some(&ocsp_uris));
    let ghost bv = builder@;
    let (mut blines, ok) = builder.build();
    lines.append(&mut blines);
    proof {
        assert(bv == (BuilderV {
            cred_type: CredType::Certificate { cert_type: CertType::X509 },
            file: None,
            keyid: None,
            x509_flags: Some(X509Flag { bits }),
            not_before: Some(nb),
            not_after: Some(na),
            crl_uris: Some(spec_values(m@, "u"@)),
            ocsp_uris: Some(spec_values(m@, "o"@)),
        }));
        assert(lines.deep_view() =~= head8 + spec_build_lines(bv));
        assert(lines.deep_view() =~= spec_issue_tail(m@, head, nb, na).lines);
    }
    let status: u8 = if ok {
        0
    } else {
        1
    };
    CmdOutcome { lines, status }
}

/// Issue a certificate, with `now` the current time in epoch seconds.
pub fn pki_issue_at(m: &ParsedOptions, now: i64) -> (r: CmdOutcome)
    ensures
        r@ == spec_issue(m@, now),
{
    let mut lines: Vec<String> = Vec::new();
    let cacert = match m.opt_str("c") {
        Some(v) => v,
        None => {
            lines.push(required_line("cacert"));
            proof {
                assert(lines.deep_view() =~= spec_issue(m@, now).lines);
            }
            return CmdOutcome { lines, status: 2 };
        },
    };
    lines.push(opt_line("cacert", cacert.as_str()));
    let cakey = opt_str_or_empty(m, "k");
    lines.push(opt_line("cakey", cakey.as_str()));
    let cakeyid = opt_str_or_empty(m, "x");
    lines.push(opt_line("cakeyid", cakeyid.as_str()));
    let ghost head = seq![
        spec_opt_line("cacert"@, cacert@),
        spec_opt_line("cakey"@, spec_or_empty(m@, "k"@)),
        spec_opt_line("cakeyid"@, spec_or_empty(m@, "x"@)),
    ];
    proof {
        assert(lines.deep_view() =~= head);
    }
    if cakey.as_str().is_empty() && cakeyid.as_str().is_empty() {
        lines.push(either_required_line("cakey", "cakeyid"));
        proof {
            assert(lines.deep_view() =~= spec_issue(m@, now).lines);
        }
        return CmdOutcome { lines, status: 2 };
    }
    if !cakey.as_str().is_empty() && !cakeyid.as_str().is_empty() {
        lines.push(both_set_line("cakey", "cakeyid"));
        proof {
            assert(lines.deep_view() =~= spec_issue(m@, now).lines);
        }
        return CmdOutcome { lines, status: 2 };
    }
    push_in_seg(&mut lines, m, "i", "in");
    push_opt_seg(&mut lines, m, "t", "type");
    push_opt_seg(&mut lines, m, "d", "dn");
    push_multi_seg(&mut lines, m, "a", "san");
    let ghost head2 = head + spec_in_seg(m@, "i"@, "in"@) + spec_opt_seg(m@, "t"@, "type"@)
        + spec_opt_seg(m@, "d"@, "dn"@) + spec_multi_seg(m@, "a"@, "san"@);
    proof {
        assert(lines.deep_view() =~= head2);
    }
    let days: i64 = match m.opt_str("l") {
        Some(s) => {
            match parse_i64(s.as_str()) {
                Some(d) => d,
                None => {
                    lines.push(invalid_value_line("lifetime"));
                    proof {
                        assert(lines.deep_view() =~= spec_issue(m@, now).lines);
                    }
                    return CmdOutcome { lines, status: 2 };
                },
            }
        },
        None => 1095,
    };
    if days > MAX_LIFETIME_DAYS || days < -MAX_LIFETIME_DAYS {
        lines.push(invalid_value_line("lifetime"));
        proof {
            assert(lines.deep_view() =~= spec_issue(m@, now).lines);
        }
        return CmdOutcome { lines, status: 2 };
    }
    proof {
        assert(-0x7fffffffffffffff <= 86400 * (days as int) <= 0x7fffffffffffffff);
    }
    let lifetime: i64 = 24 * 60 * 60 * days;
    let dateform: String = match m.opt_str("D") {
        Some(v) => v,
        None => "%Y-%m-%dT%H:%M:%S%z".to_owned(),
    };
    proof {
        assert(dateform@ == spec_issue_dateform(m@));
    }
    let not_before: i64 = match m.opt_str("F") {
        Some(v) => {
            match parse_datetime_epoch(v.as_str(), dateform.as_str()) {
                Ok(t) => t,
                Err(e) => {
                    lines.push(e);
                    proof {
                        assert(lines.deep_view() =~= spec_issue(m@, now).lines);
                    }
                    return CmdOutcome { lines, status: 1 };
                },
            }
        },
        None => now,
    };
    let not_after: i64 = match m.opt_str("T") {
        Some(v) => {
            match parse_datetime_epoch(v.as_str(), dateform.as_str()) {
                Ok(t) => t,
                Err(e) => {
                    lines.push(e);
                    proof {
                        assert(lines.deep_view() =~= spec_issue(m@, now).lines);
                    }
                    return CmdOutcome { lines, status: 1 };
                },
            }
        },
        None => {
            let sum: i128 = not_before as i128 + lifetime as i128;
            if sum > i64::MAX as i128 || sum < i64::MIN as i128 {
                lines.push(invalid_value_line("lifetime"));
                proof {
                    assert(lines.deep_view() =~= spec_issue(m@, now).lines);
                }
                return CmdOutcome { lines, status: 2 };
            }
            sum as i64
        },
    };
    let r = pki_issue_tail(m, lines, not_before, not_after);
    proof {
        assert(spec_issue(m@, now) == spec_issue_tail(m@, head2, not_before, not_after));
    }
    r
}

/// Issue a certificate using a CA certificate and key. The validity window
/// defaults to starting now, so the outcome is that of [`pki_issue_at`] at
/// the moment of the call.
pub fn pki_issue(m: &ParsedOptions) -> (r: CmdOutcome)
    ensures
        exists|now: i64| r@ == spec_issue(m@, now),
{
    let now = now_epoch();
    let r = pki_issue_at(m, now);
    proof {
        assert(r@ == spec_issue(m@, now));
    }
    r
}

/// The descriptor of the issue command.
pub fn command() -> (r: Command)
    ensures
        r@.op == OpKind::Issue,
        r@.short == 'i',
        r@.long == "issue"@,
{
    let mut brief: Vec<String> = Vec::new();
    brief.push("[--in file] [--type pub|pkcs10|priv|rsa|ecdsa|ed25519|ed448]".to_owned());
    brief.push(" --cakey file|--cakeyid hex --cacert file [--dn subject-dn]".to_owned());
    brief.push("[--san subjectAltName]+ [--lifetime days] [--serial hex]".to_owned());
    brief.push("[--not-before datetime] [--not-after datetime] [--dateform form]".to_owned());
    brief.push("[--ca] [--pathlen len] [--addrblock block]+".to_owned());
    brief.push(
        "[--flag serverAuth|clientAuth|crlSign|ocspSigning|msSmartcardLogon]+".to_owned(),
    );
    brief.push("[--crl uri [--crlissuer i]]+ [--ocsp uri]+ [--nc-permitted name]+".to_owned());
    brief.push("[--nc-excluded name]+ [--policy-mapping issuer-oid:subject-oid]+".to_owned());
    brief.push("[--policy-explicit len] [--policy-inhibit len] [--policy-any len]".to_owned());
    brief.push("[--cert-policy oid [--cps-uri uri] [--user-notice text]]+".to_owned());
    brief.push(
        "[--digest md5|sha1|sha224|sha256|sha384|sha512|sha3_224|sha3_256|sha3_384|sha3_512]"
            .to_owned(),
    );
    brief.push("[--rsa-padding pkcs1|pss] [--critical oid]".to_owned());
    brief.push("[--outform der|pem]".to_owned());
    let mut options: Vec<Opt> = Vec::new();
    options.push(
        Opt {
            long: "help".to_owned(),
            short: 'h',
            arity: Arity::Flag,
            descr: "show usage information".to_owned(),
        },
    );
    options.push(
        Opt {
            long: "in".to_owned(),
            short: 'i',
            arity: Arity::Single,
            descr: "key/request file to issue, default: stdin".to_owned(),
        },
    );
    options.push(
        Opt {
            long: "type".to_owned(),
            short: 't',
            arity: Arity::Single,
            descr: "type of input, default: pub".to_owned(),
        },
    );
    options.push(
        Opt {
            long: "cacert".to_owned(),
            short: 'c',
            arity: Arity::Single,
            descr: "CA certificate file".to_owned(),
        },
    );
    options.push(
        Opt {
            long: "cakey".to_owned(),
            short: 'k',
            arity: Arity::Single,
            descr: "CA private key file".to_owned(),
        },
    );
    options.push(
        Opt {
            long: "cakeyid".to_owned(),
            short: 'x',
            arity: Arity::Single,
            descr: "smartcard or TPM CA private key object handle".to_owned(),
        },
    );
    options.push(
        Opt {
            long: "dn".to_owned(),
            short: 'd',
            arity: Arity::Single,
            descr: "distinguished name to include as subject".to_owned(),
        },
    );
    options.push(
        Opt {
            long: "san".to_owned(),
            short: 'a',
            arity: Arity::Multiple,
            descr: "subjectAltName to include in certificate".to_owned(),
        },
    );
    options.push(
        Opt {
            long: "lifetime".to_owned(),
            short: 'l',
            arity: Arity::Single,
            descr: "days the certificate is valid, default: 1095".to_owned(),
        },
    );
    options.push(
        Opt {
            long: "not-before".to_owned(),
            short: 'F',
            arity: Arity::Single,
            descr: "date/time the validity of the cert starts".to_owned(),
        },
    );
    options.push(
        Opt {
            long: "not-after".to_owned(),
            short: 'T',
            arity: Arity::Single,
            descr: "date/time the validity of the cert ends".to_owned(),
        },
    );
    options.push(
        Opt {
            long: "dateform".to_owned(),
            short: 'D',
            arity: Arity::Single,
            descr: "strptime(3) input format, default: %d.%m.%y %T".to_owned(),
        },
    );
    options.push(
        Opt {
            long: "serial".to_owned(),
            short: 's',
            arity: Arity::Single,
            descr: "serial number in hex, default: random".to_owned(),
        },
    );
    options.push(
        Opt {
            long: "ca".to_owned(),
            short: 'b',
            arity: Arity::Flag,
            descr: "include CA basicConstraint, default: no".to_owned(),
        },
    );
    options.push(
        Opt {
            long: "pathlen".to_owned(),
            short: 'p',
            arity: Arity::Single,
            descr: "set path length constraint".to_owned(),
        },
    );
    options.push(
        Opt {
            long: "addrblock".to_owned(),
            short: 'B',
            arity: Arity::Multiple,
            descr: "RFC 3779 addrBlock to include".to_owned(),
        },
    );
    options.push(
        Opt {
            long: "nc-permitted".to_owned(),
            short: 'n',
            arity: Arity::Multiple,
            descr: "add permitted NameConstraint".to_owned(),
        },
    );
    options.push(
        Opt {
            long: "nc-excluded".to_owned(),
            short: 'N',
            arity: Arity::Multiple,
            descr: "add excluded NameConstraint".to_owned(),
        },
    );
    options.push(
        Opt {
            long: "cert-policy".to_owned(),
            short: 'P',
            arity: Arity::Multiple,
            descr: "certificatePolicy OID to include".to_owned(),
        },
    );
    options.push(
        Opt {
            long: "cps-uri".to_owned(),
            short: 'C',
            arity: Arity::Multiple,
            descr: "Certification Practice statement URI for certificatePolicy".to_owned(),
        },
    );
    options.push(
        Opt {
            long: "user-notice".to_owned(),
            short: 'U',
            arity: Arity::Multiple,
            descr: "user notice for certificatePolicy".to_owned(),
        },
    );
    options.push(
        Opt {
            long: "policy-mapping".to_owned(),
            short: 'M',
            arity: Arity::Multiple,
            descr: "policyMapping from issuer to subject OID".to_owned(),
        },
    );
    options.push(
        Opt {
            long: "policy-explicit".to_owned(),
            short: 'E',
            arity: Arity::Single,
            descr: "requireExplicitPolicy constraint".to_owned(),
        },
    );
    options.push(
        Opt {
            long: "policy-inhibit".to_owned(),
            short: 'H',
            arity: Arity::Single,
            descr: "inhibitPolicyMapping constraint".to_owned(),
        },
    );
    options.push(
        Opt {
            long: "policy-any".to_owned(),
            short: 'A',
            arity: Arity::Single,
            descr: "inhibitAnyPolicy constraint".to_owned(),
        },
    );
    options.push(
        Opt {
            long: "flag".to_owned(),
            short: 'e',
            arity: Arity::Multiple,
            descr: "include extendedKeyUsage flag".to_owned(),
        },
    );
    options.push(
        Opt {
            long: "crl".to_owned(),
            short: 'u',
            arity: Arity::Multiple,
            descr: "CRL distribution point URI to include".to_owned(),
        },
    );
    options.push(
        Opt {
            long: "crlissuer".to_owned(),
            short: 'I',
            arity: Arity::Multiple,
            descr: "CRL Issuer for CRL at distribution point".to_owned(),
        },
    );
    options.push(
        Opt {
            long: "ocsp".to_owned(),
            short: 'o',
            arity: Arity::Multiple,
            descr: "OCSP AuthorityInfoAccess URI to include".to_owned(),
        },
    );
    options.push(
        Opt {
            long: "digest".to_owned(),
            short: 'g',
            arity: Arity::Single,
            descr: "digest for signature creation, default: key-specific".to_owned(),
        },
    );
    options.push(
        Opt {
            long: "rsa-padding".to_owned(),
            short: 'R',
            arity: Arity::Single,
            descr: "padding for RSA signatures, default: pkcs1".to_owned(),
        },
    );
    options.push(
        Opt {
            long: "critical".to_owned(),
            short: 'X',
            arity: Arity::Single,
            descr: "critical extension OID to include".to_owned(),
        },
    );
    options.push(
        Opt {
            long: "outform".to_owned(),
            short: 'f',
            arity: Arity::Single,
            descr: "encoding of generated cert, default: der".to_owned(),
        },
    );
    Command::new(
        OpKind::Issue,
        'i',
        "issue".to_owned(),
        "issue an attribute certificate".to_owned(),
        brief,
        options,
    )
}

} // verus!
