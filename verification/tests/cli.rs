//! End-to-end checks of the dispatcher: command selection, help, usage
//! errors, and the per-command behaviors.

use pki::dispatch::{dispatch, dispatch_at, standard_registry};
use pki::parse::parse;
use pki::registry::usage;

fn args(v: &[&str]) -> Vec<String> {
    v.iter().map(|s| s.to_string()).collect()
}

#[test]
fn missing_command_lists_and_fails() {
    let reg = standard_registry();
    let out = dispatch_at(&reg, &args(&[]), 0);
    assert_eq!(out.status, 1);
    assert_eq!(out.lines[0], "command missing");
    assert_eq!(out.lines[1], "usage:");
    assert_eq!(out.lines[2], "  pki command [options]");
    assert_eq!(out.lines[3], "commands:");
    assert_eq!(out.lines[4], "  --help    (-h)  show usage information");
    // one line per registered command follows, in registration order
    assert_eq!(out.lines.len(), 5 + 18);
    assert_eq!(out.lines[5], "  --acert   (-z)  issue an attribute certificate");
    assert_eq!(out.lines[6], "  --dn      (-d)  extract the subject DN of an X.509 certificate");
    assert_eq!(out.lines[22], "  --verify  (-v)  verify a certificate using one or more CA certificates");
}

#[test]
fn help_lists_and_succeeds() {
    let reg = standard_registry();
    let out = dispatch_at(&reg, &args(&["--help"]), 0);
    assert_eq!(out.status, 0);
    assert_eq!(out.lines, usage(&reg));
    // no command operation ran: no operation marker line appears
    assert!(!out.lines.iter().any(|l| l.ends_with("()")));
}

#[test]
fn short_help_works() {
    let reg = standard_registry();
    let out = dispatch_at(&reg, &args(&["-h"]), 0);
    assert_eq!(out.status, 0);
    assert_eq!(out.lines[0], "usage:");
}

#[test]
fn unknown_top_level_flag_is_usage_error() {
    let reg = standard_registry();
    let out = dispatch_at(&reg, &args(&["--nonsense"]), 0);
    assert_eq!(out.status, 2);
    assert_eq!(out.lines[0], "Unrecognized option: 'nonsense'");
    assert_eq!(out.lines[1], "usage:");
}

#[test]
fn no_command_flag_is_silent_success() {
    let reg = standard_registry();
    // a free argument selects no command: nothing runs, and that is
    // deliberately a success, not an error
    let out = dispatch_at(&reg, &args(&["foo"]), 0);
    assert_eq!(out.status, 0);
    assert!(out.lines.is_empty());
}

#[test]
fn verify_without_cacert_is_required_error() {
    let reg = standard_registry();
    let out = dispatch_at(&reg, &args(&["--verify"]), 0);
    assert_eq!(out.status, 2);
    assert_eq!(out.lines, vec!["option '--cacert' is required".to_string()]);
}

#[test]
fn acert_exclusive_issuer_keys_is_usage_error() {
    let reg = standard_registry();
    let out = dispatch_at(
        &reg,
        &args(&["--acert", "--issuerkey", "k1", "--issuerkeyid", "x1", "--issuercert", "c1"]),
        0,
    );
    assert_eq!(out.status, 2);
    assert_eq!(
        out.lines.last().unwrap(),
        "options '--issuerkey' and '--issuerkeyid' can't be set both"
    );
}

#[test]
fn verify_repeated_cacert_keeps_order() {
    let reg = standard_registry();
    let out = dispatch_at(
        &reg,
        &args(&["--verify", "--cacert", "one", "--cacert", "two", "--cacert", "three"]),
        0,
    );
    assert_eq!(out.status, 0);
    assert_eq!(out.lines[0], "option: --cacert one");
    assert_eq!(out.lines[1], "option: --cacert two");
    assert_eq!(out.lines[2], "option: --cacert three");
}

#[test]
fn multiple_option_given_zero_times_is_no_error() {
    let cmd = pki::pki_verify::command();
    let r = parse(&cmd.options, &args(&[])).unwrap();
    assert_eq!(r.opt_strs("l"), Vec::<String>::new());
    assert!(!r.opt_present("l"));
}

#[test]
fn verify_without_in_reads_stdin() {
    let reg = standard_registry();
    let out = dispatch_at(&reg, &args(&["--verify", "--cacert", "x"]), 0);
    assert_eq!(out.status, 0);
    assert!(out.lines.contains(&"option '--in' missing: get input from stdin".to_string()));
}

#[test]
fn parse_same_argv_twice_is_identical() {
    let cmd = pki::pki_verify::command();
    let a = args(&["--cacert", "one", "--online", "extra"]);
    let r1 = parse(&cmd.options, &a).unwrap();
    let r2 = parse(&cmd.options, &a).unwrap();
    assert_eq!(r1, r2);
    assert_eq!(r1.free, vec!["extra".to_string()]);
}

#[test]
fn dispatch_same_argv_twice_is_identical() {
    let reg = standard_registry();
    let a = args(&["--verify", "--cacert", "one"]);
    let o1 = dispatch_at(&reg, &a, 7);
    let o2 = dispatch_at(&reg, &a, 7);
    assert_eq!(o1, o2);
    assert_eq!(o1.status, o2.status);
}

#[test]
fn registry_is_well_formed() {
    let reg = standard_registry();
    assert!(reg.is_well_formed());
    // no two commands share a short character either
    for a in 0..reg.commands.len() {
        for b in a + 1..reg.commands.len() {
            assert_ne!(reg.commands[a].short, reg.commands[b].short);
        }
    }
}

#[test]
fn lookup_by_short_is_deterministic() {
    let reg = standard_registry();
    let first = reg.find_by_short('g');
    let second = reg.find_by_short('g');
    assert_eq!(first, second);
    let idx = first.unwrap();
    assert_eq!(reg.commands[idx].long, "gen");
    assert_eq!(reg.find_by_short('?'), None);
}

#[test]
fn command_usage_error_prints_command_usage() {
    let reg = standard_registry();
    let out = dispatch_at(&reg, &args(&["--verify", "--bogus"]), 0);
    assert_eq!(out.status, 2);
    assert_eq!(out.lines[0], "Unrecognized option: 'bogus'");
    assert_eq!(out.lines[1], "usage:");
    assert_eq!(out.lines[2], "  pki --verify [--in file] [--cacert file]+ [--crl file]");
    assert_eq!(out.lines[3], "options:");
    assert_eq!(out.lines[4], "  --help            (-h)  show usage information");
}

#[test]
fn command_help_prints_command_usage() {
    let reg = standard_registry();
    let out = dispatch_at(&reg, &args(&["--verify", "--help"]), 0);
    assert_eq!(out.status, 0);
    assert_eq!(out.lines[0], "usage:");
    assert!(out.lines.iter().any(|l| l.contains("--cacert")));
    assert!(!out.lines.iter().any(|l| l == "verify()"));
}

#[test]
fn missing_value_is_usage_error() {
    let reg = standard_registry();
    let out = dispatch_at(&reg, &args(&["--verify", "--in"]), 0);
    assert_eq!(out.status, 2);
    assert_eq!(out.lines[0], "Argument to option 'in' missing");
}

#[test]
fn flag_with_value_is_usage_error() {
    let reg = standard_registry();
    let out = dispatch_at(&reg, &args(&["--verify", "--online=x"]), 0);
    assert_eq!(out.status, 2);
    assert_eq!(out.lines[0], "Option 'online' does not take an argument");
}

#[test]
fn duplicated_single_option_is_usage_error() {
    let reg = standard_registry();
    let out = dispatch_at(&reg, &args(&["--verify", "--in", "a", "--in", "b"]), 0);
    assert_eq!(out.status, 2);
    assert_eq!(out.lines[0], "Option 'in' given more than once");
}

#[test]
fn gen_reports_type_and_size() {
    let reg = standard_registry();
    let out = dispatch_at(&reg, &args(&["--gen", "--type", "ed25519", "--size", "256"]), 0);
    assert_eq!(out.status, 0);
    assert_eq!(
        out.lines,
        vec![
            "option: --type ED25519".to_string(),
            "option: --size 256 bits".to_string(),
            "gen()".to_string(),
        ]
    );
}

#[test]
fn gen_rejects_unknown_type() {
    let reg = standard_registry();
    let out = dispatch_at(&reg, &args(&["--gen", "--type", "dsa"]), 0);
    assert_eq!(out.status, 2);
    assert_eq!(out.lines, vec!["invalid key type".to_string()]);
}

#[test]
fn gen_rejects_nonnumeric_size() {
    let reg = standard_registry();
    let out = dispatch_at(&reg, &args(&["--gen", "--size", "big"]), 0);
    assert_eq!(out.status, 2);
    assert_eq!(out.lines.last().unwrap(), "invalid '--size' value");
}

#[test]
fn keyid_renders_request() {
    let reg = standard_registry();
    let out = dispatch_at(&reg, &args(&["--keyid", "--in", "key.der", "--type", "x509"]), 0);
    assert_eq!(out.status, 0);
    assert_eq!(
        out.lines,
        vec![
            "keyid()".to_string(),
            "Certificate { cert_type: X509 }".to_string(),
            "  file: key.der".to_string(),
        ]
    );
}

#[test]
fn keyid_rejects_file_and_keyid_together() {
    let reg = standard_registry();
    let out = dispatch_at(&reg, &args(&["--keyid", "--in", "f", "--keyid", "deadbeef"]), 0);
    assert_eq!(out.status, 2);
    assert_eq!(out.lines, vec!["options '--in' and '--keyid' can't be set both".to_string()]);
}

#[test]
fn est_reports_poll_times_in_seconds() {
    let reg = standard_registry();
    let out = dispatch_at(
        &reg,
        &args(&["--est", "--url", "https://ca", "--cacert", "root.pem", "--maxpolltime", "30"]),
        0,
    );
    assert_eq!(out.status, 0);
    assert!(out.lines.contains(&"option: --interval 60 seconds".to_string()));
    assert!(out.lines.contains(&"option: --maxpolltime 30 seconds".to_string()));
}

#[test]
fn est_requires_key_with_cert() {
    let reg = standard_registry();
    let out = dispatch_at(
        &reg,
        &args(&["--est", "--url", "u", "--cacert", "r", "--cert", "c.pem"]),
        0,
    );
    assert_eq!(out.status, 2);
    assert_eq!(
        out.lines.last().unwrap(),
        "'--key' or '--keyid' is required if '--cert' or '--certid' is set"
    );
}

#[test]
fn scep_requires_cert_with_key() {
    let reg = standard_registry();
    let out = dispatch_at(&reg, &args(&["--scep", "--url", "u", "--key", "k.pem"]), 0);
    assert_eq!(out.status, 2);
    assert_eq!(out.lines.last().unwrap(), "option '--cert' is required if '--key' is set");
}

#[test]
fn signcrl_reports_lifetime_in_seconds() {
    let reg = standard_registry();
    let out = dispatch_at(
        &reg,
        &args(&["--signcrl", "--cacert", "ca.pem", "--cakey", "k.pem", "--lifetime", "2"]),
        0,
    );
    assert_eq!(out.status, 0);
    assert!(out.lines.contains(&"option: --lifetime 172800 seconds".to_string()));
    assert_eq!(out.lines.last().unwrap(), "signcrl()");
}

#[test]
fn signcrl_requires_exactly_one_ca_key() {
    let reg = standard_registry();
    let none = dispatch_at(&reg, &args(&["--signcrl", "--cacert", "ca.pem"]), 0);
    assert_eq!(none.status, 2);
    assert_eq!(none.lines.last().unwrap(), "option '--cakey' or '--cakeyid' is required");
    let both = dispatch_at(
        &reg,
        &args(&["--signcrl", "--cacert", "ca.pem", "--cakey", "k", "--cakeyid", "x"]),
        0,
    );
    assert_eq!(both.status, 2);
    assert_eq!(both.lines.last().unwrap(), "options '--cakey' and '--cakeyid' can't be set both");
}

#[test]
fn issue_builds_certificate_request() {
    let reg = standard_registry();
    let out = dispatch_at(
        &reg,
        &args(&[
            "--issue",
            "--cacert",
            "ca.pem",
            "--cakey",
            "k.pem",
            "--ca",
            "--flag",
            "serverAuth",
            "--crl",
            "http://crl.example/a.crl",
            "--not-before",
            "2020-01-02T03:04:05+0000",
            "--not-after",
            "2020-01-03T03:04:05+0000",
        ]),
        0,
    );
    assert_eq!(out.status, 0);
    assert!(out.lines.contains(&"issue()".to_string()));
    assert!(out.lines.contains(&"Certificate { cert_type: X509 }".to_string()));
    // CA bit and serverAuth bit: 0b1 | 0b1000
    assert!(out.lines.contains(&"  x509_flags: 0b00000001001".to_string()));
    assert!(out.lines.contains(&"  not_before: 1577934245".to_string()));
    assert!(out.lines.contains(&"  not_after:  1578020645".to_string()));
    assert!(out.lines.contains(&"  crl_uris:".to_string()));
    assert!(out.lines.contains(&"    http://crl.example/a.crl".to_string()));
    assert!(out.lines.contains(&"  ocsp_uris:".to_string()));
}

#[test]
fn issue_defaults_validity_from_now() {
    let reg = standard_registry();
    // lifetime defaults to 1095 days of seconds after `now`
    let out = dispatch_at(&reg, &args(&["--issue", "--cacert", "c", "--cakeyid", "x"]), 1000);
    assert_eq!(out.status, 0);
    assert!(out.lines.contains(&"  not_before: 1000".to_string()));
    assert!(out.lines.contains(&format!("  not_after:  {}", 1000i64 + 1095 * 86400)));
}

#[test]
fn issue_rejects_bad_datetime() {
    let reg = standard_registry();
    let out = dispatch_at(
        &reg,
        &args(&["--issue", "--cacert", "c", "--cakey", "k", "--not-before", "yesterday"]),
        0,
    );
    assert_eq!(out.status, 1);
    // the parse error's own message is the last line reported
    assert!(!out.lines.last().unwrap().is_empty());
}

#[test]
fn issue_rejects_unknown_flag_value() {
    let reg = standard_registry();
    let out = dispatch_at(
        &reg,
        &args(&["--issue", "--cacert", "c", "--cakey", "k", "--flag", "quantumSafe"]),
        0,
    );
    assert_eq!(out.status, 2);
    assert_eq!(out.lines.last().unwrap(), "unknown --flag quantumSafe");
}

#[test]
fn dispatch_uses_the_clock_for_issue() {
    let reg = standard_registry();
    let out = dispatch(&reg, &args(&["--issue", "--cacert", "c", "--cakey", "k"]));
    assert_eq!(out.status, 0);
    assert!(out.lines.contains(&"issue()".to_string()));
}

#[test]
fn separator_turns_tokens_into_free_arguments() {
    let cmd = pki::pki_verify::command();
    let r = parse(&cmd.options, &args(&["--cacert", "a", "--", "--cacert", "b"])).unwrap();
    assert_eq!(r.opt_strs("c"), vec!["a".to_string()]);
    assert_eq!(r.free, vec!["--cacert".to_string(), "b".to_string()]);
}

#[test]
fn inline_and_attached_values_are_accepted() {
    let cmd = pki::pki_verify::command();
    let r = parse(&cmd.options, &args(&["--in=file.pem", "-cca.pem"])).unwrap();
    assert_eq!(r.opt_str("i"), Some("file.pem".to_string()));
    assert_eq!(r.opt_strs("c"), vec!["ca.pem".to_string()]);
}

#[test]
fn dn_runs_with_defaults() {
    let reg = standard_registry();
    let out = dispatch_at(&reg, &args(&["--dn"]), 0);
    assert_eq!(out.status, 0);
    assert_eq!(out.lines, vec!["dn()".to_string()]);
}

#[test]
fn ocsp_declares_no_options() {
    let reg = standard_registry();
    let out = dispatch_at(&reg, &args(&["--ocsp"]), 0);
    assert_eq!(out.status, 0);
    assert_eq!(out.lines, vec!["ocsp()".to_string()]);
    // with no declared options, even the help flag is unknown, and the
    // empty usage brief folds the options header into the heading line
    let help = dispatch_at(&reg, &args(&["--ocsp", "--help"]), 0);
    assert_eq!(help.status, 2);
    assert_eq!(
        help.lines,
        vec![
            "Unrecognized option: 'help'".to_string(),
            "usage:".to_string(),
            "  pki --ocsp options:".to_string(),
        ]
    );
}

#[test]
fn pkcs7_reports_mode_flags() {
    let reg = standard_registry();
    let out = dispatch_at(&reg, &args(&["--pkcs7", "--sign", "--in", "f.der"]), 0);
    assert_eq!(out.status, 0);
    assert_eq!(out.lines[0], "option: --in f.der");
    assert_eq!(out.lines[1], "sign:    true");
    assert_eq!(out.lines[2], "verify:  false");
    assert_eq!(out.lines.last().unwrap(), "pkcs7()");
}

#[test]
fn pub_rejects_file_and_keyid_together() {
    let reg = standard_registry();
    let out = dispatch_at(&reg, &args(&["--pub", "--in", "f", "--keyid", "aa"]), 0);
    assert_eq!(out.status, 2);
    assert_eq!(out.lines.last().unwrap(), "options '--in' and '--keyid' can't be set both");
}

#[test]
fn self_falls_back_to_stdin() {
    let reg = standard_registry();
    let out = dispatch_at(&reg, &args(&["--self", "--dn", "C=CH, CN=x"]), 0);
    assert_eq!(out.status, 0);
    assert!(out.lines.contains(
        &"option '--in' or '--keyid' missing: get input from stdin".to_string()
    ));
    assert!(out.lines.contains(&"ca flag:  false".to_string()));
    assert_eq!(out.lines.last().unwrap(), "self()");
}
