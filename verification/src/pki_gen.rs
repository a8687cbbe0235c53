//! Generate a new private key.

use vstd::prelude::*;
use vstd::string::*;

use crate::Arity;
use crate::CmdOutV;
use crate::CmdOutcome;
use crate::Command;
use crate::OpKind;
use crate::Opt;
use crate::parse::ParsedOptions;
use crate::parse::ParsedV;
use crate::parse::spec_opt_str;
use crate::report::push_opt_seg;
use crate::report::spec_opt_seg;
use crate::strongswan::creds::key_type_str;
use crate::strongswan::creds::keys::KeyType;
use crate::strongswan::creds::spec_key_type_str;
use crate::text::invalid_value_line;
use crate::text::opt_line;
use crate::text::parse_u32;
use crate::text::spec_dec_digits;
use crate::text::spec_invalid_value_line;
use crate::text::spec_opt_line;
use crate::text::spec_parse_u32;
use crate::text::str_eq;
use crate::text::u32_to_string;

verus! {

/// The key type a `--type` value names, if any; RSA when the option is
/// absent.
pub open spec fn spec_gen_key_type(m: ParsedV) -> Option<KeyType> {
    match spec_opt_str(m, "t"@) {
        Some(t) => if t == "rsa"@ {
            Some(KeyType::RSA)
        } else if t == "ecdsa"@ {
            Some(KeyType::ECDSA)
        } else if t == "ed25519"@ {
            Some(KeyType::ED25519)
        } else if t == "ed448"@ {
            Some(KeyType::ED448)
        } else {
            None
        },
        None => Some(KeyType::RSA),
    }
}

/// What the gen command answers: an unknown key type or a non-numeric size
/// is refused; otherwise the chosen type, the key length and the encoding
/// are reported.
pub open spec fn spec_gen(m: ParsedV) -> CmdOutV {
    match spec_gen_key_type(m) {
        None => CmdOutV { lines: seq!["invalid key type"@], status: 2 },
        Some(k) => {
            let head = seq!["option: --type "@ + spec_key_type_str(k)];
            let size = match spec_opt_str(m, "s"@) {
                Some(s) => spec_parse_u32(s),
                None => Some(0u32),
            };
            match size {
                None => CmdOutV {
                    lines: head + seq![spec_invalid_value_line("size"@)],
                    status: 2,
                },
                Some(n) => CmdOutV {
                    lines: head + seq![spec_opt_line("size"@, spec_dec_digits(n as nat)) + " bits"@]
                        + spec_opt_seg(m, "f"@, "outform"@) + seq!["gen()"@],
                    status: 0,
                },
            }
        },
    }
}

/// Generate a private key.
pub fn pki_gen(m: &ParsedOptions) -> (r: CmdOutcome)
    ensures
        r@ == spec_gen(m@),
{
    let mut lines: Vec<String> = Vec::new();
    let key_type: KeyType = match m.opt_str("t") {
        Some(t) => {
            if str_eq(t.as_str(), "rsa") {
                KeyType::RSA
            } else if str_eq(t.as_str(), "ecdsa") {
                KeyType::ECDSA
            } else if str_eq(t.as_str(), "ed25519") {
                KeyType::ED25519
            } else if str_eq(t.as_str(), "ed448") {
                KeyType::ED448
            } else {
                lines.push("invalid key type".to_owned());
                proof {
                    assert(lines.deep_view() =~= spec_gen(m@).lines);
                }
                return CmdOutcome { lines, status: 2 };
            }
        },
        None => KeyType::RSA,
    };
    lines.push("option: --type ".to_owned().concat(key_type_str(&key_type)));
    let ghost head = seq!["option: --type "@ + spec_key_type_str(key_type)];
    proof {
        assert(lines.deep_view() =~= head);
    }
    let size: u32 = match m.opt_str("s") {
        Some(s) => {
            match parse_u32(s.as_str()) {
                Some(n) => n,
                None => {
                    lines.push(invalid_value_line("size"));
                    proof {
                        assert(lines.deep_view() =~= spec_gen(m@).lines);
                    }
                    return CmdOutcome { lines, status: 2 };
                },
            }
        },
        None => 0,
    };
    lines.push(opt_line("size", u32_to_string(size).as_str()).concat(" bits"));
    let ghost a1 = head + seq![spec_opt_line("size"@, spec_dec_digits(size as nat)) + " bits"@];
    proof {
        assert(lines.deep_view() =~= a1);
    }
    push_opt_seg(&mut lines, m, "f", "outform");
    lines.push("gen()".to_owned());
    proof {
        assert(lines.deep_view() =~= (a1 + spec_opt_seg(m@, "f"@, "outform"@)).push("gen()"@));
        assert(lines.deep_view() =~= spec_gen(m@).lines);
    }
    CmdOutcome { lines, status: 0 }
}

/// The descriptor of the gen command.
pub fn command() -> (r: Command)
    ensures
        r@.op == OpKind::Gen,
        r@.short == 'g',
        r@.long == "gen"@,
{
    let mut brief: Vec<String> = Vec::new();
    brief.push("[--type rsa|ecdsa|ed25519|ed448] [--size bits] [--safe-primes]".to_owned());
    brief.push("[--shares n] [--threshold l] [--outform der|pem]".to_owned());
    let mut options: Vec<Opt> = Vec::new();
    options.push(
        Opt {
            long: "help".to_owned(),
            short: 'h',
            arity: Arity::Flag,
            descr: "show usage information".to_owned(),
        },
    );
    options.push(
        Opt {
            long: "type".to_owned(),
            short: 't',
            arity: Arity::Single,
            descr: "type of key, default: rsa".to_owned(),
        },
    );
    options.push(
        Opt {
            long: "size".to_owned(),
            short: 's',
            arity: Arity::Single,
            descr: "keylength in bits, default: rsa 2048, ecdsa 384".to_owned(),
        },
    );
    options.push(
        Opt {
            long: "outform".to_owned(),
            short: 'f',
            arity: Arity::Single,
            descr: "encoding of generated private key, default: der".to_owned(),
        },
    );
    Command::new(
        OpKind::Gen,
        'g',
        "gen".to_owned(),
        "generate a new private key".to_owned(),
        brief,
        options,
    )
}

} // verus!
