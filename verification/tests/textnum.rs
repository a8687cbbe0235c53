//! Checks of the text building blocks: number rendering, number parsing,
//! padding, and the builder's rendering.

use pki::strongswan::creds::{Builder, CredType};
use pki::strongswan::creds::keys::KeyType;
use pki::strongswan::x509::{X509Flag, FLAG_AA, FLAG_ANY, FLAG_CA, FLAG_NONE, FLAG_OCSP_SIGNER};
use pki::text::{bin11_string, i64_to_string, pad_right, parse_i64, parse_u32, u32_to_string, u64_to_string};

#[test]
fn decimal_rendering_is_exact() {
    assert_eq!(u64_to_string(0), "0");
    assert_eq!(u64_to_string(7), "7");
    assert_eq!(u64_to_string(1095), "1095");
    assert_eq!(u64_to_string(u64::MAX), "18446744073709551615");
    assert_eq!(u32_to_string(4294967295), "4294967295");
    assert_eq!(i64_to_string(0), "0");
    assert_eq!(i64_to_string(-1), "-1");
    assert_eq!(i64_to_string(i64::MIN), "-9223372036854775808");
    assert_eq!(i64_to_string(i64::MAX), "9223372036854775807");
}

#[test]
fn decimal_parsing_is_exact() {
    assert_eq!(parse_u32("0"), Some(0));
    assert_eq!(parse_u32("255"), Some(255));
    assert_eq!(parse_u32("4294967295"), Some(u32::MAX));
    assert_eq!(parse_u32("4294967296"), None);
    assert_eq!(parse_u32(""), None);
    assert_eq!(parse_u32("12a"), None);
    assert_eq!(parse_u32("-1"), None);
    assert_eq!(parse_i64("15"), Some(15));
    assert_eq!(parse_i64("-15"), Some(-15));
    assert_eq!(parse_i64("9223372036854775807"), Some(i64::MAX));
    assert_eq!(parse_i64("9223372036854775808"), None);
    assert_eq!(parse_i64("-9223372036854775808"), Some(i64::MIN));
    assert_eq!(parse_i64("-9223372036854775809"), None);
    assert_eq!(parse_i64("-"), None);
    assert_eq!(parse_i64("half"), None);
}

#[test]
fn padding_is_exact() {
    assert_eq!(pad_right("help", 7), "help   ");
    assert_eq!(pad_right("longest", 7), "longest");
    assert_eq!(pad_right("overlong", 7), "overlong");
    assert_eq!(pad_right("", 3), "   ");
}

#[test]
fn binary_rendering_is_eleven_wide() {
    assert_eq!(bin11_string(0), "0b00000000000");
    assert_eq!(bin11_string(3), "0b00000000011");
    assert_eq!(bin11_string(0b10000001001), "0b10000001001");
}

#[test]
fn flag_bits_combine() {
    let f = X509Flag { bits: FLAG_NONE }.with(FLAG_CA).with(FLAG_AA);
    assert!(f.contains(FLAG_CA));
    assert!(!f.contains(FLAG_OCSP_SIGNER));
    assert_eq!(f.union(X509Flag { bits: FLAG_OCSP_SIGNER }).bits, FLAG_ANY);
}

#[test]
fn builder_renders_configured_fields_only() {
    let kind = CredType::PrivateKey { key_type: KeyType::RSA };
    let (lines, ok) = Builder::new(&kind)
        .file(Some("key.pem".to_string()))
        .not_before(Some(-5))
        .not_after(Some(1578020645))
        .build();
    assert!(ok);
    assert_eq!(
        lines,
        vec![
            "PrivateKey { key_type: RSA }".to_string(),
            "  file: key.pem".to_string(),
            "  not_before: -5".to_string(),
            "  not_after:  1578020645".to_string(),
        ]
    );
}

#[test]
fn builder_keeps_intermediate_values_reusable() {
    let kind = CredType::Container;
    let base = Builder::new(&kind);
    let with_file = base.file(Some("a".to_string()));
    // a sibling request spawned from an intermediate value
    let sibling = with_file.keyid(Some("b".to_string()));
    let (lines, _) = sibling.build();
    assert_eq!(
        lines,
        vec!["Container".to_string(), "  file: a".to_string(), "  keyid: b".to_string()]
    );
}

#[test]
fn builder_distinguishes_empty_from_absent_uri_lists() {
    let kind = CredType::Container;
    let none_lines = Builder::new(&kind).build().0;
    assert_eq!(none_lines, vec!["Container".to_string()]);
    let empty: Vec<String> = Vec::new();
    let configured_empty = Builder::new(&kind).crl_uris(Some(&empty)).build().0;
    // configured-but-empty still announces the extension header
    assert_eq!(configured_empty, vec!["Container".to_string(), "  crl_uris:".to_string()]);
}

#[test]
fn builder_renders_flags_in_binary() {
    let kind = CredType::Certificate { cert_type: pki::strongswan::creds::certs::CertType::X509 };
    let (lines, _) = Builder::new(&kind).x509_flags(Some(X509Flag { bits: FLAG_ANY })).build();
    assert_eq!(
        lines,
        vec![
            "Certificate { cert_type: X509 }".to_string(),
            "  x509_flags: 0b00000000111".to_string(),
        ]
    );
}
