//! Credential kinds and the fluent credential-request builder.
//!
//! The builder accumulates the parameters of one credential-construction
//! request. Every configuration method consumes the current value and returns
//! a new one with exactly one field replaced; nothing is mutated in place, so
//! intermediate builder values may be kept and reused. The terminal `build`
//! renders the request; performing the construction and emitting the
//! rendering are the caller's business.

use vstd::prelude::*;
use vstd::string::*;

use crate::strongswan::creds::certs::CertType;
use crate::strongswan::creds::keys::KeyType;
use crate::strongswan::x509::X509Flag;
use crate::text::i64_to_string;
use crate::text::bin11_string;
use crate::text::push_prefixed_lines;
use crate::text::spec_bin11;
use crate::text::spec_i64_digits;
use crate::text::spec_prefixed_lines;

pub mod certs;
pub mod keys;

verus! {

/// The kind of credential a request builds.
#[derive(Clone, Copy, PartialEq, Eq, Structural, Debug)]
pub enum CredType {
    /// private key, implemented in creds::keys
    PrivateKey { key_type: KeyType },
    /// public key, implemented in creds::keys
    PublicKey { key_type: KeyType },
    /// certificates, implemented in creds::certs
    Certificate { cert_type: CertType },
    /// crypto container, implemented in creds::container
    Container,
}

/// parts to build credentials from
pub struct Builder<'a> {
    /// credential type including subtype
    pub cred_type: &'a CredType,
    /// path to a file encoded in any format
    pub file: Option<String>,
    /// private key ID on a smartcard or TPM
    pub keyid: Option<String>,
    /// enforce additional X.509 flags
    pub x509_flags: Option<X509Flag>,
    /// not valid before (epoch timestamp)
    pub not_before: Option<i64>,
    /// not valid after (epoch timestamp)
    pub not_after: Option<i64>,
    /// CRL distribution points (vector of URIs)
    pub crl_uris: Option<&'a Vec<String>>,
    /// OCSP AuthorityInfoAccess locations (vector of URIs)
    pub ocsp_uris: Option<&'a Vec<String>>,
}

/// The mathematical value of a builder: the accumulated request.
#[verifier::ext_equal]
pub ghost struct BuilderV {
    pub cred_type: CredType,
    pub file: Option<Seq<char>>,
    pub keyid: Option<Seq<char>>,
    pub x509_flags: Option<X509Flag>,
    pub not_before: Option<i64>,
    pub not_after: Option<i64>,
    pub crl_uris: Option<Seq<Seq<char>>>,
    pub ocsp_uris: Option<Seq<Seq<char>>>,
}

impl<'a> View for Builder<'a> {
    type V = BuilderV;

    open spec fn view(&self) -> BuilderV {
        BuilderV {
            cred_type: *self.cred_type,
            file: self.file.deep_view(),
            keyid: self.keyid.deep_view(),
            x509_flags: self.x509_flags,
            not_before: self.not_before,
            not_after: self.not_after,
            crl_uris: match self.crl_uris {
                Some(v) => Some(v.deep_view()),
                None => None,
            },
            ocsp_uris: match self.ocsp_uris {
                Some(v) => Some(v.deep_view()),
                None => None,
            },
        }
    }
}

// ---------------------------------------------------------------------------
// The rendering of a request
// ---------------------------------------------------------------------------

/// The name of a key type, as the request rendering shows it.
pub open spec fn spec_key_type_str(k: KeyType) -> Seq<char> {
    match k {
        KeyType::ANY => "ANY"@,
        KeyType::RSA => "RSA"@,
        KeyType::ECDSA => "ECDSA"@,
        KeyType::DSA => "DSA"@,
        KeyType::ED25519 => "ED25519"@,
        KeyType::ED448 => "ED448"@,
    }
}

/// The name of a certificate kind, as the request rendering shows it.
pub open spec fn spec_cert_type_str(c: CertType) -> Seq<char> {
    match c {
        CertType::ANY => "ANY"@,
        CertType::X509 => "X509"@,
        CertType::X509Crl => "X509Crl"@,
        CertType::X509OcspRequest => "X509OcspRequest"@,
        CertType::X509OcspResponse => "X509OcspResponse"@,
        CertType::X509Ac => "X509Ac"@,
        CertType::TrustedPubkey => "TrustedPubkey"@,
        CertType::PKCS10Request => "PKCS10Request"@,
        CertType::GPG => "GPG"@,
    }
}

/// The heading of a request rendering: the credential kind with its subtype.
pub open spec fn spec_cred_type_str(c: CredType) -> Seq<char> {
    match c {
        CredType::PrivateKey { key_type } => "PrivateKey { key_type: "@ + spec_key_type_str(
            key_type,
        ) + " }"@,
        CredType::PublicKey { key_type } => "PublicKey { key_type: "@ + spec_key_type_str(key_type)
            + " }"@,
        CredType::Certificate { cert_type } => "Certificate { cert_type: "@ + spec_cert_type_str(
            cert_type,
        ) + " }"@,
        CredType::Container => "Container"@,
    }
}

/// The lines that render one accumulated request: the credential kind, then
/// one block per configured field, each absent field skipped.
pub open spec fn spec_build_lines(b: BuilderV) -> Seq<Seq<char>> {
    seq![spec_cred_type_str(b.cred_type)] + (match b.file {
        Some(f) => seq!["  file: "@ + f],
        None => Seq::<Seq<char>>::empty(),
    }) + (match b.keyid {
        Some(k) => seq!["  keyid: "@ + k],
        None => Seq::<Seq<char>>::empty(),
    }) + (match b.x509_flags {
        Some(fl) => seq!["  x509_flags: "@ + spec_bin11(fl.bits as nat)],
        None => Seq::<Seq<char>>::empty(),
    }) + (match b.not_before {
        Some(t) => seq!["  not_before: "@ + spec_i64_digits(t as int)],
        None => Seq::<Seq<char>>::empty(),
    }) + (match b.not_after {
        Some(t) => seq!["  not_after:  "@ + spec_i64_digits(t as int)],
        None => Seq::<Seq<char>>::empty(),
    }) + (match b.crl_uris {
        Some(us) => seq!["  crl_uris:"@] + spec_prefixed_lines("    "@, us),
        None => Seq::<Seq<char>>::empty(),
    }) + (match b.ocsp_uris {
        Some(us) => seq!["  ocsp_uris:"@] + spec_prefixed_lines("    "@, us),
        None => Seq::<Seq<char>>::empty(),
    })
}

pub fn key_type_str(k: &KeyType) -> (r: &'static str)
    ensures
        r@ == spec_key_type_str(*k),
{
    match k {
        KeyType::ANY => "ANY",
        KeyType::RSA => "RSA",
        KeyType::ECDSA => "ECDSA",
        KeyType::DSA => "DSA",
        KeyType::ED25519 => "ED25519",
        KeyType::ED448 => "ED448",
    }
}

fn cert_type_str(c: &CertType) -> (r: &'static str)
    ensures
        r@ == spec_cert_type_str(*c),
{
    match c {
        CertType::ANY => "ANY",
        CertType::X509 => "X509",
        CertType::X509Crl => "X509Crl",
        CertType::X509OcspRequest => "X509OcspRequest",
        CertType::X509OcspResponse => "X509OcspResponse",
        CertType::X509Ac => "X509Ac",
        CertType::TrustedPubkey => "TrustedPubkey",
        CertType::PKCS10Request => "PKCS10Request",
        CertType::GPG => "GPG",
    }
}

fn cred_type_line(c: &CredType) -> (r: String)
    ensures
        r@ == spec_cred_type_str(*c),
{
    let r = match c {
        CredType::PrivateKey { key_type } => "PrivateKey { key_type: ".to_owned().concat(
            key_type_str(key_type),
        ).concat(" }"),
        CredType::PublicKey { key_type } => "PublicKey { key_type: ".to_owned().concat(
            key_type_str(key_type),
        ).concat(" }"),
        CredType::Certificate { cert_type } => "Certificate { cert_type: ".to_owned().concat(
            cert_type_str(cert_type),
        ).concat(" }"),
        CredType::Container => "Container".to_owned(),
    };
    proof {
        assert(r@ =~= spec_cred_type_str(*c));
    }
    r
}

// ---------------------------------------------------------------------------
// The builder
// ---------------------------------------------------------------------------

impl<'a> Builder<'a> {
    /// A fresh request of the given kind, all optional fields empty.
    pub fn new(cred_type: &'a CredType) -> (r: Builder<'a>)
        ensures
            r@ == (BuilderV {
                cred_type: *cred_type,
                file: None,
                keyid: None,
                x509_flags: None,
                not_before: None,
                not_after: None,
                crl_uris: None,
                ocsp_uris: None,
            }),
    {
        Builder {
            cred_type: cred_type,
            file: None,
            keyid: None,
            x509_flags: None,
            not_before: None,
            not_after: None,
            crl_uris: None,
            ocsp_uris: None,
        }
    }

    /// The same request with the input file replaced.
    pub fn file(self, file: Option<String>) -> (r: Builder<'a>)
        ensures
            r@ == (BuilderV { file: file.deep_view(), ..self@ }),
    {
        Builder { file: file, ..self }
    }

    /// The same request with the hardware key handle replaced.
    pub fn keyid(self, keyid: Option<String>) -> (r: Builder<'a>)
        ensures
            r@ == (BuilderV { keyid: keyid.deep_view(), ..self@ }),
    {
        Builder { keyid: keyid, ..self }
    }

    /// The same request with the X.509 flags replaced.
    pub fn x509_flags(self, x509_flags: Option<X509Flag>) -> (r: Builder<'a>)
        ensures
            r@ == (BuilderV { x509_flags, ..self@ }),
    {
        Builder { x509_flags: x509_flags, ..self }
    }

    /// The same request with the start of the validity window replaced.
    pub fn not_before(self, not_before: Option<i64>) -> (r: Builder<'a>)
        ensures
            r@ == (BuilderV { not_before, ..self@ }),
    {
        Builder { not_before: not_before, ..self }
    }

    /// The same request with the end of the validity window replaced.
    pub fn not_after(self, not_after: Option<i64>) -> (r: Builder<'a>)
        ensures
            r@ == (BuilderV { not_after, ..self@ }),
    {
        Builder { not_after: not_after, ..self }
    }

    /// The same request with the CRL distribution points replaced.
    pub fn crl_uris(self, crl_uris: Option<&'a Vec<String>>) -> (r: Builder<'a>)
        ensures
            r@ == (BuilderV {
                crl_uris: match crl_uris {
                    Some(v) => Some(v.deep_view()),
                    None => None,
                },
                ..self@
            }),
    {
        Builder { crl_uris: crl_uris, ..self }
    }

    /// The same request with the OCSP locations replaced.
    pub fn ocsp_uris(self, ocsp_uris: Option<&'a Vec<String>>) -> (r: Builder<'a>)
        ensures
            r@ == (BuilderV {
                ocsp_uris: match ocsp_uris {
                    Some(v) => Some(v.deep_view()),
                    None => None,
                },
                ..self@
            }),
    {
        Builder { ocsp_uris: ocsp_uris, ..self }
    }

    /// The terminal operation: render the accumulated request, one string per
    /// line, and report the construction's outcome. The rendering lists
    /// exactly the configured fields; the construction itself is delegated,
    /// and here always succeeds.
    #[verifier::rlimit(60)]
    pub fn build(self) -> (r: (Vec<String>, bool))
        ensures
            r.0.deep_view() == spec_build_lines(self@),
            r.1 == true,
    {
        let ghost b = self@;
        let mut lines: Vec<String> = Vec::new();
        lines.push(cred_type_line(self.cred_type));
        let ghost acc0 = seq![spec_cred_type_str(b.cred_type)];
        proof {
            assert(lines.deep_view() =~= acc0);
        }
        match &self.file {
            Some(f) => {
                let l = "  file: ".to_owned().concat(f.as_str());
                lines.push(l);
            },
            None => {},
        }
        let ghost acc1 = acc0 + (match b.file {
            Some(f) => seq!["  file: "@ + f],
            None => Seq::<Seq<char>>::empty(),
        });
        proof {
            assert(lines.deep_view() =~= acc1);
        }
        match &self.keyid {
            Some(k) => {
                let l = "  keyid: ".to_owned().concat(k.as_str());
                lines.push(l);
            },
            None => {},
        }
        let ghost acc2 = acc1 + (match b.keyid {
            Some(k) => seq!["  keyid: "@ + k],
            None => Seq::<Seq<char>>::empty(),
        });
        proof {
            assert(lines.deep_view() =~= acc2);
        }
        match &self.x509_flags {
            Some(fl) => {
                let l = "  x509_flags: ".to_owned().concat(bin11_string(fl.bits).as_str());
                lines.push(l);
            },
            None => {},
        }
        let ghost acc3 = acc2 + (match b.x509_flags {
            Some(fl) => seq!["  x509_flags: "@ + spec_bin11(fl.bits as nat)],
            None => Seq::<Seq<char>>::empty(),
        });
        proof {
            assert(lines.deep_view() =~= acc3);
        }
        match &self.not_before {
            Some(t) => {
                let l = "  not_before: ".to_owned().concat(i64_to_string(*t).as_str());
                lines.push(l);
            },
            None => {},
        }
        let ghost acc4 = acc3 + (match b.not_before {
            Some(t) => seq!["  not_before: "@ + spec_i64_digits(t as int)],
            None => Seq::<Seq<char>>::empty(),
        });
        proof {
            assert(lines.deep_view() =~= acc4);
        }
        match &self.not_after {
            Some(t) => {
                let l = "  not_after:  ".to_owned().concat(i64_to_string(*t).as_str());
                lines.push(l);
            },
            None => {},
        }
        let ghost acc5 = acc4 + (match b.not_after {
            Some(t) => seq!["  not_after:  "@ + spec_i64_digits(t as int)],
            None => Seq::<Seq<char>>::empty(),
        });
        proof {
            assert(lines.deep_view() =~= acc5);
        }
        match self.crl_uris {
            Some(us) => {
                lines.push("  crl_uris:".to_owned());
                push_prefixed_lines(&mut lines, "    ", us);
            },
            None => {},
        }
        let ghost acc6 = acc5 + (match b.crl_uris {
            Some(us) => seq!["  crl_uris:"@] + spec_prefixed_lines("    "@, us),
            None => Seq::<Seq<char>>::empty(),
        });
        proof {
            assert(lines.deep_view() =~= acc6);
        }
        match self.ocsp_uris {
            Some(us) => {
                lines.push("  ocsp_uris:".to_owned());
                push_prefixed_lines(&mut lines, "    ", us);
            },
            None => {},
        }
        proof {
            assert(lines.deep_view() =~= spec_build_lines(b));
        }
        (lines, true)
    }
}

} // verus!
