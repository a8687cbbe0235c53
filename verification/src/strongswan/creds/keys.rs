//! Key-pair types: the crypto system a key belongs to.

use vstd::prelude::*;

verus! {

/// type of a key pair, the used crypto system
#[derive(Clone, Copy, PartialEq, Eq, Structural, Debug)]
pub enum KeyType {
    /// key type wildcard
    ANY,
    /// RSA crypto system as in PKCS#1
    RSA,
    /// ECDSA as in ANSI X9.62
    ECDSA,
    /// DSA
    DSA,
    /// Ed25519 PureEdDSA instance as in RFC 8032
    ED25519,
    /// Ed448 PureEdDSA instance as in RFC 8032
    ED448,
}

} // verus!
