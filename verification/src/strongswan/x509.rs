//! X.509 certificate flags: named, combinable bits with union and containment
//! operations.

use vstd::prelude::*;

verus! {

/// no path-length or policy constraint given
pub const X509_NO_CONSTRAINT: u32 = 255;

/// cert has no constraints
pub const FLAG_NONE: u32 = 0b00000000000;

/// cert has CA constraint
pub const FLAG_CA: u32 = 0b00000000001;

/// cert has AA constraint
pub const FLAG_AA: u32 = 0b00000000010;

/// cert has OCSP signer constraint
pub const FLAG_OCSP_SIGNER: u32 = 0b00000000100;

/// cert has serverAuth key usage
pub const FLAG_SERVER_AUTH: u32 = 0b00000001000;

/// cert has clientAuth key usage
pub const FLAG_CLIENT_AUTH: u32 = 0b00000010000;

/// cert is self-signed
pub const FLAG_SELF_SIGNED: u32 = 0b00000100000;

/// cert has an ipAddrBlocks extension
pub const FLAG_IP_ADDR_BLOCKS: u32 = 0b00001000000;

/// cert has CRL sign key usage
pub const FLAG_CRL_SIGN: u32 = 0b00010000000;

/// cert has iKEIntermediate key usage
pub const FLAG_IKE_INTERMEDIATE: u32 = 0b00100000000;

/// cert has Microsoft Smartcard Logon usage
pub const FLAG_MS_SMARTCARD_LOGON: u32 = 0b01000000000;

/// cert either lacks keyUsage bits, or includes either digitalSignature
/// or nonRepudiation as per RFC 4945, section 5.1.3.2.
pub const FLAG_IKE_COMPLIANT: u32 = 0b10000000000;

/// cert has either CA, AA or OCSP constraint: the union of those three bits
pub const FLAG_ANY: u32 = FLAG_CA | FLAG_AA | FLAG_OCSP_SIGNER;

/// A combination of X.509 certificate flags.
#[derive(Clone, Copy, PartialEq, Eq, Structural, Debug)]
pub struct X509Flag {
    pub bits: u32,
}

impl X509Flag {
    /// The empty combination.
    pub fn none() -> (r: X509Flag)
        ensures
            r.bits == FLAG_NONE,
    {
        X509Flag { bits: FLAG_NONE }
    }

    /// This combination with the given bits added.
    pub fn with(self, more: u32) -> (r: X509Flag)
        ensures
            r.bits == self.bits | more,
    {
        X509Flag { bits: self.bits | more }
    }

    /// The union of two combinations, bit for bit.
    pub fn union(self, other: X509Flag) -> (r: X509Flag)
        ensures
            r.bits == self.bits | other.bits,
    {
        X509Flag { bits: self.bits | other.bits }
    }

    /// Whether every bit of `mask` is in this combination.
    pub fn contains(self, mask: u32) -> (r: bool)
        ensures
            r == (self.bits & mask == mask),
    {
        self.bits & mask == mask
    }
}

} // verus!
