//! The credential data model: key, certificate and credential kinds, X.509
//! flags, and the fluent credential-request builder.

pub mod creds;
pub mod x509;
