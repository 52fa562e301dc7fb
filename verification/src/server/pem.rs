//! The server's TLS certificate and key, read from the text of PEM files.
use vstd::prelude::*;

verus! {

/// Why a PEM file could not be read.
#[derive(Debug, Clone, Copy, PartialEq, Eq)]
pub enum PemError {
    InvalidCert,
    InvalidKey,
}

/// The bytes of each section.
pub open spec fn sections_view(v: Vec<Vec<u8>>) -> Seq<Seq<u8>> {
    v@.map_values(|s: Vec<u8>| s@)
}

/// The bytes of each section, if there are sections.
pub open spec fn opt_sections_view(v: Option<Vec<Vec<u8>>>) -> Option<Seq<Seq<u8>>> {
    match v {
        Some(s) => Some(sections_view(s)),
        None => None,
    }
}

/// What `rustls_pemfile::certs` finds in the PEM text `pem`: the DER bytes of each
/// certificate section, in order, or nothing where the text is malformed.
pub uninterp spec fn pem_certs(pem: Seq<u8>) -> Option<Seq<Seq<u8>>>;

/// What `rustls_pemfile::rsa_private_keys` finds in the PEM text `pem`: the DER bytes of each
/// RSA private key section, in order, or nothing where the text is malformed.
pub uninterp spec fn pem_rsa_private_keys(pem: Seq<u8>) -> Option<Seq<Seq<u8>>>;

/// Wraps `rustls_pemfile::certs` on text held in memory, where only malformed text makes it
/// fail; the result depends on the text alone and is named `pem_certs`.
#[verifier::external_body]
fn read_certs(pem: &[u8]) -> (r: Option<Vec<Vec<u8>>>)
    ensures
        opt_sections_view(r) == pem_certs(pem@),
{
    let mut reader: &[u8] = pem;
    rustls_pemfile::certs(&mut reader).ok()
}

/// Wraps `rustls_pemfile::rsa_private_keys` on text held in memory, where only malformed text
/// makes it fail; the result depends on the text alone and is named `pem_rsa_private_keys`.
#[verifier::external_body]
fn read_rsa_private_keys(pem: &[u8]) -> (r: Option<Vec<Vec<u8>>>)
    ensures
        opt_sections_view(r) == pem_rsa_private_keys(pem@),
{
    let mut reader: &[u8] = pem;
    rustls_pemfile::rsa_private_keys(&mut reader).ok()
}

/// The certificates in the text of a PEM file, or `InvalidCert` where the text is malformed.
pub fn load_certs(pem: &[u8]) -> (r: Result<Vec<Vec<u8>>, PemError>)
    ensures
        match pem_certs(pem@) {
            Some(c) => r matches Ok(v) && sections_view(v) == c,
            None => r == Err::<Vec<Vec<u8>>, PemError>(PemError::InvalidCert),
        },
{
    match read_certs(pem) {
        Some(v) => Ok(v),
        None => Err(PemError::InvalidCert),
    }
}

/// The RSA private keys in the text of a PEM file, or `InvalidKey` where the text is
/// malformed.
pub fn load_keys(pem: &[u8]) -> (r: Result<Vec<Vec<u8>>, PemError>)
    ensures
        match pem_rsa_private_keys(pem@) {
            Some(k) => r matches Ok(v) && sections_view(v) == k,
            None => r == Err::<Vec<Vec<u8>>, PemError>(PemError::InvalidKey),
        },
{
    match read_rsa_private_keys(pem) {
        Some(v) => Ok(v),
        None => Err(PemError::InvalidKey),
    }
}

} // verus!
