//! Certificates and private keys from PEM text, for the TLS transport.
use rustls::pki_types::PrivateKeyDer;
use vstd::prelude::*;

verus! {

/// The encoding of a private key, as its PEM section names it.
#[derive(Debug, Clone, Copy, PartialEq, Eq, Structural)]
pub enum KeyFormat {
    Pkcs1,
    Sec1,
    Pkcs8,
}

/// What `rustls_pemfile::certs` finds in PEM bytes, collected: the DER
/// bytes of each certificate section in order, or `None` when reading a
/// section fails.
pub uninterp spec fn pem_certs(b: Seq<u8>) -> Option<Seq<Seq<u8>>>;

/// What `rustls_pemfile::private_key` finds in PEM bytes: the format and
/// DER bytes of the first private key section, `Some(None)` when there is
/// none, or `None` when reading a section fails.
pub uninterp spec fn pem_private_key(b: Seq<u8>) -> Option<Option<(KeyFormat, Seq<u8>)>>;

/// The DER bytes of each certificate in a list.
pub open spec fn ders(v: Seq<Vec<u8>>) -> Seq<Seq<u8>> {
    v.map_values(|c: Vec<u8>| c@)
}

/// Calls `rustls_pemfile::certs` on `b` and collects the certificates;
/// the result is named `pem_certs`. The text of the error is not stated.
#[verifier::external_body]
fn parse_pem_certs(b: &[u8]) -> (r: Result<Vec<Vec<u8>>, String>)
    ensures
        match r {
            Ok(v) => pem_certs(b@) == Some(ders(v@)),
            Err(_) => pem_certs(b@) is None,
        },
{
    let mut rd: &[u8] = b;
    let certs: Result<Vec<_>, std::io::Error> = rustls_pemfile::certs(&mut rd).collect();
    match certs {
        Ok(v) => Ok(v.iter().map(|c| c.as_ref().to_vec()).collect()),
        Err(e) => Err(e.to_string()),
    }
}

/// Calls `rustls_pemfile::private_key` on `b`, which yields only keys in
/// the three formats of `KeyFormat`; the result is named
/// `pem_private_key`. The text of the error is not stated.
#[verifier::external_body]
fn parse_pem_private_key(b: &[u8]) -> (r: Result<Option<(KeyFormat, Vec<u8>)>, String>)
    ensures
        match r {
            Ok(Some((f, d))) => pem_private_key(b@) == Some(Some((f, d@))),
            Ok(None) => pem_private_key(b@) == Some(None::<(KeyFormat, Seq<u8>)>),
            Err(_) => pem_private_key(b@) is None,
        },
{
    let mut rd: &[u8] = b;
    match rustls_pemfile::private_key(&mut rd) {
        Ok(Some(PrivateKeyDer::Pkcs1(k))) => Ok(Some((KeyFormat::Pkcs1, k.secret_pkcs1_der().to_vec()))),
        Ok(Some(PrivateKeyDer::Sec1(k))) => Ok(Some((KeyFormat::Sec1, k.secret_sec1_der().to_vec()))),
        Ok(Some(PrivateKeyDer::Pkcs8(k))) => Ok(Some((KeyFormat::Pkcs8, k.secret_pkcs8_der().to_vec()))),
        Ok(_) => Ok(None),
        Err(e) => Err(e.to_string()),
    }
}

/// Why certificates or a key could not be had from PEM text.
#[derive(Debug)]
pub enum CertError {
    /// A PEM section could not be read; the reader's message.
    Parse(String),
    /// The text holds no certificate.
    NoCertificates,
    /// The text holds no private key.
    NoPrivateKey,
}

/// The certificates in PEM text, in order: an error when the text cannot
/// be read or holds no certificate.
pub fn certs_from_pem(b: &[u8]) -> (r: Result<Vec<Vec<u8>>, CertError>)
    ensures
        match pem_certs(b@) {
            None => r matches Err(CertError::Parse(_)),
            Some(cs) => if cs.len() == 0 {
                r matches Err(CertError::NoCertificates)
            } else {
                r matches Ok(v) && ders(v@) == cs
            },
        },
{
    match parse_pem_certs(b) {
        Err(m) => Err(CertError::Parse(m)),
        Ok(v) => if v.len() == 0 {
            Err(CertError::NoCertificates)
        } else {
            Ok(v)
        },
    }
}

/// The first private key in PEM text, with its format: an error when the
/// text cannot be read or holds no private key.
pub fn key_from_pem(b: &[u8]) -> (r: Result<(KeyFormat, Vec<u8>), CertError>)
    ensures
        match pem_private_key(b@) {
            None => r matches Err(CertError::Parse(_)),
            Some(None) => r matches Err(CertError::NoPrivateKey),
            Some(Some((f, d))) => r matches Ok((g, e)) && g == f && e@ == d,
        },
{
    match parse_pem_private_key(b) {
        Err(m) => Err(CertError::Parse(m)),
        Ok(None) => Err(CertError::NoPrivateKey),
        Ok(Some(k)) => Ok(k),
    }
}

} // verus!
