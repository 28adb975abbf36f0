//! TLS material for the accept loop: parsing certificate and key PEM text
//! and assembling the server-side TLS configuration. Reading the files from
//! disk is the caller's business; this module works on their bytes.

use vstd::prelude::*;
use rustls::Certificate;
use rustls::NoClientAuth;
use rustls::PrivateKey;
use rustls::ServerConfig;

verus! {

#[verifier::external_type_specification]
pub struct ExCertificate(Certificate);

#[verifier::external_type_specification]
pub struct ExPrivateKey(PrivateKey);

#[verifier::external_type_specification]
#[verifier::external_body]
pub struct ExServerConfig(ServerConfig);

/// What a startup-fatal TLS configuration failure was.
#[derive(PartialEq, Eq, Structural, Clone, Copy, Debug)]
pub enum TlsError {
    /// The certificate PEM text did not parse.
    InvalidCert,
    /// The private-key PEM text did not parse.
    InvalidKey,
    /// The key PEM text parsed but held no key.
    NoPrivateKey,
    /// The TLS library refused the parsed chain and key.
    BadCertOrKey,
}

/// The DER contents of the CERTIFICATE sections of this PEM text, in order,
/// or nothing when the text does not parse.
pub uninterp spec fn pem_certs(data: Seq<u8>) -> Option<Seq<Seq<u8>>>;

/// The DER contents of the RSA PRIVATE KEY sections of this PEM text, in
/// order, or nothing when the text does not parse.
pub uninterp spec fn pem_rsa_keys(data: Seq<u8>) -> Option<Seq<Seq<u8>>>;

/// Relies on rustls's `pemfile::certs`: a deterministic parse of the
/// CERTIFICATE sections of the PEM text.
#[verifier::external_body]
fn parse_certs(data: &[u8]) -> (r: Option<Vec<Certificate>>)
    ensures
        match r {
            Some(v) => pem_certs(data@) == Some(v@.map(|i: int, c: Certificate| c.0@)),
            None => pem_certs(data@) is None,
        },
{
    let mut rd: &[u8] = data;
    rustls::internal::pemfile::certs(&mut rd).ok()
}

/// Relies on rustls's `pemfile::rsa_private_keys`: a deterministic parse of
/// the RSA PRIVATE KEY sections of the PEM text.
#[verifier::external_body]
fn parse_rsa_keys(data: &[u8]) -> (r: Option<Vec<PrivateKey>>)
    ensures
        match r {
            Some(v) => pem_rsa_keys(data@) == Some(v@.map(|i: int, k: PrivateKey| k.0@)),
            None => pem_rsa_keys(data@) is None,
        },
{
    let mut rd: &[u8] = data;
    rustls::internal::pemfile::rsa_private_keys(&mut rd).ok()
}

/// Whether the TLS library accepts this certificate chain and private key
/// together: a deterministic function of their DER bytes (the key is parsed
/// and checked against the supported signing schemes).
pub uninterp spec fn single_cert_ok(chain: Seq<Seq<u8>>, key: Seq<u8>) -> bool;

/// The single certificate chain and private key installed in this server
/// configuration — their DER bytes — or nothing when none is installed.
pub uninterp spec fn installed_cert(c: ServerConfig) -> Option<(Seq<Seq<u8>>, Seq<u8>)>;

/// Whether this server configuration authenticates connecting clients.
pub uninterp spec fn authenticates_clients(c: ServerConfig) -> bool;

/// Relies on `ServerConfig::new` with `NoClientAuth`: a server configuration
/// that does not authenticate connecting clients and has no certificate
/// installed yet.
#[verifier::external_body]
fn new_server_config() -> (c: ServerConfig)
    ensures
        installed_cert(c) is None,
        !authenticates_clients(c),
{
    ServerConfig::new(NoClientAuth::new())
}

/// Relies on `ServerConfig::set_single_cert`: succeeding exactly when the
/// TLS library accepts the pair — a deterministic check on their DER
/// bytes — it installs the chain and key and touches nothing else; on
/// failure the configuration is left as it was.
#[verifier::external_body]
fn install_single_cert(c: &mut ServerConfig, chain: Vec<Certificate>, key: PrivateKey) -> (ok:
    bool)
    ensures
        ok == single_cert_ok(chain@.map(|i: int, cert: Certificate| cert.0@), key.0@),
        ok ==> installed_cert(*final(c)) == Some(
            (chain@.map(|i: int, cert: Certificate| cert.0@), key.0@),
        ),
        !ok ==> installed_cert(*final(c)) == installed_cert(*old(c)),
        authenticates_clients(*final(c)) == authenticates_clients(*old(c)),
{
    c.set_single_cert(chain, key).is_ok()
}

/// Parse the certificates of a PEM certificates text. Fails — an invalid
/// input, fatal at startup — exactly when the text does not parse.
pub fn load_certs(data: &[u8]) -> (r: Result<Vec<Certificate>, TlsError>)
    ensures
        r is Ok <==> pem_certs(data@) is Some,
        r is Err ==> r == Result::<Vec<Certificate>, TlsError>::Err(TlsError::InvalidCert),
        r matches Ok(v) ==> pem_certs(data@) == Some(v@.map(|i: int, c: Certificate| c.0@)),
{
    match parse_certs(data) {
        Some(v) => Ok(v),
        None => Err(TlsError::InvalidCert),
    }
}

/// Parse the private keys of a PEM keys text. Fails — an invalid input,
/// fatal at startup — exactly when the text does not parse.
pub fn load_keys(data: &[u8]) -> (r: Result<Vec<PrivateKey>, TlsError>)
    ensures
        r is Ok <==> pem_rsa_keys(data@) is Some,
        r is Err ==> r == Result::<Vec<PrivateKey>, TlsError>::Err(TlsError::InvalidKey),
        r matches Ok(v) ==> pem_rsa_keys(data@) == Some(v@.map(|i: int, k: PrivateKey| k.0@)),
{
    match parse_rsa_keys(data) {
        Some(v) => Ok(v),
        None => Err(TlsError::InvalidKey),
    }
}

/// Assemble the server-side TLS configuration from certificate and key PEM
/// text: the returned configuration holds exactly the parsed chain and the
/// first parsed private key, and does not authenticate clients. Success
/// exactly when both texts parse, a key exists, and the TLS library accepts
/// the pair; each startup-fatal failure is reported as exactly the error
/// naming it: unparsable certificates, unparsable keys, a key text with no
/// key in it, or a chain and key the TLS library refuses.
pub fn load_tls_config(cert_data: &[u8], key_data: &[u8]) -> (r: Result<ServerConfig, TlsError>)
    ensures
        r matches Err(e) && e == TlsError::InvalidCert <==> pem_certs(cert_data@) is None,
        r matches Err(e) && e == TlsError::InvalidKey <==> pem_certs(cert_data@) is Some
            && pem_rsa_keys(key_data@) is None,
        r matches Err(e) && e == TlsError::NoPrivateKey <==> pem_certs(cert_data@) is Some
            && (pem_rsa_keys(key_data@) matches Some(ks) && ks.len() == 0),
        r is Ok <==> (pem_certs(cert_data@) matches Some(cs) && (pem_rsa_keys(key_data@)
            matches Some(ks) && ks.len() > 0 && single_cert_ok(cs, ks[0]))),
        r matches Err(e) && e == TlsError::BadCertOrKey <==> (pem_certs(cert_data@)
            matches Some(cs) && (pem_rsa_keys(key_data@) matches Some(ks) && ks.len() > 0
            && !single_cert_ok(cs, ks[0]))),
        r matches Ok(config) ==> installed_cert(config) == Some(
            (pem_certs(cert_data@)->Some_0, pem_rsa_keys(key_data@)->Some_0[0]),
        ) && !authenticates_clients(config),
{
    let chain = match load_certs(cert_data) {
        Ok(c) => c,
        Err(e) => {
            return Err(e);
        },
    };
    let mut keys = match load_keys(key_data) {
        Ok(k) => k,
        Err(e) => {
            return Err(e);
        },
    };
    if keys.len() == 0 {
        return Err(TlsError::NoPrivateKey);
    }
    let ghost cs = pem_certs(cert_data@)->Some_0;
    let ghost ks = pem_rsa_keys(key_data@)->Some_0;
    let key = keys.remove(0);
    let mut config = new_server_config();
    proof {
        assert(chain@.map(|i: int, cert: Certificate| cert.0@) =~= cs);
        assert(key.0@ == ks[0]);
    }
    if install_single_cert(&mut config, chain, key) {
        Ok(config)
    } else {
        Err(TlsError::BadCertOrKey)
    }
}

} // verus!
