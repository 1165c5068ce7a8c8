//! Validation of TLS material configuration. The runtime reads the files and
//! parses the PEM content; the decisions — which paths must be configured,
//! and how each way of failing is classified — are verified here. No failure
//! of this kind is retried: configuration errors are not transient.

use vstd::prelude::*;

verus! {

/// The encoding of a server's private key file.
#[derive(Clone, Copy, Debug, PartialEq, Eq, Structural)]
pub enum TlsPrivateKeyType {
    Pkcs8,
    Rsa,
}

/// Why TLS material could not be produced.
#[derive(Clone, Copy, Debug, PartialEq, Eq, Structural)]
pub enum TlsMaterialError {
    /// No certificate path was configured.
    CertificatePathUnset,
    /// No private-key path was configured.
    KeyPathUnset,
    /// No certificate-authority bundle path was configured.
    AuthorityPathUnset,
    /// The configured certificate path names no file on disk.
    CertificateFileMissing,
    /// The configured private-key path names no file on disk.
    KeyFileMissing,
    /// The configured certificate-authority path names no file on disk.
    AuthorityFileMissing,
    /// The certificate file's PEM content could not be parsed.
    CertificatePemInvalid,
    /// The private-key file's PEM content could not be parsed.
    KeyPemInvalid,
    /// The certificate-authority file's PEM content could not be parsed.
    AuthorityPemInvalid,
}

/// The two classes of TLS material failure: a configuration error (a path
/// unset, or naming no file) and a crypto error (PEM content that does not
/// parse).
#[derive(Clone, Copy, Debug, PartialEq, Eq, Structural)]
pub enum TlsErrorClass {
    Config,
    Crypto,
}

/// The class each failure belongs to.
pub open spec fn spec_tls_error_class(e: TlsMaterialError) -> TlsErrorClass {
    match e {
        TlsMaterialError::CertificatePathUnset => TlsErrorClass::Config,
        TlsMaterialError::KeyPathUnset => TlsErrorClass::Config,
        TlsMaterialError::AuthorityPathUnset => TlsErrorClass::Config,
        TlsMaterialError::CertificateFileMissing => TlsErrorClass::Config,
        TlsMaterialError::KeyFileMissing => TlsErrorClass::Config,
        TlsMaterialError::AuthorityFileMissing => TlsErrorClass::Config,
        TlsMaterialError::CertificatePemInvalid => TlsErrorClass::Crypto,
        TlsMaterialError::KeyPemInvalid => TlsErrorClass::Crypto,
        TlsMaterialError::AuthorityPemInvalid => TlsErrorClass::Crypto,
    }
}

impl TlsMaterialError {
    /// The class this failure belongs to.
    pub fn class(&self) -> (c: TlsErrorClass)
        ensures
            c == spec_tls_error_class(*self),
    {
        match self {
            TlsMaterialError::CertificatePathUnset => TlsErrorClass::Config,
            TlsMaterialError::KeyPathUnset => TlsErrorClass::Config,
            TlsMaterialError::AuthorityPathUnset => TlsErrorClass::Config,
            TlsMaterialError::CertificateFileMissing => TlsErrorClass::Config,
            TlsMaterialError::KeyFileMissing => TlsErrorClass::Config,
            TlsMaterialError::AuthorityFileMissing => TlsErrorClass::Config,
            TlsMaterialError::CertificatePemInvalid => TlsErrorClass::Crypto,
            TlsMaterialError::KeyPemInvalid => TlsErrorClass::Crypto,
            TlsMaterialError::AuthorityPemInvalid => TlsErrorClass::Crypto,
        }
    }
}

/// Decides which files the runtime must read to build a server identity.
/// Both paths must be configured; the certificate is checked first.
pub fn plan_server_identity(cert: &Option<String>, key: &Option<String>) -> (r: Result<
    (String, String),
    TlsMaterialError,
>)
    ensures
        match r {
            Ok(paths) => {
                &&& cert matches Some(c) && paths.0@ == c@
                &&& key matches Some(k) && paths.1@ == k@
            },
            Err(e) => {
                ||| (cert is None && e == TlsMaterialError::CertificatePathUnset)
                ||| (cert is Some && key is None && e == TlsMaterialError::KeyPathUnset)
            },
        },
        r is Ok <==> (cert is Some && key is Some),
{
    match cert {
        None => Err(TlsMaterialError::CertificatePathUnset),
        Some(c) => match key {
            None => Err(TlsMaterialError::KeyPathUnset),
            Some(k) => Ok((c.clone(), k.clone())),
        },
    }
}

/// Decides which file the runtime must read to build a client trust store.
pub fn plan_client_trust(ca: &Option<String>) -> (r: Result<String, TlsMaterialError>)
    ensures
        match r {
            Ok(path) => ca matches Some(c) && path@ == c@,
            Err(e) => ca is None && e == TlsMaterialError::AuthorityPathUnset,
        },
        r is Ok <==> ca is Some,
{
    match ca {
        None => Err(TlsMaterialError::AuthorityPathUnset),
        Some(c) => Ok(c.clone()),
    }
}

/// Classifies what the runtime found when it read and parsed the server's
/// certificate and key files: a missing file is a configuration error,
/// unparseable PEM content a crypto error, checked in that order with the
/// certificate before the key.
pub fn assess_server_material(
    cert_found: bool,
    key_found: bool,
    cert_pem_ok: bool,
    key_pem_ok: bool,
) -> (r: Result<(), TlsMaterialError>)
    ensures
        r == (if !cert_found {
            Err::<(), TlsMaterialError>(TlsMaterialError::CertificateFileMissing)
        } else if !key_found {
            Err::<(), TlsMaterialError>(TlsMaterialError::KeyFileMissing)
        } else if !cert_pem_ok {
            Err::<(), TlsMaterialError>(TlsMaterialError::CertificatePemInvalid)
        } else if !key_pem_ok {
            Err::<(), TlsMaterialError>(TlsMaterialError::KeyPemInvalid)
        } else {
            Ok::<(), TlsMaterialError>(())
        }),
{
    if !cert_found {
        Err(TlsMaterialError::CertificateFileMissing)
    } else if !key_found {
        Err(TlsMaterialError::KeyFileMissing)
    } else if !cert_pem_ok {
        Err(TlsMaterialError::CertificatePemInvalid)
    } else if !key_pem_ok {
        Err(TlsMaterialError::KeyPemInvalid)
    } else {
        Ok(())
    }
}

/// Classifies what the runtime found when it read and parsed the client's
/// certificate-authority bundle.
pub fn assess_client_trust(ca_found: bool, pem_ok: bool) -> (r: Result<(), TlsMaterialError>)
    ensures
        r == (if !ca_found {
            Err::<(), TlsMaterialError>(TlsMaterialError::AuthorityFileMissing)
        } else if !pem_ok {
            Err::<(), TlsMaterialError>(TlsMaterialError::AuthorityPemInvalid)
        } else {
            Ok::<(), TlsMaterialError>(())
        }),
{
    if !ca_found {
        Err(TlsMaterialError::AuthorityFileMissing)
    } else if !pem_ok {
        Err(TlsMaterialError::AuthorityPemInvalid)
    } else {
        Ok(())
    }
}

} // verus!
