//! Certificates and keys in PEM files.
use crate::config::{CertificateConfig, CertificateView};
use crate::error::{CertificateError, DnsProxyError, ErrorView};
use crate::octets;
use crate::text;
use crate::utils;
use vstd::prelude::*;

verus! {

/// The certificates in a PEM text, in DER, or what is wrong with the text.
pub uninterp spec fn pem_certificates(pem: Seq<u8>) -> Result<Seq<Seq<u8>>, Seq<char>>;

/// Whether a result holds the given byte strings, or the given fault.
pub open spec fn holds_strings(
    r: Result<Vec<Vec<u8>>, String>,
    wanted: Result<Seq<Seq<u8>>, Seq<char>>,
) -> bool {
    match wanted {
        Ok(strings) => r matches Ok(found) && octets::all(found@) == strings,
        Err(fault) => r matches Err(found) && found@ == fault,
    }
}

/// Calls `certs` of the `rustls_pemfile` crate and collects what it yields: the
/// certificates, or the first error in the crate's words, are a function of the text.
#[verifier::external_body]
pub(crate) fn read_certificates(pem: &[u8]) -> (r: Result<Vec<Vec<u8>>, String>)
    ensures
        holds_strings(r, pem_certificates(pem@)),
{
    let mut reader = pem;
    let read: Result<Vec<_>, _> = rustls_pemfile::certs(&mut reader).collect();
    match read {
        Ok(certificates) => Ok(certificates.iter().map(|der| der.to_vec()).collect()),
        Err(fault) => Err(fault.to_string()),
    }
}

/// The first PKCS#8 key in a PEM text, in DER, or what is wrong with the text before
/// one was found.
pub uninterp spec fn pem_private_key(pem: Seq<u8>) -> Option<Result<Seq<u8>, Seq<char>>>;

/// Whether a result holds the given bytes, or the given fault, or neither.
pub open spec fn holds_key(
    r: Option<Result<Vec<u8>, String>>,
    wanted: Option<Result<Seq<u8>, Seq<char>>>,
) -> bool {
    match wanted {
        Some(key) => r matches Some(found) && octets::read_view(found) == key,
        None => r is None,
    }
}

/// Calls `pkcs8_private_keys` of the `rustls_pemfile` crate and takes the first item:
/// the key, or an error in the crate's words, is a function of the text.
#[verifier::external_body]
fn read_private_key(pem: &[u8]) -> (r: Option<Result<Vec<u8>, String>>)
    ensures
        holds_key(r, pem_private_key(pem@)),
{
    let mut reader = pem;
    let first = rustls_pemfile::pkcs8_private_keys(&mut reader).next();
    match first {
        Some(Ok(key)) => Some(Ok(key.secret_pkcs8_der().to_vec())),
        Some(Err(fault)) => Some(Err(fault.to_string())),
        None => None,
    }
}

/// What the `rustls` crate says of a PKCS#8 key with which nothing can be signed.
pub uninterp spec fn signing_fault(key: Seq<u8>) -> Option<Seq<char>>;

/// Calls `any_supported_type` of the `rustls` crate: whether a PKCS#8 key is one to
/// sign with, and what is said of one that is none, is a function of the key.
#[verifier::external_body]
fn judge_signing_key(key: &[u8]) -> (r: Option<String>)
    ensures
        utils::is_text(r, signing_fault(key@)),
{
    let pkcs8 = rustls::pki_types::PrivatePkcs8KeyDer::from(key);
    let key = rustls::pki_types::PrivateKeyDer::Pkcs8(pkcs8);
    match rustls::crypto::aws_lc_rs::sign::any_supported_type(&key) {
        Ok(_) => None,
        Err(fault) => Some(fault.to_string()),
    }
}

/// A certificate chain and its key, in DER.
#[derive(Debug, Clone)]
pub struct LoadedCertificate {
    pub chain: Vec<Vec<u8>>,
    pub key: Vec<u8>,
}

/// The bytes of a [`LoadedCertificate`].
#[verifier::ext_equal]
pub struct LoadedView {
    pub chain: Seq<Seq<u8>>,
    pub key: Seq<u8>,
}

impl View for LoadedCertificate {
    type V = LoadedView;

    open spec fn view(&self) -> LoadedView {
        LoadedView { chain: octets::all(self.chain@), key: self.key@ }
    }
}

/// What was read of a certificate file and a key file.
#[derive(Debug)]
pub struct CertificateFiles {
    pub cert: Result<Vec<u8>, String>,
    pub key: Result<Vec<u8>, String>,
}

/// The certificate and key that were found in two files, or why they cannot be used.
pub open spec fn assembled(
    chain: Result<Seq<Seq<u8>>, Seq<char>>,
    key: Option<Result<Seq<u8>, Seq<char>>>,
    signing_fault: Option<Seq<char>>,
) -> Result<LoadedView, ErrorView> {
    match chain {
        Err(fault) => Err(
            ErrorView::InvalidFormat { reason: "Failed to parse certificate: "@ + fault },
        ),
        Ok(certificates) => if certificates.len() == 0 {
            Err(
                ErrorView::InvalidFormat {
                    reason: "No certificates found in certificate file"@,
                },
            )
        } else {
            match key {
                None => Err(ErrorView::PrivateKey { reason: "No private key found in key file"@ }),
                Some(Err(fault)) => Err(
                    ErrorView::PrivateKey { reason: "Failed to parse private key: "@ + fault },
                ),
                Some(Ok(der)) => match signing_fault {
                    Some(fault) => Err(
                        ErrorView::PrivateKey {
                            reason: "Failed to create signing key: "@ + fault,
                        },
                    ),
                    None => Ok(LoadedView { chain: certificates, key: der }),
                },
            }
        },
    }
}

/// What the files of a configured certificate hold, or why it cannot be used.
pub open spec fn loaded(config: CertificateView, files: CertificateFiles) -> Result<
    LoadedView,
    ErrorView,
> {
    match (octets::read_view(files.cert), octets::read_view(files.key)) {
        (Err(reason), _) => Err(
            ErrorView::LoadFailed {
                path: config.cert_file,
                reason: "Failed to read: "@ + reason,
            },
        ),
        (_, Err(reason)) => Err(
            ErrorView::LoadFailed { path: config.key_file, reason: "Failed to read: "@ + reason },
        ),
        (Ok(cert), Ok(key)) => {
            let found = pem_private_key(key);
            assembled(
                pem_certificates(cert),
                found,
                match found {
                    Some(Ok(der)) => signing_fault(der),
                    _ => None,
                },
            )
        },
    }
}

/// The result of loading, in bytes and texts.
pub open spec fn load_view(r: Result<LoadedCertificate, DnsProxyError>) -> Result<
    LoadedView,
    ErrorView,
> {
    match r {
        Ok(certificate) => Ok(certificate@),
        Err(error) => Err(error@),
    }
}

fn invalid_format(reason: String) -> (r: DnsProxyError)
    ensures
        r@ == (ErrorView::InvalidFormat { reason: reason@ }),
{
    DnsProxyError::Certificate(CertificateError::InvalidFormat { reason })
}

fn private_key(reason: String) -> (r: DnsProxyError)
    ensures
        r@ == (ErrorView::PrivateKey { reason: reason@ }),
{
    DnsProxyError::Certificate(CertificateError::PrivateKey { reason })
}

fn load_failed(path: &str, reason: &str) -> (r: DnsProxyError)
    ensures
        r@ == (ErrorView::LoadFailed { path: path@, reason: "Failed to read: "@ + reason@ }),
{
    DnsProxyError::Certificate(
        CertificateError::LoadFailed {
            path: path.to_owned(),
            reason: text::join("Failed to read: ", reason),
        },
    )
}

/// Puts together what was found in a certificate file and a key file.
pub fn assemble_certificate(
    chain: Result<Vec<Vec<u8>>, String>,
    key: Option<Result<Vec<u8>, String>>,
    signing_fault: Option<String>,
) -> (r: Result<LoadedCertificate, DnsProxyError>)
    ensures
        load_view(r) == assembled(
            match chain {
                Ok(strings) => Ok(octets::all(strings@)),
                Err(fault) => Err(fault@),
            },
            match key {
                Some(found) => Some(octets::read_view(found)),
                None => None,
            },
            match signing_fault {
                Some(fault) => Some(fault@),
                None => None,
            },
        ),
{
    match chain {
        Err(fault) => Err(
            invalid_format(text::join("Failed to parse certificate: ", fault.as_str())),
        ),
        Ok(certificates) => {
            if certificates.is_empty() {
                return Err(
                    invalid_format("No certificates found in certificate file".to_owned()),
                );
            }
            match key {
                None => Err(private_key("No private key found in key file".to_owned())),
                Some(Err(fault)) => Err(
                    private_key(text::join("Failed to parse private key: ", fault.as_str())),
                ),
                Some(Ok(der)) => match signing_fault {
                    Some(fault) => Err(
                        private_key(text::join("Failed to create signing key: ", fault.as_str())),
                    ),
                    None => Ok(LoadedCertificate { chain: certificates, key: der }),
                },
            }
        },
    }
}

/// Loads a configured certificate from what was read of its files.
pub fn load_certificate(config: &CertificateConfig, files: &CertificateFiles) -> (r: Result<
    LoadedCertificate,
    DnsProxyError,
>)
    ensures
        load_view(r) == loaded(config@, *files),
{
    match &files.cert {
        Err(reason) => Err(load_failed(config.cert_file.as_str(), reason.as_str())),
        Ok(cert) => match &files.key {
            Err(reason) => Err(load_failed(config.key_file.as_str(), reason.as_str())),
            Ok(key) => {
                let chain = read_certificates(cert.as_slice());
                let found = read_private_key(key.as_slice());
                let fault = match &found {
                    Some(Ok(der)) => judge_signing_key(der.as_slice()),
                    _ => None,
                };
                assemble_certificate(chain, found, fault)
            },
        },
    }
}

/// A certificate chain with at least one certificate and a key that can sign are used as
/// they were found; everything else is refused: an unreadable chain, an empty one, a missing
/// or unreadable key, and a key that cannot sign.
pub proof fn usable_certificates_are_used_as_found(
    chain: Result<Seq<Seq<u8>>, Seq<char>>,
    key: Option<Result<Seq<u8>, Seq<char>>>,
    fault: Option<Seq<char>>,
)
    ensures
        assembled(chain, key, fault) is Ok <==> (chain matches Ok(certificates)
            && certificates.len() > 0) && (key matches Some(Ok(_))) && fault is None,
        assembled(chain, key, fault) matches Ok(certificate) ==> chain == Ok::<
            Seq<Seq<u8>>,
            Seq<char>,
        >(certificate.chain) && key == Some(Ok::<Seq<u8>, Seq<char>>(certificate.key)),
        assembled(chain, key, fault) matches Err(error) ==> if chain is Err || chain->Ok_0.len()
            == 0 {
            error is InvalidFormat
        } else {
            error is PrivateKey
        },
{
}

/// A certificate is loaded from its certificate file and its key file, each for its own
/// part; a file that could not be read is reported by its path, the certificate file first.
pub proof fn certificates_come_from_their_files(config: CertificateView, files: CertificateFiles)
    ensures
        files.cert is Err ==> (loaded(config, files) matches Err(ErrorView::LoadFailed {
            path,
            reason,
        }) && path == config.cert_file),
        files.cert is Ok && files.key is Err ==> (loaded(config, files) matches Err(
            ErrorView::LoadFailed { path, reason },
        ) && path == config.key_file),
        loaded(config, files) matches Ok(certificate) ==> {
            &&& files.cert matches Ok(pem) && pem_certificates(pem@) == Ok::<
                Seq<Seq<u8>>,
                Seq<char>,
            >(certificate.chain)
            &&& files.key matches Ok(pem) && pem_private_key(pem@) == Some(
                Ok::<Seq<u8>, Seq<char>>(certificate.key),
            )
            &&& signing_fault(certificate.key) is None
            &&& certificate.chain.len() > 0
        },
        (files.cert matches Ok(cert) && pem_certificates(cert@) matches Ok(chain) && chain.len() > 0)
            && (files.key matches Ok(key) && pem_private_key(key@) matches Some(Ok(der))
            && signing_fault(der) is None) ==> loaded(config, files) is Ok,
{
}

/// The bytes of a certificate are those of its own chain and key, and a result shows what it
/// holds.
pub proof fn certificates_show_their_own_bytes(certificate: LoadedCertificate, error: DnsProxyError)
    ensures
        certificate@.chain == octets::all(certificate.chain@),
        certificate@.key == certificate.key@,
        load_view(Ok(certificate)) == Ok::<LoadedView, ErrorView>(certificate@),
        load_view(Err(error)) == Err::<LoadedView, ErrorView>(error@),
{
}

} // verus!
