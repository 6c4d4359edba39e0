//! What the browser-side TLS handshake decides on plain values: the name it
//! sends for SNI, and the server public key CredSSP binds to, taken from the
//! peer's certificate.

use x509_cert::der::Decode;

use vstd::prelude::*;

verus! {

#[verifier::external_type_specification]
#[verifier::external_body]
pub struct ExDerError(x509_cert::der::Error);

/// Whether `name` is a server name TLS can carry: a DNS name or an IP
/// address, as rustls' `ServerName::try_from` decides.
pub uninterp spec fn valid_server_name(name: Seq<char>) -> bool;

/// Calls `rustls::pki_types::ServerName::try_from` on `name` and reports
/// whether it accepted it. The contract claims only that the answer is a
/// function of the name.
#[verifier::external_body]
fn server_name_is_valid(name: &str) -> (b: bool)
    ensures
        b == valid_server_name(name@),
{
    futures_rustls::rustls::pki_types::ServerName::try_from(name.to_owned()).is_ok()
}

/// The name sent when the server's own name is not valid for SNI.
pub open spec fn sni_placeholder() -> Seq<char> {
    "rdp.invalid"@
}

/// The SNI name for `server_name`, given whether it is a valid server name:
/// the name itself, or the placeholder `rdp.invalid` (certificates are not
/// validated, so the name only ever reaches the SNI extension).
pub fn sni_name_for(server_name: &str, valid: bool) -> (r: String)
    ensures
        r@ == (if valid {
            server_name@
        } else {
            sni_placeholder()
        }),
{
    if valid {
        server_name.to_owned()
    } else {
        "rdp.invalid".to_owned()
    }
}

/// The name to send for SNI when connecting to `server_name`: RDP server
/// names are often IP literals or NetBIOS names that are no DNS name, and
/// falling back to a placeholder beats failing the connection.
pub fn sni_server_name(server_name: &str) -> (r: String)
    ensures
        r@ == (if valid_server_name(server_name@) {
            server_name@
        } else {
            sni_placeholder()
        }),
{
    let valid = server_name_is_valid(server_name);
    sni_name_for(server_name, valid)
}

/// What decoding `der` as an X.509 certificate yields for its subject public
/// key: `None` when the bytes are not a certificate, `Some(None)` when the
/// key's `BIT STRING` is not a whole number of bytes, and `Some(Some(key))`
/// with the key's bytes otherwise.
pub uninterp spec fn decoded_subject_public_key(der: Seq<u8>) -> Option<Option<Seq<u8>>>;

/// Calls x509-cert's `Certificate::from_der` on `der` and, on success,
/// `BitString::as_bytes` on the subject public key of the certificate's
/// `SubjectPublicKeyInfo`. The contract claims that the outcome is a
/// function of the bytes, named [`decoded_subject_public_key`].
#[verifier::external_body]
fn decode_subject_public_key(der: &[u8]) -> (r: Result<Option<Vec<u8>>, x509_cert::der::Error>)
    ensures
        match r {
            Ok(key) => decoded_subject_public_key(der@) == Some(
                match key {
                    Some(k) => Some(k@),
                    None => None::<Seq<u8>>,
                },
            ),
            Err(_) => decoded_subject_public_key(der@) is None,
        },
{
    let cert = x509_cert::Certificate::from_der(der)?;
    let key = cert.tbs_certificate().subject_public_key_info().subject_public_key.as_bytes();
    Ok(key.map(|bytes| bytes.to_vec()))
}

/// Why no server public key could be taken from the handshake.
#[derive(Debug, Clone, Copy, PartialEq, Eq)]
pub enum ServerKeyError {
    /// The server presented no certificate.
    MissingCertificate,
    /// The first certificate is not a DER-encoded X.509 certificate: the
    /// decoder's own error.
    Malformed(x509_cert::der::Error),
    /// The subject public key is not a whole number of bytes.
    UnalignedKey,
}

impl ServerKeyError {
    /// A description of the failure (for a malformed certificate the
    /// decoder's error, which the variant carries, says more).
    pub fn message(&self) -> (s: &'static str)
        ensures
            s@ == (match *self {
                ServerKeyError::MissingCertificate => "peer certificate is missing"@,
                ServerKeyError::Malformed(_) => "peer certificate is not a valid X.509 certificate"@,
                ServerKeyError::UnalignedKey => "subject public key is not a whole number of bytes"@,
            }),
    {
        match self {
            ServerKeyError::MissingCertificate => "peer certificate is missing",
            ServerKeyError::Malformed(_) => "peer certificate is not a valid X.509 certificate",
            ServerKeyError::UnalignedKey => "subject public key is not a whole number of bytes",
        }
    }
}

/// The server public key given what decoding the certificate yielded (see
/// [`decoded_subject_public_key`]): the decoder's error is passed on as it
/// came.
pub fn server_key_from_decoded(decoded: Result<Option<Vec<u8>>, x509_cert::der::Error>) -> (r: Result<
    Vec<u8>,
    ServerKeyError,
>)
    ensures
        match decoded {
            Err(e) => r == Err::<Vec<u8>, ServerKeyError>(ServerKeyError::Malformed(e)),
            Ok(None) => r == Err::<Vec<u8>, ServerKeyError>(ServerKeyError::UnalignedKey),
            Ok(Some(key)) => r matches Ok(k) && k@ == key@,
        },
{
    match decoded {
        Err(e) => Err(ServerKeyError::Malformed(e)),
        Ok(None) => Err(ServerKeyError::UnalignedKey),
        Ok(Some(key)) => Ok(key),
    }
}

/// The public key CredSSP binds to: the raw contents of the
/// `subjectPublicKey` `BIT STRING` of the first certificate the server
/// presented.
pub fn server_public_key(peer_certificates: &Vec<Vec<u8>>) -> (r: Result<Vec<u8>, ServerKeyError>)
    ensures
        peer_certificates@.len() == 0 ==> r == Err::<Vec<u8>, ServerKeyError>(
            ServerKeyError::MissingCertificate,
        ),
        peer_certificates@.len() > 0 ==> match decoded_subject_public_key(peer_certificates@[0]@) {
            None => r matches Err(ServerKeyError::Malformed(_)),
            Some(None) => r == Err::<Vec<u8>, ServerKeyError>(ServerKeyError::UnalignedKey),
            Some(Some(key)) => r matches Ok(k) && k@ == key,
        },
{
    if peer_certificates.len() == 0 {
        return Err(ServerKeyError::MissingCertificate);
    }
    let decoded = decode_subject_public_key(peer_certificates[0].as_slice());
    server_key_from_decoded(decoded)
}

} // verus!
