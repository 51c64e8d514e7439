//! The certificate-chain generator: a fresh root → intermediate →
//! end-entity hierarchy for local testing, so that self-signed attestation
//! documents can be verified without the platform's real PKI.
//!
//! This is a setup-time operation for tests and development, not a
//! production identity issuer.

use vstd::prelude::*;

use core::time::Duration;

use p384::ecdsa::{DerSignature, SigningKey};
use p384::pkcs8::DecodePrivateKey;
use x509_cert::builder::{Builder, CertificateBuilder, Profile};
use x509_cert::der::Encode;
use x509_cert::name::Name;
use x509_cert::serial_number::SerialNumber;
use x509_cert::spki::SubjectPublicKeyInfoOwned;
use x509_cert::time::Validity;

use crate::{Error, ErrorContext};

verus! {

/// An error from chain generation: one of the underlying certificate
/// builder's internal checks failed, which is not expected behavior.
pub type KeygenError = Error<()>;

/// Which certificate profile to build.
enum CertProfile {
    /// A self-signed certificate-authority root.
    Root,
    /// A subordinate certificate authority, without a path-length
    /// constraint.
    SubCa,
    /// An end-entity leaf, with key agreement and key encipherment disabled.
    Leaf,
}

/// Whether the bytes parse as a PKCS#8 DER P-384 private key.
pub uninterp spec fn p384_key_parses(key_der: Seq<u8>) -> bool;

/// Relies on `p384::SecretKey::random` with `rand::thread_rng`, and PKCS#8
/// encoding: a fresh P-384 private key as PKCS#8 DER. Nothing can be
/// promised of its value — two calls differ — beyond that the key's own
/// PKCS#8 encoding parses back as a P-384 key, which holds of every key the
/// encoder emits.
#[verifier::external_body]
fn generate_key_der() -> (r: Option<Vec<u8>>)
    ensures
        r matches Some(k) ==> p384_key_parses(k@),
{
    let secret = p384::SecretKey::random(&mut rand::thread_rng());
    let document = p384::pkcs8::EncodePrivateKey::to_pkcs8_der(&secret).ok()?;
    Some(document.as_bytes().to_vec())
}

/// Relies on `x509_cert::builder::CertificateBuilder`: a DER certificate for
/// the subject key's public half, under the given profile, signed by the
/// issuer key with ECDSA P-384, valid from now for `valid_secs` seconds,
/// with a fixed serial and an empty name. Any internal failure of the
/// builder, including keys that do not parse, comes back as an error; the
/// result also depends on the clock, so nothing is promised of its value.
#[verifier::external_body]
fn build_cert_der(
    profile: CertProfile,
    issuer_key: &[u8],
    subject_key: &[u8],
    valid_secs: u64,
) -> (r: Option<Vec<u8>>)
{
    let signer = SigningKey::from_pkcs8_der(issuer_key).ok()?;
    let subject = SigningKey::from_pkcs8_der(subject_key).ok()?;
    let spki = SubjectPublicKeyInfoOwned::from_key(*subject.verifying_key()).ok()?;
    let profile = match profile {
        CertProfile::Root => Profile::Root,
        CertProfile::SubCa => Profile::SubCA { issuer: Name::default(), path_len_constraint: None },
        CertProfile::Leaf => Profile::Leaf { issuer: Name::default(), enable_key_agreement: false,
            enable_key_encipherment: false },
    };
    let validity = Validity::from_now(Duration::from_secs(valid_secs)).ok()?;
    let builder = CertificateBuilder::new(profile, SerialNumber::new(&[1]).ok()?, validity,
        Name::default(), spki, &signer).ok()?;
    Builder::build::<DerSignature>(builder).ok()?.to_der().ok()
}

/// The end-entity certificate together with its private signing key.
#[derive(Clone, Debug, PartialEq, Eq)]
pub struct EndCertificateSigner {
    /// The end-entity certificate, DER encoded.
    pub cert: Vec<u8>,
    /// Its private signing key, PKCS#8 DER encoded.
    pub signing_key: Vec<u8>,
}

/// A freshly generated chain of trust: root and intermediate certificates,
/// plus the end-entity certificate with its signing key. Exclusively for
/// mock drivers and verifier test fixtures.
#[derive(Clone, Debug, PartialEq, Eq)]
pub struct NsmCertChain {
    /// The self-signed root certificate, DER encoded.
    pub root: Vec<u8>,
    /// The intermediate certificate, DER encoded.
    pub int: Vec<u8>,
    /// The end-entity certificate and its signing key.
    pub end_signer: EndCertificateSigner,
}

impl NsmCertChain {
    /// Generates a fresh chain: three independent P-384 keys; a self-signed
    /// root, an intermediate signed by the root key, and an end-entity
    /// certificate signed by the intermediate key, all sharing a validity
    /// window from now until `valid_until_secs` seconds from now. This is
    /// the only place fresh randomness is consumed, so little can be
    /// promised of the values: the returned signing key parses as a PKCS#8
    /// P-384 key — what a mock driver needs for signing to succeed — and
    /// the one failure mode is an internal error of the underlying builder,
    /// which is not expected.
    pub fn generate(valid_until_secs: u64) -> (r: Result<NsmCertChain, KeygenError>)
        ensures
            r matches Ok(c) ==> p384_key_parses(c.end_signer.signing_key@),
            r matches Err(e) ==> e.spec_context() == "Certificate builder failed"@,
    {
        let context = ErrorContext("Certificate builder failed");
        let root_key = match generate_key_der() {
            Some(key) => key,
            None => {
                return Err(Error::new((), context));
            },
        };
        let root_cert = match build_cert_der(
            CertProfile::Root,
            root_key.as_slice(),
            root_key.as_slice(),
            valid_until_secs,
        ) {
            Some(cert) => cert,
            None => {
                return Err(Error::new((), context));
            },
        };
        let int_key = match generate_key_der() {
            Some(key) => key,
            None => {
                return Err(Error::new((), context));
            },
        };
        let int_cert = match build_cert_der(
            CertProfile::SubCa,
            root_key.as_slice(),
            int_key.as_slice(),
            valid_until_secs,
        ) {
            Some(cert) => cert,
            None => {
                return Err(Error::new((), context));
            },
        };
        let end_key = match generate_key_der() {
            Some(key) => key,
            None => {
                return Err(Error::new((), context));
            },
        };
        let end_cert = match build_cert_der(
            CertProfile::Leaf,
            int_key.as_slice(),
            end_key.as_slice(),
            valid_until_secs,
        ) {
            Some(cert) => cert,
            None => {
                return Err(Error::new((), context));
            },
        };
        Ok(
            NsmCertChain {
                root: root_cert,
                int: int_cert,
                end_signer: EndCertificateSigner { cert: end_cert, signing_key: end_key },
            },
        )
    }
}

} // verus!
