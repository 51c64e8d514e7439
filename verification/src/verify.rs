//! The four-step verification protocol: from a raw signed blob back to a
//! validated attestation document.
//!
//! The steps run strictly in order, each failure short-circuiting the rest:
//! decode the bytes as COSE_Sign1 and take its payload; CBOR-decode the
//! payload into a document; verify the certificate chain embedded in the
//! document against the caller's trust anchor at the caller's time; verify
//! the COSE signature under the end certificate's public key.

use vstd::prelude::*;

use crate::api::{cbor_doc_of, cbor_of, doc_from_binary, AttestationDoc, AttestationDocView};
use crate::cert::{anchor_parses, chain_valid_at, end_cert_parses, ChainVerifier};
use crate::cose::{
    cert_ec_key_of, cose_decode_payload, cose_payload_of, cose_sig_ok, cose_verify_signature,
    extract_ec_public_key,
};
use crate::time::Time;
use crate::{Error, ErrorContext};

verus! {

/// Which verification step failed.
#[derive(Clone, Copy, Debug, Hash, PartialEq, Eq, Structural)]
pub enum ErrorKind {
    /// The bytes are not a COSE_Sign1 structure, or its payload is absent.
    Cose,
    /// The payload is not a well-formed document, or its certificate carries
    /// no usable public key.
    AttestationDoc,
    /// Chain verification or signature verification failed.
    Verification,
    /// The document's end-entity certificate does not parse.
    EndCertificate,
    /// The caller's trust anchor does not parse.
    RootCertificate,
}

/// An error from attestation-document verification.
pub type VerifyError = Error<ErrorKind>;

/// What verification of `bytes` against the trust anchor `root` at time
/// `time_millis` returns: the decoded document, or the kind of the first
/// step that fails.
pub open spec fn verify_outcome(bytes: Seq<u8>, root: Seq<u8>, time_millis: u64) -> Result<
    AttestationDocView,
    ErrorKind,
> {
    match cose_payload_of(bytes) {
        None => Err(ErrorKind::Cose),
        Some(payload) => match cbor_doc_of(payload) {
            None => Err(ErrorKind::AttestationDoc),
            Some(doc) => if !end_cert_parses(doc.certificate) {
                Err(ErrorKind::EndCertificate)
            } else if !anchor_parses(root) {
                Err(ErrorKind::RootCertificate)
            } else if !chain_valid_at(root, doc.cabundle, doc.certificate, time_millis) {
                Err(ErrorKind::Verification)
            } else {
                match cert_ec_key_of(doc.certificate) {
                    None => Err(ErrorKind::AttestationDoc),
                    Some(key) => if !cose_sig_ok(bytes, key) {
                        Err(ErrorKind::Verification)
                    } else {
                        Ok(doc)
                    },
                }
            },
        },
    }
}

/// The document embedded in a COSE_Sign1 blob: the CBOR decoding of its
/// payload, if the blob parses, has a payload, and the payload decodes.
pub open spec fn decoded_doc(bytes: Seq<u8>) -> Option<AttestationDocView> {
    match cose_payload_of(bytes) {
        None => None,
        Some(payload) => cbor_doc_of(payload),
    }
}

/// Reconstructs a validated attestation document from a raw COSE_Sign1 blob,
/// a trusted root certificate, and a time source.
pub trait AttestationDocVerifierExt: Sized {
    /// The four verification steps, strictly in order: COSE decode, document
    /// decode, chain verification against `root_cert` at a reading of
    /// `time`, and signature verification under the document's end
    /// certificate key. Returns the decoded document on full success, else
    /// the first failing step's error.
    fn from_cose(cose_attestation_doc: &[u8], root_cert: &[u8], time: Time) -> (r: Result<
        AttestationDoc,
        VerifyError,
    >)
        ensures
            time.is_fixed() ==> (match verify_outcome(
                cose_attestation_doc@,
                root_cert@,
                time.fixed_millis(),
            ) {
                Ok(doc) => r matches Ok(d) && d@ == doc,
                Err(kind) => r matches Err(e) && e.spec_kind() == kind,
            }),
            r matches Ok(d) ==> decoded_doc(cose_attestation_doc@) == Some(d@),
            r matches Ok(d) ==> cose_sig_ok(
                cose_attestation_doc@,
                cert_ec_key_of(d@.certificate)->Some_0,
            ) && cert_ec_key_of(d@.certificate) is Some,
            r matches Ok(d) ==> exists|t: u64|
                chain_valid_at(root_cert@, d@.cabundle, d@.certificate, t),
            (r matches Err(e) && e.spec_kind() == ErrorKind::Cose) <==> cose_payload_of(
                cose_attestation_doc@,
            ) is None,
            (cose_payload_of(cose_attestation_doc@) is Some && decoded_doc(cose_attestation_doc@)
                is None) ==> (r matches Err(e) && e.spec_kind() == ErrorKind::AttestationDoc),
            (r matches Err(e) && e.spec_kind() == ErrorKind::EndCertificate) <==> (decoded_doc(
                cose_attestation_doc@,
            ) matches Some(doc) && !end_cert_parses(doc.certificate)),
            (r matches Err(e) && e.spec_kind() == ErrorKind::RootCertificate) <==> (decoded_doc(
                cose_attestation_doc@,
            ) matches Some(doc) && end_cert_parses(doc.certificate) && !anchor_parses(root_cert@)),
    ;
}

impl AttestationDocVerifierExt for AttestationDoc {
    fn from_cose(cose_attestation_doc: &[u8], root_cert: &[u8], time: Time) -> (r: Result<
        AttestationDoc,
        VerifyError,
    >) {
        let payload = match cose_decode_payload(cose_attestation_doc) {
            Ok(payload) => payload,
            Err(_) => {
                return Err(Error::new(
                    ErrorKind::Cose,
                    ErrorContext("Failed to decode COSE or missing payload"),
                ));
            },
        };
        let doc = match doc_from_binary(payload.as_slice()) {
            Ok(doc) => doc,
            Err(_) => {
                return Err(Error::new(
                    ErrorKind::AttestationDoc,
                    ErrorContext("Failed to decode attestation doc. Cbor deserialization failed."),
                ));
            },
        };
        let verifier = match ChainVerifier::new(
            root_cert,
            &doc.cabundle,
            doc.certificate.as_slice(),
        ) {
            Ok(verifier) => verifier,
            Err(e) => {
                return Err(e);
            },
        };
        match verifier.verify(&time) {
            Ok(_) => {},
            Err(e) => {
                return Err(e);
            },
        }
        let key = match extract_ec_public_key(doc.certificate.as_slice()) {
            Ok(key) => key,
            Err(_) => {
                return Err(Error::new(
                    ErrorKind::AttestationDoc,
                    ErrorContext("Attestation doc certificate has no usable EC public key"),
                ));
            },
        };
        if !cose_verify_signature(cose_attestation_doc, key.as_slice()) {
            return Err(Error::new(
                ErrorKind::Verification,
                ErrorContext("Verification of attestation doc signature failed"),
            ));
        }
        Ok(doc)
    }
}

/// Law: verifying a signed document hands back exactly the document that was
/// signed. The first two premises are what signing ensures of its output
/// (for a document whose register list is strictly sorted, as every bank
/// this library produces is); the last two are what verification ensures on
/// success. Whenever both hold of the same blob, the verified document
/// equals the original in all fields.
pub proof fn lemma_sign_then_verify_returns_original(
    doc: AttestationDocView,
    signed: Seq<u8>,
    verified: AttestationDocView,
)
    requires
        cose_payload_of(signed) == Some(cbor_of(doc)),
        cbor_doc_of(cbor_of(doc)) == Some(doc),
        decoded_doc(signed) == Some(verified),
    ensures
        verified == doc,
{
}

/// Law: a nonce travels through signing and verification unchanged — an
/// attestation produced with nonce N, when it verifies, contains N.
pub proof fn lemma_nonce_binding(
    doc: AttestationDocView,
    signed: Seq<u8>,
    verified: AttestationDocView,
)
    requires
        cose_payload_of(signed) == Some(cbor_of(doc)),
        cbor_doc_of(cbor_of(doc)) == Some(doc),
        decoded_doc(signed) == Some(verified),
    ensures
        verified.nonce == doc.nonce,
{
    lemma_sign_then_verify_returns_original(doc, signed, verified);
}

} // verus!
