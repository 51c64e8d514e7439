//! COSE signing of an attestation document.

use vstd::prelude::*;

use crate::api::{
    cbor_doc_of, cbor_of, doc_to_binary, pcrs_strictly_sorted, AttestationDoc, AttestationDocView,
};
use crate::cose::{cose_payload_of, cose_sign, cose_sign1_es384_of};
use crate::{Error, ErrorContext};

verus! {

/// An error from COSE signing.
pub type SignCoseError = Error<()>;

/// Turns an attestation-document payload plus an ECDSA P-384 key into a
/// signed COSE_Sign1 byte blob.
pub trait AttestationDocSignerExt where Self: View<V = AttestationDocView> {
    /// CBOR-serializes the document, wraps it in a COSE_Sign1 structure with
    /// protected header `algorithm = ES384`, signs over the COSE
    /// to-be-signed structure with empty additional authenticated data, and
    /// serializes the whole. `signing_key_der` is the signer's PKCS#8 DER
    /// P-384 private key; signing fails only when it does not parse or the
    /// COSE encoding itself fails.
    fn sign(&self, signing_key_der: &[u8]) -> (r: Result<Vec<u8>, SignCoseError>)
        ensures
            r is Ok <==> cose_sign1_es384_of(cbor_of(self@), signing_key_der@) is Some,
            r matches Ok(b) ==> Some(b@) == cose_sign1_es384_of(cbor_of(self@), signing_key_der@),
            r matches Ok(b) ==> cose_payload_of(b@) == Some(cbor_of(self@)),
            pcrs_strictly_sorted(self@.pcrs) ==> cbor_doc_of(cbor_of(self@)) == Some(self@),
    ;
}

impl AttestationDocSignerExt for AttestationDoc {
    fn sign(&self, signing_key_der: &[u8]) -> (r: Result<Vec<u8>, SignCoseError>) {
        let payload = doc_to_binary(self);
        match cose_sign(payload, signing_key_der) {
            Ok(bytes) => Ok(bytes),
            Err(_) => Err(Error::new((), ErrorContext("Failed to serialize COSE"))),
        }
    }
}

} // verus!
