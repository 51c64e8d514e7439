//! Trusted boundary to the COSE_Sign1 container (`coset`), the ECDSA P-384
//! signature scheme (`p384`), and certificate public-key extraction
//! (`x509_cert`). Every operation here is a pure function of its byte-string
//! arguments, so each result carries a name that the callers' contracts are
//! stated over.

use coset::{iana, CborSerializable, CoseSign1, CoseSign1Builder, HeaderBuilder};
use p384::ecdsa::signature::{Signer, Verifier};
use p384::ecdsa::{Signature, SigningKey, VerifyingKey};
use p384::pkcs8::DecodePrivateKey;
use vstd::prelude::*;
use x509_cert::der::oid::db::rfc5912::ID_EC_PUBLIC_KEY;
use x509_cert::der::Decode;
use x509_cert::Certificate;

verus! {

/// What parsing bytes as a COSE_Sign1 structure yields as its payload: the
/// payload bytes, if the structure parses and a payload is present.
pub uninterp spec fn cose_payload_of(bytes: Seq<u8>) -> Option<Seq<u8>>;

/// What COSE_Sign1 signing with ES384 returns for a payload and a PKCS#8
/// P-384 signing key: the serialized COSE bytes, if the key parses and the
/// structure serializes.
pub uninterp spec fn cose_sign1_es384_of(payload: Seq<u8>, key_der: Seq<u8>) -> Option<Seq<u8>>;

/// The SEC1 public-key bytes of a DER certificate's subject key, if the
/// certificate parses, its key algorithm is the elliptic-curve OID, the key
/// bits are present, and they parse as a P-384 key.
pub uninterp spec fn cert_ec_key_of(cert_der: Seq<u8>) -> Option<Seq<u8>>;

/// Whether `bytes` parse as a COSE_Sign1 structure whose signature verifies
/// under the SEC1 P-384 key `key_sec1`, over the COSE to-be-signed structure
/// with empty additional authenticated data.
pub uninterp spec fn cose_sig_ok(bytes: Seq<u8>, key_sec1: Seq<u8>) -> bool;

/// Relies on `coset::CoseSign1Builder` and `p384`'s `Signer`: builds a
/// COSE_Sign1 with protected header `algorithm = ES384`, the given payload,
/// and an ECDSA P-384 signature over the to-be-signed structure with empty
/// additional authenticated data. ECDSA signing here is deterministic
/// (RFC 6979), so the result depends on the arguments alone; `coset`
/// embeds the payload verbatim and hands it back when parsing.
#[verifier::external_body]
pub(crate) fn cose_sign(payload: Vec<u8>, key_der: &[u8]) -> (r: Result<Vec<u8>, ()>)
    ensures
        r is Ok <==> cose_sign1_es384_of(payload@, key_der@) is Some,
        r matches Ok(b) ==> Some(b@) == cose_sign1_es384_of(payload@, key_der@),
        r matches Ok(b) ==> cose_payload_of(b@) == Some(payload@),
{
    let key = SigningKey::from_pkcs8_der(key_der).map_err(|_| ())?;
    let protected = HeaderBuilder::new().algorithm(iana::Algorithm::ES384).build();
    let cose = CoseSign1Builder::new().payload(payload).protected(protected)
        .create_signature(b"", |bytes| {
            let signature: Signature = Signer::sign(&key, bytes);
            signature.to_bytes().to_vec()
        }).build();
    cose.to_vec().map_err(|_| ())
}

/// Relies on `coset::CoseSign1::from_slice`: parses the bytes as COSE_Sign1
/// and hands out the embedded payload; fails when the bytes do not parse or
/// the payload is absent. A function of the bytes alone.
#[verifier::external_body]
pub(crate) fn cose_decode_payload(bytes: &[u8]) -> (r: Result<Vec<u8>, ()>)
    ensures
        r is Ok <==> cose_payload_of(bytes@) is Some,
        r matches Ok(p) ==> Some(p@) == cose_payload_of(bytes@),
{
    CoseSign1::from_slice(bytes).ok().and_then(|cose| cose.payload).ok_or(())
}

/// Relies on `x509_cert::Certificate::from_der`, its OID check, and
/// `p384::ecdsa::VerifyingKey::from_sec1_bytes`: the certificate's subject
/// public key as SEC1 bytes, when everything parses and the key algorithm is
/// the elliptic-curve OID. A function of the certificate bytes alone.
#[verifier::external_body]
pub(crate) fn extract_ec_public_key(cert_der: &[u8]) -> (r: Result<Vec<u8>, ()>)
    ensures
        r is Ok <==> cert_ec_key_of(cert_der@) is Some,
        r matches Ok(k) ==> Some(k@) == cert_ec_key_of(cert_der@),
{
    let cert = Certificate::from_der(cert_der).map_err(|_| ())?;
    let spki = cert.tbs_certificate.subject_public_key_info;
    spki.algorithm.assert_algorithm_oid(ID_EC_PUBLIC_KEY).map_err(|_| ())?;
    let bits = spki.subject_public_key.as_bytes().ok_or(())?;
    VerifyingKey::from_sec1_bytes(bits).map_err(|_| ())?;
    Ok(bits.to_vec())
}

/// Relies on `coset::CoseSign1::verify_signature` with `p384`'s `Verifier`:
/// whether the bytes parse as COSE_Sign1 and their ECDSA P-384 signature
/// verifies under `key_sec1`, with empty additional authenticated data. A
/// function of its arguments alone.
#[verifier::external_body]
pub(crate) fn cose_verify_signature(bytes: &[u8], key_sec1: &[u8]) -> (r: bool)
    ensures
        r == cose_sig_ok(bytes@, key_sec1@),
{
    let (Ok(cose), Ok(key)) = (CoseSign1::from_slice(bytes), VerifyingKey::from_sec1_bytes(key_sec1))
    else {
        return false;
    };
    cose.verify_signature(b"", |signature, message| {
        Verifier::verify(&key, message, &Signature::try_from(signature)?)
    }).is_ok()
}

} // verus!
