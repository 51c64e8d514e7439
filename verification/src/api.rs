//! The request/response surface of the attestation module, and the
//! attestation-document payload itself.
//!
//! These types hold the wire data as plain values; the CBOR binary form of a
//! document comes from the enclave SDK's own encoder, behind
//! [`doc_to_binary`] and [`doc_from_binary`].

use vstd::prelude::*;

use std::collections::BTreeMap;

use aws_nitro_enclaves_nsm_api::api as nsm;
use serde_bytes::ByteBuf;

use crate::pcr::pcr_wire_view;

verus! {

/// The digest algorithm a register bank was measured with.
#[derive(Clone, Copy, Debug, PartialEq, Eq, Structural)]
pub enum Digest {
    SHA256,
    SHA384,
    SHA512,
}

/// Error codes the attestation module can answer with.
#[derive(Clone, Copy, Debug, PartialEq, Eq, Structural)]
pub enum ErrorCode {
    /// No errors
    Success,
    /// Input argument(s) invalid
    InvalidArgument,
    /// PlatformConfigurationRegister index out of bounds
    InvalidIndex,
    /// The received response does not correspond to the earlier request
    InvalidResponse,
    /// PlatformConfigurationRegister is in read-only mode and the operation
    /// attempted to modify it
    ReadOnlyIndex,
    /// Given request cannot be fulfilled due to missing capabilities
    InvalidOperation,
    /// Operation succeeded but provided output buffer is too small
    BufferTooSmall,
    /// The user-provided input is too large
    InputTooLarge,
    /// The attestation module cannot fulfill the request due to internal
    /// errors
    InternalError,
}

/// A request to the attestation module.
#[derive(Clone, Debug, PartialEq, Eq)]
pub enum Request {
    /// Read the register at `index`.
    DescribePCR { index: u16 },
    /// Extend the register at `index` with `data`.
    ExtendPCR { index: u16, data: Vec<u8> },
    /// Lock the register at `index` from further modification.
    LockPCR { index: u16 },
    /// Lock the registers at indices `[0, range)`.
    LockPCRs { range: u16 },
    /// Ask for the module's capabilities and version.
    DescribeNSM,
    /// Ask for a signed attestation document binding the given caller data.
    Attestation {
        user_data: Option<Vec<u8>>,
        nonce: Option<Vec<u8>>,
        public_key: Option<Vec<u8>>,
    },
    /// Ask for entropy.
    GetRandom,
}

/// A response from the attestation module.
#[derive(Clone, Debug, PartialEq, Eq)]
pub enum Response {
    /// The state of one register.
    DescribePCR { lock: bool, data: Vec<u8> },
    /// The new value of an extended register.
    ExtendPCR { data: Vec<u8> },
    /// The register was locked.
    LockPCR,
    /// The registers were locked.
    LockPCRs,
    /// The module's capabilities and version.
    DescribeNSM {
        version_major: u16,
        version_minor: u16,
        version_patch: u16,
        module_id: String,
        max_pcrs: u16,
        locked_pcrs: Vec<u16>,
        digest: Digest,
    },
    /// A signed COSE structure whose payload is the CBOR-encoded document.
    Attestation { document: Vec<u8> },
    /// Random bytes.
    GetRandom { random: Vec<u8> },
    /// The request could not be fulfilled.
    Error(ErrorCode),
}

/// The attestation-document payload: what gets CBOR-encoded and signed.
#[derive(Clone, Debug, PartialEq, Eq)]
pub struct AttestationDoc {
    /// Issuing module identifier.
    pub module_id: String,
    /// The digest function the register values were measured with.
    pub digest: Digest,
    /// UTC time the document was created, as milliseconds since the Unix
    /// epoch.
    pub timestamp: u64,
    /// The register bank in wire shape: `(index, value)` pairs.
    pub pcrs: Vec<(u64, Vec<u8>)>,
    /// The signer's end-entity certificate, DER encoded.
    pub certificate: Vec<u8>,
    /// The intermediate certificates of the signer's chain, DER encoded.
    pub cabundle: Vec<Vec<u8>>,
    /// An optional caller-supplied public key.
    pub public_key: Option<Vec<u8>>,
    /// Optional caller-supplied user data.
    pub user_data: Option<Vec<u8>>,
    /// An optional caller-supplied nonce, for freshness.
    pub nonce: Option<Vec<u8>>,
}

/// The mathematical shape of an attestation document.
pub ghost struct AttestationDocView {
    pub module_id: Seq<char>,
    pub digest: Digest,
    pub timestamp: u64,
    pub pcrs: Seq<(u64, Seq<u8>)>,
    pub certificate: Seq<u8>,
    pub cabundle: Seq<Seq<u8>>,
    pub public_key: Option<Seq<u8>>,
    pub user_data: Option<Seq<u8>>,
    pub nonce: Option<Seq<u8>>,
}

/// The view of optional bytes.
pub open spec fn opt_bytes_view(bytes: Option<Vec<u8>>) -> Option<Seq<u8>> {
    match bytes {
        Some(b) => Some(b@),
        None => None,
    }
}

impl View for AttestationDoc {
    type V = AttestationDocView;

    open spec fn view(&self) -> AttestationDocView {
        AttestationDocView {
            module_id: self.module_id@,
            digest: self.digest,
            timestamp: self.timestamp,
            pcrs: pcr_wire_view(self.pcrs@),
            certificate: self.certificate@,
            cabundle: self.cabundle@.map_values(|c: Vec<u8>| c@),
            public_key: opt_bytes_view(self.public_key),
            user_data: opt_bytes_view(self.user_data),
            nonce: opt_bytes_view(self.nonce),
        }
    }
}

/// Whether a wire-shaped register list is strictly sorted by index, with no
/// index repeated; what the SDK's ordered wire map produces, and what it
/// round-trips.
pub open spec fn pcrs_strictly_sorted(pcrs: Seq<(u64, Seq<u8>)>) -> bool {
    forall|i: int, j: int|
        0 <= i < j < pcrs.len() ==> (#[trigger] pcrs[i]).0 < (#[trigger] pcrs[j]).0
}

/// What the enclave SDK's CBOR encoder returns for a document.
pub uninterp spec fn cbor_of(doc: AttestationDocView) -> Seq<u8>;

/// What the enclave SDK's CBOR decoder returns for a byte string: the
/// document it decodes to, if any.
pub uninterp spec fn cbor_doc_of(bytes: Seq<u8>) -> Option<AttestationDocView>;

/// Relies on `aws_nitro_enclaves_nsm_api::api::AttestationDoc::to_binary`:
/// CBOR serialization, a function of the document alone. Decoding the result
/// yields the document back, provided its register list is strictly sorted by
/// index, because the wire type keys registers by an ordered map. The wire
/// map is keyed by `usize`, so the index conversion assumes a target where
/// `usize` is 64 bits wide.
#[verifier::external_body]
pub(crate) fn doc_to_binary(doc: &AttestationDoc) -> (r: Vec<u8>)
    ensures
        r@ == cbor_of(doc@),
        pcrs_strictly_sorted(doc@.pcrs) ==> cbor_doc_of(r@) == Some(doc@),
{
    let digest = match doc.digest {
        Digest::SHA256 => nsm::Digest::SHA256,
        Digest::SHA384 => nsm::Digest::SHA384,
        Digest::SHA512 => nsm::Digest::SHA512,
    };
    let pcrs: BTreeMap<usize, Vec<u8>> =
        doc.pcrs.iter().map(|p| (p.0 as usize, p.1.clone())).collect();
    nsm::AttestationDoc::new(
        doc.module_id.clone(), digest, doc.timestamp, pcrs, doc.certificate.clone(),
        doc.cabundle.clone(), doc.user_data.clone(), doc.nonce.clone(), doc.public_key.clone(),
    ).to_binary()
}

/// Relies on `aws_nitro_enclaves_nsm_api::api::AttestationDoc::from_binary`:
/// CBOR deserialization, a function of the bytes alone. A decoded document's
/// register list is strictly sorted by index, because the wire type keys
/// registers by an ordered map.
#[verifier::external_body]
pub(crate) fn doc_from_binary(payload: &[u8]) -> (r: Result<AttestationDoc, ()>)
    ensures
        r is Ok <==> cbor_doc_of(payload@) is Some,
        r matches Ok(d) ==> cbor_doc_of(payload@) == Some(d@),
        r matches Ok(d) ==> pcrs_strictly_sorted(d@.pcrs),
{
    let d = nsm::AttestationDoc::from_binary(payload).map_err(|_| ())?;
    let digest = match d.digest {
        nsm::Digest::SHA256 => Digest::SHA256,
        nsm::Digest::SHA384 => Digest::SHA384,
        nsm::Digest::SHA512 => Digest::SHA512,
    };
    let f = |b: ByteBuf| b.into_vec();
    Ok(AttestationDoc {
        module_id: d.module_id, digest, timestamp: d.timestamp,
        pcrs: d.pcrs.into_iter().map(|p| (p.0 as u64, f(p.1))).collect(),
        certificate: f(d.certificate),
        cabundle: d.cabundle.into_iter().map(f).collect(),
        public_key: d.public_key.map(f), user_data: d.user_data.map(f), nonce: d.nonce.map(f),
    })
}

} // verus!
