//! The mock driver: answers attestation-module requests in software, signing
//! documents with a caller-supplied identity instead of enclave hardware.

use vstd::prelude::*;

use crate::api::{
    cbor_doc_of, cbor_of, pcrs_strictly_sorted, AttestationDoc, AttestationDocView, Digest,
    ErrorCode, Request, Response,
};
use crate::cert::bytes_views;
use crate::cose::{cose_payload_of, cose_sign1_es384_of};
use crate::nsm::{Driver, Nsm};
use crate::pcr::{valid_pcr_index, wire_of, PcrIndex, Pcrs};
use crate::sign::AttestationDocSignerExt;
use crate::time::{GetTimestamp, Time};
use crate::verify::lemma_sign_then_verify_returns_original;

verus! {

/// Copies a list of byte strings.
fn clone_bytes_list(list: &Vec<Vec<u8>>) -> (r: Vec<Vec<u8>>)
    ensures
        bytes_views(r@) =~= bytes_views(list@),
{
    let mut out: Vec<Vec<u8>> = Vec::new();
    let n = list.len();
    for i in 0..n
        invariant
            n == list@.len(),
            out@.len() == i,
            forall|k: int| 0 <= k < i ==> (#[trigger] out@[k])@ == list@[k]@,
    {
        out.push(list[i].clone());
    }
    proof {
        assert forall|k: int| 0 <= k < n implies bytes_views(out@)[k] == bytes_views(list@)[k] by {
            assert(out@[k]@ == list@[k]@);
        }
    }
    out
}

/// A register list in wire shape is strictly sorted when it is the wire
/// shape of a register bank.
proof fn lemma_wire_sorted(m: Map<int, Seq<u8>>)
    ensures
        pcrs_strictly_sorted(wire_of(m)),
{
    assert forall|i: int, j: int| 0 <= i < j < wire_of(m).len() implies (#[trigger] wire_of(m)[i]).0
        < (#[trigger] wire_of(m)[j]).0 by {
    }
}

/// The mock driver: holds a signing key (PKCS#8 DER), the matching DER end
/// certificate, the intermediate bundle, a register bank, and a time source,
/// all fixed at construction.
pub struct DevNitro {
    signing_key: Vec<u8>,
    end_cert: Vec<u8>,
    ca_bundle: Vec<Vec<u8>>,
    pcrs: Pcrs,
    get_timestamp: Time,
}

impl DevNitro {
    /// The signer's PKCS#8 DER private key.
    pub closed spec fn spec_signing_key(&self) -> Seq<u8> {
        self.signing_key@
    }

    /// The signer's DER end certificate.
    pub closed spec fn spec_end_cert(&self) -> Seq<u8> {
        self.end_cert@
    }

    /// The intermediate certificates embedded in every document.
    pub closed spec fn spec_ca_bundle(&self) -> Seq<Seq<u8>> {
        bytes_views(self.ca_bundle@)
    }

    /// The register bank embedded in every document.
    pub closed spec fn spec_pcrs(&self) -> Map<int, Seq<u8>> {
        self.pcrs@
    }

    /// The time source that stamps the documents.
    pub closed spec fn spec_time(&self) -> Time {
        self.get_timestamp
    }

    /// The document this driver builds when asked at `timestamp` with the
    /// given caller data.
    pub open spec fn doc_at(
        &self,
        timestamp: u64,
        user_data: Option<Vec<u8>>,
        nonce: Option<Vec<u8>>,
        public_key: Option<Vec<u8>>,
    ) -> AttestationDocView {
        AttestationDocView {
            module_id: "unsecure-development-attestation-document"@,
            digest: Digest::SHA384,
            timestamp,
            pcrs: wire_of(self.spec_pcrs()),
            certificate: self.spec_end_cert(),
            cabundle: self.spec_ca_bundle(),
            public_key: crate::api::opt_bytes_view(public_key),
            user_data: crate::api::opt_bytes_view(user_data),
            nonce: crate::api::opt_bytes_view(nonce),
        }
    }

    /// What a response to a describe request must look like: the requested
    /// register with its lock bit for a valid index, an invalid-index error
    /// otherwise.
    pub open spec fn describe_resp(&self, index: u16, response: Response) -> bool {
        match response {
            Response::DescribePCR { lock, data } => {
                &&& lock == true
                &&& valid_pcr_index(index as usize)
                &&& data@ == self.spec_pcrs()[index as int]
            },
            Response::Error(code) => {
                &&& code == ErrorCode::InvalidIndex
                &&& !valid_pcr_index(index as usize)
            },
            _ => false,
        }
    }

    /// What a response to an attestation request must look like at one
    /// timestamp: the signed document whose payload is exactly the CBOR of
    /// [`DevNitro::doc_at`], or an internal error exactly when signing
    /// fails.
    pub open spec fn attestation_resp_at(
        &self,
        timestamp: u64,
        user_data: Option<Vec<u8>>,
        nonce: Option<Vec<u8>>,
        public_key: Option<Vec<u8>>,
        response: Response,
    ) -> bool {
        let doc = self.doc_at(timestamp, user_data, nonce, public_key);
        match response {
            Response::Attestation { document } => {
                &&& Some(document@) == cose_sign1_es384_of(cbor_of(doc), self.spec_signing_key())
                &&& cose_payload_of(document@) == Some(cbor_of(doc))
                &&& cbor_doc_of(cbor_of(doc)) == Some(doc)
            },
            Response::Error(code) => {
                &&& code == ErrorCode::InternalError
                &&& cose_sign1_es384_of(cbor_of(doc), self.spec_signing_key()) is None
            },
            _ => false,
        }
    }

    /// What a response to an attestation request must look like: as
    /// [`DevNitro::attestation_resp_at`], at some timestamp — the time
    /// source's fixed value when it has one.
    pub open spec fn attestation_resp(
        &self,
        user_data: Option<Vec<u8>>,
        nonce: Option<Vec<u8>>,
        public_key: Option<Vec<u8>>,
        response: Response,
    ) -> bool {
        exists|timestamp: u64|
            {
                &&& #[trigger] self.attestation_resp_at(
                    timestamp,
                    user_data,
                    nonce,
                    public_key,
                    response,
                )
                &&& (self.spec_time().is_fixed() ==> timestamp == self.spec_time().fixed_millis())
            }
    }

    /// Builds a mock driver. `signing_key_der` is used to sign the
    /// documents; `end_cert` is its DER certificate and should contain the
    /// matching public key.
    pub fn builder(signing_key_der: Vec<u8>, end_cert: Vec<u8>) -> (r: DevNitroBuilder)
        ensures
            r.spec_signing_key() == signing_key_der@,
            r.spec_end_cert() == end_cert@,
            !r.spec_time().is_fixed(),
            r.spec_ca_bundle() is None,
            r.spec_pcrs() == crate::pcr::zero_pcrs(),
    {
        DevNitroBuilder::new(signing_key_der, end_cert, Time::system_time())
    }

    fn describe_pcr(&self, index: u16) -> (r: Response)
        requires
            self.pcrs.wf(),
        ensures
            self.describe_resp(index, r),
    {
        match PcrIndex::try_from(index as usize) {
            Ok(idx) => {
                let pcr = self.pcrs.get(idx);
                Response::DescribePCR { lock: true, data: pcr.to_vec() }
            },
            Err(_) => Response::Error(ErrorCode::InvalidIndex),
        }
    }

    fn attestation(
        &self,
        user_data: Option<Vec<u8>>,
        nonce: Option<Vec<u8>>,
        public_key: Option<Vec<u8>>,
    ) -> (r: Response)
        ensures
            self.attestation_resp(user_data, nonce, public_key, r),
    {
        let timestamp = self.get_timestamp.time();
        let doc = AttestationDoc {
            module_id: "unsecure-development-attestation-document".to_owned(),
            digest: Digest::SHA384,
            timestamp,
            pcrs: self.pcrs.to_wire(),
            certificate: self.end_cert.clone(),
            cabundle: clone_bytes_list(&self.ca_bundle),
            user_data,
            nonce,
            public_key,
        };
        proof {
            assert(doc@ =~= self.doc_at(timestamp, doc.user_data, doc.nonce, doc.public_key));
            lemma_wire_sorted(self.spec_pcrs());
        }
        let r = match doc.sign(self.signing_key.as_slice()) {
            Ok(document) => Response::Attestation { document },
            Err(_) => Response::Error(ErrorCode::InternalError),
        };
        proof {
            assert(self.attestation_resp_at(timestamp, doc.user_data, doc.nonce, doc.public_key, r));
        }
        r
    }
}

/// Law: a document the mock driver attested, when verification succeeds on
/// it, decodes to exactly the document the driver built — same register
/// bank, same certificates, and the caller's nonce unchanged. The first
/// premise is what the driver ensures of an attestation response at some
/// timestamp; the rest is what verification ensures on success.
pub proof fn lemma_attestation_then_verify_returns_built_doc(
    driver: DevNitro,
    timestamp: u64,
    user_data: Option<Vec<u8>>,
    nonce: Option<Vec<u8>>,
    public_key: Option<Vec<u8>>,
    document: Vec<u8>,
    verified: AttestationDocView,
)
    requires
        driver.attestation_resp_at(
            timestamp,
            user_data,
            nonce,
            public_key,
            Response::Attestation { document },
        ),
        crate::verify::decoded_doc(document@) == Some(verified),
    ensures
        verified == driver.doc_at(timestamp, user_data, nonce, public_key),
        verified.nonce == crate::api::opt_bytes_view(nonce),
{
    lemma_sign_then_verify_returns_original(
        driver.doc_at(timestamp, user_data, nonce, public_key),
        document@,
        verified,
    );
}

impl Driver for DevNitro {
    /// The configuration is usable when the register bank is well formed.
    open spec fn wf(&self) -> bool {
        crate::pcr::pcrs_view_wf(self.spec_pcrs())
    }

    /// Describe requests answer from the register bank; attestation requests
    /// answer with a signed document; every other request is an
    /// invalid-operation error.
    open spec fn post(&self, request: Request, response: Response) -> bool {
        match request {
            Request::DescribePCR { index } => self.describe_resp(index, response),
            Request::Attestation { user_data, nonce, public_key } => self.attestation_resp(
                user_data,
                nonce,
                public_key,
                response,
            ),
            _ => response == Response::Error(ErrorCode::InvalidOperation),
        }
    }

    fn process_request(&self, request: Request) -> (r: Response) {
        match request {
            Request::DescribePCR { index } => self.describe_pcr(index),
            Request::Attestation { user_data, nonce, public_key } => self.attestation(
                user_data,
                nonce,
                public_key,
            ),
            _ => Response::Error(ErrorCode::InvalidOperation),
        }
    }
}

/// A builder for [`DevNitro`].
pub struct DevNitroBuilder {
    signing_key: Vec<u8>,
    end_cert: Vec<u8>,
    ca_bundle: Option<Vec<Vec<u8>>>,
    pcrs: Pcrs,
    get_timestamp: Time,
}

impl DevNitroBuilder {
    /// The signer's PKCS#8 DER private key.
    pub closed spec fn spec_signing_key(&self) -> Seq<u8> {
        self.signing_key@
    }

    /// The signer's DER end certificate.
    pub closed spec fn spec_end_cert(&self) -> Seq<u8> {
        self.end_cert@
    }

    /// The intermediate bundle, if one was set.
    pub closed spec fn spec_ca_bundle(&self) -> Option<Seq<Seq<u8>>> {
        match self.ca_bundle {
            Some(bundle) => Some(bytes_views(bundle@)),
            None => None,
        }
    }

    /// The register bank the driver will be built with.
    pub closed spec fn spec_pcrs(&self) -> Map<int, Seq<u8>> {
        self.pcrs@
    }

    /// Whether the register bank is well formed.
    pub closed spec fn spec_pcrs_wf(&self) -> bool {
        self.pcrs.wf()
    }

    /// The time source the driver will be built with.
    pub closed spec fn spec_time(&self) -> Time {
        self.get_timestamp
    }

    /// `signing_key_der`: the PKCS#8 DER P-384 key that signs the documents.
    /// `end_cert`: a DER certificate that should contain that key's public
    /// half. `get_timestamp` stamps each document with its creation time.
    pub(crate) fn new(signing_key_der: Vec<u8>, end_cert: Vec<u8>, get_timestamp: GetTimestamp) -> (
        r: DevNitroBuilder)
        ensures
            r.spec_signing_key() == signing_key_der@,
            r.spec_end_cert() == end_cert@,
            r.spec_time() == get_timestamp,
            r.spec_ca_bundle() is None,
            r.spec_pcrs() == crate::pcr::zero_pcrs(),
            r.spec_pcrs_wf(),
    {
        let pcrs = Pcrs::zeros();
        proof {
            assert(pcrs@ =~= crate::pcr::zero_pcrs());
        }
        DevNitroBuilder {
            signing_key: signing_key_der,
            end_cert,
            ca_bundle: None,
            pcrs,
            get_timestamp,
        }
    }

    /// Sets the documents' intermediate-certificate bundle, as a list of DER
    /// certificates.
    pub fn ca_bundle(self, ca_bundle: Vec<Vec<u8>>) -> (r: DevNitroBuilder)
        ensures
            r.spec_signing_key() == self.spec_signing_key(),
            r.spec_end_cert() == self.spec_end_cert(),
            r.spec_time() == self.spec_time(),
            r.spec_ca_bundle() == Some(bytes_views(ca_bundle@)),
            r.spec_pcrs() == self.spec_pcrs(),
            self.spec_pcrs_wf() ==> r.spec_pcrs_wf(),
    {
        DevNitroBuilder { ca_bundle: Some(ca_bundle), ..self }
    }

    /// Sets the documents' register bank.
    pub fn pcrs(self, pcrs: Pcrs) -> (r: DevNitroBuilder)
        requires
            pcrs.wf(),
        ensures
            r.spec_signing_key() == self.spec_signing_key(),
            r.spec_end_cert() == self.spec_end_cert(),
            r.spec_time() == self.spec_time(),
            r.spec_ca_bundle() == self.spec_ca_bundle(),
            r.spec_pcrs() == pcrs@,
            r.spec_pcrs_wf(),
    {
        DevNitroBuilder { pcrs, ..self }
    }

    /// Builds the attestation module with the mock driver answering its
    /// requests. An unset intermediate bundle becomes the empty list.
    pub fn build(self) -> (r: Nsm<DevNitro>)
        requires
            self.spec_pcrs_wf(),
        ensures
            r.spec_driver().wf(),
            r.spec_driver().spec_signing_key() == self.spec_signing_key(),
            r.spec_driver().spec_end_cert() == self.spec_end_cert(),
            r.spec_driver().spec_ca_bundle() == (match self.spec_ca_bundle() {
                Some(bundle) => bundle,
                None => Seq::<Seq<u8>>::empty(),
            }),
            r.spec_driver().spec_pcrs() == self.spec_pcrs(),
            r.spec_driver().spec_time() == self.spec_time(),
    {
        let ca_bundle = match self.ca_bundle {
            Some(bundle) => bundle,
            None => Vec::new(),
        };
        proof {
            if self.ca_bundle is None {
                assert(bytes_views(Seq::<Vec<u8>>::empty()) =~= Seq::<Seq<u8>>::empty());
            }
        }
        Nsm::new(DevNitro {
            signing_key: self.signing_key,
            end_cert: self.end_cert,
            ca_bundle,
            pcrs: self.pcrs,
            get_timestamp: self.get_timestamp,
        })
    }
}

} // verus!
