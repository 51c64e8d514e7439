//! Certificate-chain verification: the third of the four verification steps.
//!
//! The path building and signature checking itself is `rustls-webpki`'s; the
//! decisions around it — which input failed, in which order the checks run —
//! are this module's and are verified.

use std::time::Duration;

use rustls_pki_types::{CertificateDer, UnixTime};
use vstd::prelude::*;
use webpki::{anchor_from_trusted_cert, EndEntityCert, KeyUsage};

use crate::time::Time;
use crate::verify::{ErrorKind, VerifyError};
use crate::{Error, ErrorContext};

verus! {

/// The views of a list of DER byte strings, pairwise.
pub open spec fn bytes_views(certs: Seq<Vec<u8>>) -> Seq<Seq<u8>> {
    certs.map_values(|c: Vec<u8>| c@)
}

/// Whether `end` parses as an end-entity certificate.
pub uninterp spec fn end_cert_parses(end: Seq<u8>) -> bool;

/// Whether `root` parses as a trust anchor.
pub uninterp spec fn anchor_parses(root: Seq<u8>) -> bool;

/// Whether the chain from `end` through `ints`, anchored at `root`, verifies
/// for server-auth key usage with ECDSA P-384/SHA-384 at `time_millis`, with
/// revocation checking disabled.
pub uninterp spec fn chain_valid_at(
    root: Seq<u8>,
    ints: Seq<Seq<u8>>,
    end: Seq<u8>,
    time_millis: u64,
) -> bool;

/// Relies on `webpki::EndEntityCert::try_from`: whether the bytes parse as
/// an end-entity certificate. A function of the bytes alone.
#[verifier::external_body]
fn webpki_end_cert_ok(end: &[u8]) -> (r: bool)
    ensures
        r == end_cert_parses(end@),
{
    let der = CertificateDer::from(end);
    EndEntityCert::try_from(&der).is_ok()
}

/// Relies on `webpki::anchor_from_trusted_cert`: whether the bytes parse as
/// a trust anchor. A function of the bytes alone.
#[verifier::external_body]
fn webpki_anchor_ok(root: &[u8]) -> (r: bool)
    ensures
        r == anchor_parses(root@),
{
    let der = CertificateDer::from(root);
    anchor_from_trusted_cert(&der).is_ok()
}

/// Relies on `webpki::EndEntityCert::verify_for_usage`: chain verification
/// for server-auth usage with ECDSA P-384/SHA-384, at the given time, with
/// revocation checking disabled, as the platform's verification instructions
/// require. A function of its arguments alone.
#[verifier::external_body]
fn webpki_chain_valid(root: &[u8], ints: &Vec<Vec<u8>>, end: &[u8], time_millis: u64) -> (r: bool)
    ensures
        r == chain_valid_at(root@, bytes_views(ints@), end@, time_millis),
{
    let root_der = CertificateDer::from(root);
    let end_der = CertificateDer::from(end);
    let (Ok(anchor), Ok(end_cert)) =
        (anchor_from_trusted_cert(&root_der), EndEntityCert::try_from(&end_der))
    else {
        return false;
    };
    let ints: Vec<CertificateDer> =
        ints.iter().map(|c| CertificateDer::from(c.as_slice())).collect();
    let time = UnixTime::since_unix_epoch(Duration::from_millis(time_millis));
    end_cert.verify_for_usage(&[webpki::ring::ECDSA_P384_SHA384], &[anchor], &ints, time,
        KeyUsage::server_auth(), None, None).is_ok()
}

/// A chain of trust awaiting verification: trust anchor, intermediates, and
/// end-entity certificate, all DER encoded.
#[must_use]
pub(crate) struct ChainVerifier<'a> {
    root_cert: &'a [u8],
    int_certs: &'a Vec<Vec<u8>>,
    end_cert: &'a [u8],
}

impl<'a> ChainVerifier<'a> {
    /// The trust anchor this verifier was built with.
    pub(crate) closed spec fn spec_root(&self) -> Seq<u8> {
        self.root_cert@
    }

    /// The intermediate certificates this verifier was built with.
    pub(crate) closed spec fn spec_ints(&self) -> Seq<Seq<u8>> {
        bytes_views(self.int_certs@)
    }

    /// The end-entity certificate this verifier was built with.
    pub(crate) closed spec fn spec_end(&self) -> Seq<u8> {
        self.end_cert@
    }

    /// Checks that the end-entity certificate and the trust anchor parse, in
    /// that order, and keeps the chain for verification; fails with an
    /// end-certificate or root-certificate error respectively.
    pub(crate) fn new(root_cert: &'a [u8], int_certs: &'a Vec<Vec<u8>>, end_cert: &'a [u8]) -> (r:
        Result<ChainVerifier<'a>, VerifyError>)
        ensures
            r is Ok <==> end_cert_parses(end_cert@) && anchor_parses(root_cert@),
            r matches Ok(v) ==> v.spec_root() == root_cert@ && v.spec_ints() == bytes_views(
                int_certs@,
            ) && v.spec_end() == end_cert@,
            !end_cert_parses(end_cert@) ==> (r matches Err(e) && e.spec_kind()
                == ErrorKind::EndCertificate),
            end_cert_parses(end_cert@) && !anchor_parses(root_cert@) ==> (r matches Err(e)
                && e.spec_kind() == ErrorKind::RootCertificate),
    {
        if !webpki_end_cert_ok(end_cert) {
            return Err(Error::new(
                ErrorKind::EndCertificate,
                ErrorContext("Failed to parse end certificate"),
            ));
        }
        if !webpki_anchor_ok(root_cert) {
            return Err(Error::new(
                ErrorKind::RootCertificate,
                ErrorContext("Failed to parse trust anchor"),
            ));
        }
        Ok(ChainVerifier { root_cert, int_certs, end_cert })
    }

    /// Verifies the chain at one reading of `time`. The platform's
    /// verification instructions require revocation checking to be disabled
    /// when validating, so none is attempted.
    pub(crate) fn verify(self, time: &Time) -> (r: Result<(), VerifyError>)
        ensures
            time.is_fixed() ==> (r is Ok <==> chain_valid_at(
                self.spec_root(),
                self.spec_ints(),
                self.spec_end(),
                time.fixed_millis(),
            )),
            r is Ok ==> exists|t: u64| chain_valid_at(
                self.spec_root(),
                self.spec_ints(),
                self.spec_end(),
                t,
            ),
            r matches Err(e) ==> e.spec_kind() == ErrorKind::Verification,
    {
        let now = time.time();
        if webpki_chain_valid(self.root_cert, self.int_certs, self.end_cert, now) {
            proof {
                assert(chain_valid_at(self.spec_root(), self.spec_ints(), self.spec_end(), now));
            }
            Ok(())
        } else {
            Err(Error::new(ErrorKind::Verification, ErrorContext("Chain verification failed")))
        }
    }
}

} // verus!
