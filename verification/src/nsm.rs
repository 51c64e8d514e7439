//! The driver abstraction: one request/response capability with
//! interchangeable backends, selected at construction time.

use vstd::prelude::*;

use crate::api::{Request, Response};
use crate::dev::DevNitroBuilder;
use crate::time::GetTimestamp;

verus! {

/// A backend that answers attestation-module requests.
///
/// Each implementation states, as [`Driver::post`], the relation it
/// guarantees between a request and its response.
pub trait Driver: Sized {
    /// When this driver's configuration is usable.
    spec fn wf(&self) -> bool;

    /// The relation this driver guarantees between a request and its
    /// response.
    spec fn post(&self, request: Request, response: Response) -> bool;

    /// Answers one request. Requests are stateless and independent.
    fn process_request(&self, request: Request) -> (r: Response)
        requires
            self.wf(),
        ensures
            self.post(request, r),
    ;
}

/// The attestation module as callers see it: whatever backend it was built
/// with answers the requests.
pub struct Nsm<D: Driver> {
    driver: D,
}

impl<D: Driver> Nsm<D> {
    /// The backend this module was built with.
    pub closed spec fn spec_driver(&self) -> D {
        self.driver
    }

    /// A module answering with the given backend.
    pub fn new(driver: D) -> (r: Nsm<D>)
        ensures
            r.spec_driver() == driver,
    {
        Nsm { driver }
    }

    /// Hands the request to the configured backend.
    pub fn process_request(&self, request: Request) -> (r: Response)
        requires
            self.spec_driver().wf(),
        ensures
            self.spec_driver().post(request, r),
    {
        self.driver.process_request(request)
    }
}

/// The entry point for configuring an attestation module.
pub struct NsmBuilder;

impl NsmBuilder {
    /// A new builder.
    pub fn new() -> NsmBuilder {
        NsmBuilder
    }

    /// Configures a mock backend with its own signing identity: the signer's
    /// PKCS#8 DER P-384 key, its DER end certificate, and the time source
    /// that stamps the documents.
    pub fn dev_mode(
        self,
        signing_key_der: Vec<u8>,
        end_cert: Vec<u8>,
        get_timestamp: GetTimestamp,
    ) -> (r: DevNitroBuilder)
        ensures
            r.spec_signing_key() == signing_key_der@,
            r.spec_end_cert() == end_cert@,
            r.spec_time() == get_timestamp,
            r.spec_ca_bundle() is None,
            r.spec_pcrs() == crate::pcr::zero_pcrs(),
    {
        DevNitroBuilder::new(signing_key_der, end_cert, get_timestamp)
    }
}

} // verus!
