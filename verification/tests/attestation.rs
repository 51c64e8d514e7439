use std::time::{SystemTime, UNIX_EPOCH};

use nsm_nitro_enclave_utils::api::{AttestationDoc, Digest};
use nsm_nitro_enclave_utils::keygen::NsmCertChain;
use nsm_nitro_enclave_utils::pcr::Pcrs;
use nsm_nitro_enclave_utils::sign::AttestationDocSignerExt;
use nsm_nitro_enclave_utils::time::Time;
use nsm_nitro_enclave_utils::verify::AttestationDocVerifierExt;
use aws_nitro_enclaves_nsm_api::api as nsm;
use coset::CborSerializable;
use p384::pkcs8::DecodePrivateKey;

fn now_millis() -> u64 {
    u64::try_from(
        SystemTime::now()
            .duration_since(UNIX_EPOCH)
            .unwrap()
            .as_millis(),
    )
    .unwrap()
}

fn test_doc(chain: &NsmCertChain, timestamp: u64) -> AttestationDoc {
    AttestationDoc {
        module_id: "".to_string(),
        digest: Digest::SHA384,
        timestamp,
        pcrs: Pcrs::default().to_wire(),
        certificate: chain.end_signer.cert.clone(),
        cabundle: vec![chain.int.clone()],
        public_key: None,
        user_data: None,
        nonce: None,
    }
}

#[test]
fn generate_chain() {
    let until = 0;
    NsmCertChain::generate(until).unwrap();
}

#[test]
fn sign_and_verify() {
    let cert_valid_until_secs = 60 * 10;
    let cert_chain = NsmCertChain::generate(cert_valid_until_secs).unwrap();

    let doc = test_doc(&cert_chain, now_millis());

    let doc = doc.sign(&cert_chain.end_signer.signing_key).unwrap();

    AttestationDoc::from_cose(&doc, &cert_chain.root, Time::default()).unwrap();
}

#[test]
fn signer_encode_decode() {
    let now = now_millis();
    let cert_chain = NsmCertChain::generate(60 * 10).unwrap();

    let doc = test_doc(&cert_chain, now);

    let signed = doc.sign(&cert_chain.end_signer.signing_key).unwrap();

    let decoded = AttestationDoc::from_cose(&signed, &cert_chain.root, Time::new(now)).unwrap();
    assert_eq!(decoded, doc);
}

#[test]
fn mod_encode_decode() {
    let now = now_millis();
    let cert_chain = NsmCertChain::generate(60 * 10).unwrap();

    let doc = test_doc(&cert_chain, now);

    let signed = doc.sign(&cert_chain.end_signer.signing_key).unwrap();

    let decoded = AttestationDoc::from_cose(&signed, &cert_chain.root, Time::new(now)).unwrap();
    assert_eq!(decoded, doc);
}

#[test]
fn signed_blob_embeds_the_document_cbor() {

    let now = now_millis();
    let cert_chain = NsmCertChain::generate(60 * 10).unwrap();
    let doc = test_doc(&cert_chain, now);
    let signed = doc.sign(&cert_chain.end_signer.signing_key).unwrap();

    let cose = coset::CoseSign1::from_slice(&signed).unwrap();
    let payload = cose.payload.unwrap();

    let mut pcrs = std::collections::BTreeMap::new();
    for (index, value) in doc.pcrs.iter() {
        pcrs.insert(*index as usize, serde_bytes::ByteBuf::from(value.clone()));
    }
    let expected = nsm::AttestationDoc {
        module_id: doc.module_id.clone(),
        digest: nsm::Digest::SHA384,
        timestamp: doc.timestamp,
        pcrs,
        certificate: serde_bytes::ByteBuf::from(doc.certificate.clone()),
        cabundle: vec![serde_bytes::ByteBuf::from(cert_chain.int.clone())],
        public_key: None,
        user_data: None,
        nonce: None,
    }
    .to_binary();

    assert_eq!(payload, expected);
    assert_ne!(payload, signed);
}

#[test]
fn sign_with_invalid_key_fails() {
    let cert_chain = NsmCertChain::generate(60 * 10).unwrap();
    let doc = test_doc(&cert_chain, now_millis());
    let not_a_key = vec![0u8; 20];
    doc.sign(&not_a_key).unwrap_err();
}

#[test]
fn system_time_source_reads_a_plausible_clock() {
    // A reading after 2020-09-13 (1.6e12 ms since the epoch) and not absurdly
    // far in the future.
    let reading = Time::default().time();
    assert!(reading > 1_600_000_000_000);
    assert!(reading < 4_000_000_000_000);
    assert_eq!(Time::new(42).time(), 42);
}

#[test]
fn generated_signing_key_parses_as_p384() {
    let chain = NsmCertChain::generate(60 * 10).unwrap();
    p384::ecdsa::SigningKey::from_pkcs8_der(&chain.end_signer.signing_key).unwrap();
}
