use std::time::{SystemTime, UNIX_EPOCH};

use nsm_nitro_enclave_utils::api::{
    AttestationDoc, Digest, ErrorCode, Request, Response,
};
use nsm_nitro_enclave_utils::keygen::NsmCertChain;
use nsm_nitro_enclave_utils::nsm::NsmBuilder;
use nsm_nitro_enclave_utils::pcr::Pcrs;
use nsm_nitro_enclave_utils::sign::AttestationDocSignerExt;
use nsm_nitro_enclave_utils::time::Time;
use nsm_nitro_enclave_utils::verify::{AttestationDocVerifierExt, ErrorKind};
use coset::CborSerializable;
use nsm_nitro_enclave_utils::pcr::PcrIndex;

fn now_millis() -> u64 {
    u64::try_from(
        SystemTime::now()
            .duration_since(UNIX_EPOCH)
            .unwrap()
            .as_millis(),
    )
    .unwrap()
}

fn signed_doc(chain: &NsmCertChain, timestamp: u64, nonce: Option<Vec<u8>>) -> Vec<u8> {
    let doc = AttestationDoc {
        module_id: "test".to_string(),
        digest: Digest::SHA384,
        timestamp,
        pcrs: Pcrs::default().to_wire(),
        certificate: chain.end_signer.cert.clone(),
        cabundle: vec![chain.int.clone()],
        public_key: None,
        user_data: None,
        nonce,
    };
    doc.sign(&chain.end_signer.signing_key).unwrap()
}

#[test]
fn tampered_payload_is_never_accepted() {

    let now = now_millis();
    let chain = NsmCertChain::generate(60 * 10).unwrap();
    let signed = signed_doc(&chain, now, None);

    // Locate the embedded payload inside the blob; flipping bytes there must
    // never yield an accepted document.
    let payload = coset::CoseSign1::from_slice(&signed)
        .unwrap()
        .payload
        .unwrap();
    let start = (0..signed.len() - payload.len() + 1)
        .find(|&i| signed[i..i + payload.len()] == payload[..])
        .expect("payload must be embedded verbatim");

    let mut saw_signature_failure = false;
    for i in start..start + payload.len() {
        let mut tampered = signed.clone();
        tampered[i] ^= 0x01;
        match AttestationDoc::from_cose(&tampered, &chain.root, Time::new(now)) {
            Ok(_) => panic!("tampered payload accepted at byte {i}"),
            Err(e) => {
                if *e.kind() == ErrorKind::Verification {
                    saw_signature_failure = true;
                }
            }
        }
    }
    assert!(saw_signature_failure);
}

#[test]
fn nonce_travels_unchanged() {
    let now = now_millis();
    let chain = NsmCertChain::generate(60 * 10).unwrap();
    let nonce = vec![7u8; 32];
    let signed = signed_doc(&chain, now, Some(nonce.clone()));

    let decoded = AttestationDoc::from_cose(&signed, &chain.root, Time::new(now)).unwrap();
    assert_eq!(decoded.nonce, Some(nonce));
}

#[test]
fn expired_chain_fails_verification() {
    let now = now_millis();
    let chain = NsmCertChain::generate(60 * 10).unwrap();
    let signed = signed_doc(&chain, now, None);

    let past_expiry = now + 11 * 60 * 1000;
    let err = AttestationDoc::from_cose(&signed, &chain.root, Time::new(past_expiry)).unwrap_err();
    assert_eq!(*err.kind(), ErrorKind::Verification);
}

#[test]
fn untrusted_root_fails_verification() {
    let now = now_millis();
    let chain = NsmCertChain::generate(60 * 10).unwrap();
    let other_chain = NsmCertChain::generate(60 * 10).unwrap();
    let signed = signed_doc(&chain, now, None);

    let err = AttestationDoc::from_cose(&signed, &other_chain.root, Time::new(now)).unwrap_err();
    assert!(matches!(
        *err.kind(),
        ErrorKind::Verification | ErrorKind::RootCertificate
    ));
}

#[test]
fn garbage_bytes_fail_as_cose() {
    let err =
        AttestationDoc::from_cose(&[0xffu8; 32], &[0u8; 16], Time::new(now_millis())).unwrap_err();
    assert_eq!(*err.kind(), ErrorKind::Cose);
}

#[test]
fn non_document_payload_fails_as_attestation_doc() {

    // A well-formed COSE_Sign1 whose payload is not a CBOR document.
    let cose = coset::CoseSign1Builder::new()
        .payload(b"not an attestation document".to_vec())
        .protected(
            coset::HeaderBuilder::new()
                .algorithm(coset::iana::Algorithm::ES384)
                .build(),
        )
        .create_signature(b"", |_| vec![0u8; 96])
        .build();
    let bytes = cose.to_vec().unwrap();

    let err = AttestationDoc::from_cose(&bytes, &[0u8; 16], Time::new(now_millis())).unwrap_err();
    assert_eq!(*err.kind(), ErrorKind::AttestationDoc);
}

#[test]
fn garbage_end_certificate_fails_as_end_certificate() {
    let now = now_millis();
    let chain = NsmCertChain::generate(60 * 10).unwrap();
    let doc = AttestationDoc {
        module_id: "test".to_string(),
        digest: Digest::SHA384,
        timestamp: now,
        pcrs: Pcrs::default().to_wire(),
        certificate: vec![1, 2, 3],
        cabundle: vec![chain.int.clone()],
        public_key: None,
        user_data: None,
        nonce: None,
    };
    let signed = doc.sign(&chain.end_signer.signing_key).unwrap();

    let err = AttestationDoc::from_cose(&signed, &chain.root, Time::new(now)).unwrap_err();
    assert_eq!(*err.kind(), ErrorKind::EndCertificate);
}

#[test]
fn garbage_root_fails_as_root_certificate() {
    let now = now_millis();
    let chain = NsmCertChain::generate(60 * 10).unwrap();
    let signed = signed_doc(&chain, now, None);

    let err = AttestationDoc::from_cose(&signed, &[0u8; 16], Time::new(now)).unwrap_err();
    assert_eq!(*err.kind(), ErrorKind::RootCertificate);
}

#[test]
fn changing_one_seed_value_changes_the_bank() {

    let base = vec![
        (PcrIndex::Zero, "a".to_string()),
        (PcrIndex::One, "b".to_string()),
        (PcrIndex::Two, "c".to_string()),
        (PcrIndex::Three, "d".to_string()),
        (PcrIndex::Four, "e".to_string()),
        (PcrIndex::Eight, "f".to_string()),
    ];
    let mut changed = base.clone();
    changed[0].1 = "A".to_string();

    assert_ne!(Pcrs::seed(base), Pcrs::seed(changed));
}

#[test]
fn driver_describe_pcr() {
    let chain = NsmCertChain::generate(60 * 10).unwrap();
    let nsm = NsmBuilder::new()
        .dev_mode(
            chain.end_signer.signing_key.clone(),
            chain.end_signer.cert.clone(),
            Time::new(now_millis()),
        )
        .ca_bundle(vec![chain.int.clone()])
        .pcrs(Pcrs::zeros())
        .build();

    match nsm.process_request(Request::DescribePCR { index: 3 }) {
        Response::DescribePCR { lock, data } => {
            assert!(lock);
            assert_eq!(data, vec![0u8; 48]);
        }
        other => panic!("unexpected response: {other:?}"),
    }

    match nsm.process_request(Request::DescribePCR { index: 7 }) {
        Response::Error(code) => assert_eq!(code, ErrorCode::InvalidIndex),
        other => panic!("unexpected response: {other:?}"),
    }
}

#[test]
fn driver_rejects_other_operations() {
    let chain = NsmCertChain::generate(60 * 10).unwrap();
    let nsm = NsmBuilder::new()
        .dev_mode(
            chain.end_signer.signing_key.clone(),
            chain.end_signer.cert.clone(),
            Time::new(now_millis()),
        )
        .build();

    match nsm.process_request(Request::GetRandom) {
        Response::Error(code) => assert_eq!(code, ErrorCode::InvalidOperation),
        other => panic!("unexpected response: {other:?}"),
    }
    match nsm.process_request(Request::LockPCR { index: 0 }) {
        Response::Error(code) => assert_eq!(code, ErrorCode::InvalidOperation),
        other => panic!("unexpected response: {other:?}"),
    }
}

#[test]
fn driver_attestation_with_bad_key_is_internal_error() {
    let chain = NsmCertChain::generate(60 * 10).unwrap();
    let nsm = NsmBuilder::new()
        .dev_mode(
            vec![0u8; 10],
            chain.end_signer.cert.clone(),
            Time::new(now_millis()),
        )
        .build();

    match nsm.process_request(Request::Attestation {
        user_data: None,
        nonce: None,
        public_key: None,
    }) {
        Response::Error(code) => assert_eq!(code, ErrorCode::InternalError),
        other => panic!("unexpected response: {other:?}"),
    }
}

#[test]
fn end_to_end_attestation_round_trip() {
    // Chain generator -> mock driver built with its end signer and root ->
    // attestation request with a hex-encoded all-zero nonce -> the returned
    // document verifies against the generated root and hands the nonce back.
    let now = now_millis();
    let chain = NsmCertChain::generate(60 * 10).unwrap();

    let nonce_hex = "0".repeat(64);

    let nsm = NsmBuilder::new()
        .dev_mode(
            chain.end_signer.signing_key.clone(),
            chain.end_signer.cert.clone(),
            Time::new(now),
        )
        .ca_bundle(vec![chain.int.clone()])
        .pcrs(Pcrs::zeros())
        .build();

    let document = match nsm.process_request(Request::Attestation {
        user_data: None,
        nonce: Some(nonce_hex.clone().into_bytes()),
        public_key: None,
    }) {
        Response::Attestation { document } => document,
        other => panic!("unexpected response: {other:?}"),
    };

    let decoded = AttestationDoc::from_cose(&document, &chain.root, Time::new(now)).unwrap();
    assert_eq!(
        decoded.module_id,
        "unsecure-development-attestation-document"
    );
    assert_eq!(decoded.timestamp, now);
    let nonce = decoded.nonce.expect("nonce must be present");
    assert_eq!(String::from_utf8(nonce).unwrap(), nonce_hex);
}
