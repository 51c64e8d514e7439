use nsm_nitro_enclave_utils::pcr::{Pcr, PcrErrorKind, PcrIndex, Pcrs};
use sha2::Digest;

const PCR_LENGTH: usize = 48;
const VALID_INDEXES: [usize; 6] = [0, 1, 2, 3, 4, 8];

fn is_all_zeros(pcrs: Pcrs) {
    for index in VALID_INDEXES {
        let pcr = pcrs.checked_get(index).expect("valid index must be present");
        assert!(pcr.as_bytes().iter().all(|b| *b == 0));
    }
}

#[test]
fn pcr_pcrs_defaults_to_zero() {
    let pcrs = Pcrs::default();
    is_all_zeros(pcrs);
}

#[test]
fn pcrs_pcrs_defaults_to_zero() {
    let pcrs = Pcrs::default();
    is_all_zeros(pcrs);
}

#[test]
fn pcr_pcrs_zeros_is_zeros() {
    let pcrs = Pcrs::zeros();
    is_all_zeros(pcrs);
}

#[test]
fn pcrs_pcrs_zeros_is_zeros() {
    let pcrs = Pcrs::zeros();
    is_all_zeros(pcrs);
}

#[test]
fn pcr_pcr_string_must_be_96_chars() {
    let too_short = vec![0; PCR_LENGTH - 1];
    Pcr::try_from(too_short).unwrap_err();

    let too_long = vec![0; PCR_LENGTH + 1];
    Pcr::try_from(too_long).unwrap_err();

    let just_right = vec![0; PCR_LENGTH];
    assert!(Pcr::try_from(just_right).is_ok());
}

#[test]
fn pcrs_pcr_string_must_be_96_chars() {
    let err = Pcr::try_from(vec![0; PCR_LENGTH - 1]).unwrap_err();
    assert_eq!(*err.kind(), PcrErrorKind::Length);

    let too_long = vec![0; PCR_LENGTH + 1];
    let err = Pcr::try_from(too_long).unwrap_err();
    assert_eq!(*err.kind(), PcrErrorKind::Length);

    let just_right = vec![0; PCR_LENGTH];
    assert!(Pcr::try_from(just_right).is_ok());
}

#[test]
fn pcrs_checked_get_bounds() {
    let pcrs = Pcrs::zeros();
    for index in VALID_INDEXES {
        pcrs.checked_get(index).expect("Failed to get PCR in range");
    }

    let err = pcrs.checked_get(8 + 1).unwrap_err();
    assert_eq!(*err.kind(), PcrErrorKind::Index);
}

#[test]
fn pcrs_checked_set() {
    let mut pcrs = Pcrs::zeros();
    let updated = vec![1; PCR_LENGTH];
    for index in VALID_INDEXES {
        pcrs.checked_set(index, updated.clone()).unwrap();
        assert_eq!(pcrs.checked_get(index).unwrap().to_vec(), updated);
    }
}

#[test]
fn pcrs_checked_set_bounds() {
    let mut pcrs = Pcrs::zeros();
    let updated = vec![1; PCR_LENGTH];
    for index in VALID_INDEXES {
        pcrs.checked_set(index, updated.clone())
            .expect("Failed to set PCR in range");
    }

    let err = pcrs.checked_set(8 + 1, updated).unwrap_err();
    assert_eq!(*err.kind(), PcrErrorKind::Index);
}

#[test]
fn pcr_reliable_b_tree_map() {
    let pcrs = Pcrs::zeros();
    let wire = pcrs.to_wire();
    for index in VALID_INDEXES {
        assert!(wire.iter().any(|p| p.0 == index as u64));
    }

    assert!(!wire.iter().any(|p| p.0 == 8 + 1));
}

#[test]
fn pcrs_reliable_b_tree_map() {
    let pcrs = Pcrs::zeros();
    let wire = pcrs.to_wire();
    for index in VALID_INDEXES {
        assert!(wire.iter().any(|p| p.0 == index as u64));
    }

    assert!(!wire.iter().any(|p| p.0 == 8 + 1));
}

#[test]
fn pcr_rand() {
    let a = Pcrs::rand();
    let b = Pcrs::rand();
    assert_ne!(a, b);
}

#[test]
fn pcrs_rand() {
    let a = Pcrs::rand();
    let b = Pcrs::rand();
    assert_ne!(a, b);
}

#[test]
fn pcr_seed_is_deterministic() {
    let mut seed = Vec::new();
    for index in VALID_INDEXES {
        seed.push((PcrIndex::try_from(index).unwrap(), index.to_string()));
    }
    let a = Pcrs::seed(seed.clone());
    let b = Pcrs::seed(seed);
    assert_eq!(a, b);

    let mut alt_seed = Vec::new();
    for index in VALID_INDEXES {
        alt_seed.push((PcrIndex::try_from(index).unwrap(), (index + 1).to_string()));
    }
    let c = Pcrs::seed(alt_seed);
    assert_ne!(a, c);
}

#[test]
fn pcrs_seed_is_deterministic() {
    let mut seed = Vec::new();
    for index in VALID_INDEXES {
        seed.push((PcrIndex::try_from(index).unwrap(), index.to_string()));
    }
    let a = Pcrs::seed(seed.clone());
    let b = Pcrs::seed(seed);
    assert_eq!(a, b);

    let mut alt_seed = Vec::new();
    for index in VALID_INDEXES {
        alt_seed.push((PcrIndex::try_from(index).unwrap(), (index + 1).to_string()));
    }
    let c = Pcrs::seed(alt_seed);
    assert_ne!(a, c);
}

#[test]
fn seed_hashes_each_value() {

    let seed = vec![(PcrIndex::Zero, "0".to_string())];
    let pcrs = Pcrs::seed(seed);
    let expected: Vec<u8> = sha2::Sha384::digest("0".as_bytes()).to_vec();
    assert_eq!(pcrs.checked_get(0).unwrap().to_vec(), expected);
    assert_ne!(expected, "0".as_bytes());
}

#[test]
fn seed_omitted_index_stays_zero() {
    let seed = vec![(PcrIndex::Zero, "only this one".to_string())];
    let pcrs = Pcrs::seed(seed);
    assert!(pcrs.checked_get(1).unwrap().as_bytes().iter().all(|b| *b == 0));
    assert!(pcrs.checked_get(0).unwrap().as_bytes().iter().any(|b| *b != 0));
}

#[test]
fn seed_later_entry_wins() {
    let seed = vec![
        (PcrIndex::Two, "first".to_string()),
        (PcrIndex::Two, "second".to_string()),
    ];
    let pcrs = Pcrs::seed(seed);
    let only_second = Pcrs::seed(vec![(PcrIndex::Two, "second".to_string())]);
    assert_eq!(pcrs, only_second);
}

#[test]
fn pcr_index_try_from_round_trips() {
    for index in VALID_INDEXES {
        let typed = PcrIndex::try_from(index).unwrap();
        assert_eq!(typed.as_usize(), index);
    }
    for index in [5usize, 6, 7, 9, 100] {
        let err = PcrIndex::try_from(index).unwrap_err();
        assert_eq!(*err.kind(), PcrErrorKind::Index);
    }
}

#[test]
fn pcrs_try_from_rejects_bad_entries() {
    let good = Pcrs::try_from(vec![(0usize, vec![7u8; PCR_LENGTH])]).unwrap();
    assert_eq!(good.checked_get(0).unwrap().to_vec(), vec![7u8; PCR_LENGTH]);

    let err = Pcrs::try_from(vec![(5usize, vec![7u8; PCR_LENGTH])]).unwrap_err();
    assert_eq!(*err.kind(), PcrErrorKind::Index);

    let err = Pcrs::try_from(vec![(0usize, vec![7u8; PCR_LENGTH - 1])]).unwrap_err();
    assert_eq!(*err.kind(), PcrErrorKind::Length);
}

#[test]
fn pcrs_from_entries_fills_missing_with_zeros() {
    let pcr = Pcr::try_from(vec![9u8; PCR_LENGTH]).unwrap();
    let pcrs = Pcrs::from_entries(vec![(PcrIndex::Eight, pcr)]);
    assert_eq!(pcrs.checked_get(8).unwrap().to_vec(), vec![9u8; PCR_LENGTH]);
    assert!(pcrs.checked_get(0).unwrap().as_bytes().iter().all(|b| *b == 0));
}

#[test]
fn rand_fill_is_alphanumeric() {
    let pcrs = Pcrs::rand();
    for index in VALID_INDEXES {
        let pcr = pcrs.checked_get(index).unwrap();
        assert!(pcr.as_bytes().iter().all(|b| b.is_ascii_alphanumeric()));
    }
}
