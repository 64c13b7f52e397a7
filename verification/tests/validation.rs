use nssf::errors::AppError;
use nssf::types::common::{PlmnId, Snssai, Tai};
use nssf::validation::{
    snssai_eq, validate_plmn, validate_snssai, validate_snssai_list, validate_supi, validate_tai,
};

#[test]
fn test_validate_plmn_valid() {
    assert!(validate_plmn(&PlmnId {
        mcc: "001".to_string(),
        mnc: "01".to_string(),
    }));
    assert!(validate_plmn(&PlmnId {
        mcc: "310".to_string(),
        mnc: "410".to_string(),
    }));
}

#[test]
fn test_validate_plmn_invalid() {
    assert!(!validate_plmn(&PlmnId {
        mcc: "AB1".to_string(),
        mnc: "01".to_string(),
    }));
    assert!(!validate_plmn(&PlmnId {
        mcc: "01".to_string(),
        mnc: "01".to_string(),
    }));
    assert!(!validate_plmn(&PlmnId {
        mcc: "001".to_string(),
        mnc: "1".to_string(),
    }));
}

#[test]
fn test_validate_snssai_valid() {
    assert!(validate_snssai(&Snssai { sst: 1, sd: None }));
    assert!(validate_snssai(&Snssai {
        sst: 1,
        sd: Some("000001".to_string()),
    }));
    assert!(validate_snssai(&Snssai {
        sst: 255,
        sd: Some("ABCDEF".to_string()),
    }));
}

#[test]
fn test_validate_snssai_invalid_sd() {
    assert!(!validate_snssai(&Snssai {
        sst: 1,
        sd: Some("00001".to_string()),
    }));
    assert!(!validate_snssai(&Snssai {
        sst: 1,
        sd: Some("GGGGGG".to_string()),
    }));
}

#[test]
fn test_validate_supi() {
    let result = validate_supi("imsi-001010000000001");
    assert!(result.is_some());
    let (imsi, plmn) = result.unwrap();
    assert_eq!(imsi, "001010000000001");
    assert_eq!(plmn.mcc, "001");
    assert_eq!(plmn.mnc, "010");
}

#[test]
fn test_validate_supi_invalid() {
    assert!(validate_supi("001010000000001").is_none());
    assert!(validate_supi("imsi-12345").is_none());
    assert!(validate_supi("imsi-ABCDE0000000001").is_none());
}

#[test]
fn test_snssai_eq_basic() {
    let a = Snssai { sst: 1, sd: None };
    let b = Snssai { sst: 1, sd: None };
    assert!(snssai_eq(&a, &b));
}

#[test]
fn test_snssai_eq_sd_normalization() {
    let a = Snssai {
        sst: 1,
        sd: Some("abcdef".to_string()),
    };
    let b = Snssai {
        sst: 1,
        sd: Some("ABCDEF".to_string()),
    };
    assert!(snssai_eq(&a, &b));
}

#[test]
fn test_snssai_eq_none_vs_zeros() {
    let a = Snssai { sst: 1, sd: None };
    let b = Snssai {
        sst: 1,
        sd: Some("000000".to_string()),
    };
    assert!(snssai_eq(&a, &b));
}

#[test]
fn test_snssai_eq_different() {
    let a = Snssai { sst: 1, sd: None };
    let b = Snssai { sst: 2, sd: None };
    assert!(!snssai_eq(&a, &b));
}

#[test]
fn test_validate_snssai_list_ok() {
    let list = vec![Snssai { sst: 1, sd: None }, Snssai { sst: 2, sd: None }];
    assert!(validate_snssai_list(&list).is_ok());
}

#[test]
fn test_validate_snssai_list_too_many() {
    let list: Vec<Snssai> = (0..9).map(|i| Snssai { sst: i, sd: None }).collect();
    assert!(validate_snssai_list(&list).is_err());
}

#[test]
fn test_validate_snssai_list_duplicates() {
    let list = vec![
        Snssai { sst: 1, sd: None },
        Snssai {
            sst: 1,
            sd: Some("000000".to_string()),
        },
    ];
    assert!(validate_snssai_list(&list).is_err());
}

fn message(e: AppError) -> String {
    match e {
        AppError::BadRequest(m) => m,
        _ => panic!("expected a bad request"),
    }
}

#[test]
fn snssai_list_error_messages() {
    let too_many: Vec<Snssai> = (0..9).map(|i| Snssai { sst: i, sd: None }).collect();
    assert_eq!(
        message(validate_snssai_list(&too_many).unwrap_err()),
        "S-NSSAI list exceeds maximum of 8 entries"
    );
    let duplicated = vec![
        Snssai { sst: 1, sd: None },
        Snssai { sst: 1, sd: Some("000000".to_string()) },
    ];
    let text = message(validate_snssai_list(&duplicated).unwrap_err());
    assert!(text.starts_with("Duplicate S-NSSAI"), "{}", text);
    let invalid = vec![Snssai { sst: 1, sd: Some("12".to_string()) }];
    assert!(validate_snssai_list(&invalid).is_err());
    let eight: Vec<Snssai> = (0..8).map(|i| Snssai { sst: i, sd: None }).collect();
    assert!(validate_snssai_list(&eight).is_ok());
}

#[test]
fn supi_of_two_digit_mnc_country() {
    let (imsi, plmn) = validate_supi("imsi-310410123456789").unwrap();
    assert_eq!(imsi, "310410123456789");
    assert_eq!(plmn.mcc, "310");
    assert_eq!(plmn.mnc, "41");
    assert!(validate_supi("imsi-0010100000000011").is_none());
}

#[test]
fn tai_validation_checks_plmn_and_tac() {
    let plmn = PlmnId { mcc: "001".to_string(), mnc: "01".to_string() };
    assert!(validate_tai(&Tai { plmn_id: plmn.clone(), tac: "0001".to_string() }));
    assert!(validate_tai(&Tai { plmn_id: plmn.clone(), tac: "00aBcD".to_string() }));
    assert!(validate_tai(&Tai { plmn_id: plmn.clone(), tac: "001".to_string() }));
    assert!(!validate_tai(&Tai { plmn_id: plmn.clone(), tac: "0012345".to_string() }));
    assert!(!validate_tai(&Tai { plmn_id: plmn.clone(), tac: "".to_string() }));
    assert!(!validate_tai(&Tai { plmn_id: plmn, tac: "00G1".to_string() }));
}

#[test]
fn snssai_eq_is_symmetric_on_zero_sd() {
    let a = Snssai { sst: 1, sd: Some("000000".to_string()) };
    let b = Snssai { sst: 1, sd: None };
    assert!(snssai_eq(&a, &b));
    assert!(snssai_eq(&b, &a));
    let c = Snssai { sst: 1, sd: Some("000001".to_string()) };
    assert!(!snssai_eq(&b, &c));
}
