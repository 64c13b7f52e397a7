use nssf::errors::AppError;
use nssf::services::selection_request::{answer_selection_at, precheck_selection, SelectionQuery};
use nssf::services::store::{NssfStore, StoreUpdates};
use nssf::types::common::{PlmnId, Snssai, Timestamp};
use nssf::types::db::{SubscribedSnssai, UeSubscription};
use nssf::types::nsselection::SliceInfoForRegistration;

fn snssai(sst: u8) -> Snssai {
    Snssai { sst, sd: None }
}

fn registration(requested: Option<Vec<Snssai>>) -> SliceInfoForRegistration {
    SliceInfoForRegistration {
        subscribed_nssai: None,
        allowed_nssai_current_access: None,
        allowed_nssai_other_access: None,
        s_nssai_for_mapping: None,
        requested_nssai: requested,
        default_configured_snssai_ind: None,
        mapping_of_nssai: None,
        request_mapping: None,
        ue_sup_nssrg_ind: None,
        suppress_nssrg_ind: None,
        nsag_supported: None,
    }
}

fn query(reg: Option<Result<SliceInfoForRegistration, String>>) -> SelectionQuery {
    SelectionQuery {
        supi: Some("imsi-001010000000001".to_string()),
        home_plmn_id: None,
        tai: None,
        slice_info_for_registration: reg,
        slice_info_for_pdu_session: None,
        slice_info_for_ue_cu: None,
        supported_features: None,
    }
}

fn store(subscribed: bool) -> NssfStore {
    NssfStore {
        slices: vec![],
        nsis: vec![],
        policies: vec![],
        snssai_mappings: vec![],
        nsags: vec![],
        nssrgs: vec![],
        amf_sets: vec![],
        amf_service_sets: vec![],
        amf_instances: vec![],
        subscriptions: if subscribed {
            vec![UeSubscription {
                supi: "imsi-001010000000001".to_string(),
                plmn_id: PlmnId { mcc: "001".to_string(), mnc: "01".to_string() },
                subscribed_snssais: vec![SubscribedSnssai {
                    subscribed_snssai: snssai(1),
                    default_indication: Some(true),
                    subscribed_nssrg_list: None,
                }],
                default_snssai: None,
            }]
        } else {
            vec![]
        },
    }
}

fn bad_request(r: Result<(), AppError>) -> String {
    match r {
        Err(AppError::BadRequest(m)) => m,
        other => panic!("expected a bad request, got {:?}", other),
    }
}

#[test]
fn precheck_refuses_what_needs_no_store() {
    assert_eq!(
        bad_request(precheck_selection(&query(None))),
        "One of slice-info-request-for-registration, slice-info-request-for-pdu-session, or slice-info-request-for-ue-cu must be provided"
    );
    assert_eq!(
        bad_request(precheck_selection(&query(Some(Err("eof".to_string()))))),
        "Invalid slice-info-request-for-registration: eof"
    );
    let nine: Vec<Snssai> = (1..=9).map(snssai).collect();
    assert_eq!(
        bad_request(precheck_selection(&query(Some(Ok(registration(Some(nine))))))),
        "S-NSSAI list exceeds maximum of 8 entries"
    );
    let mut q = query(Some(Ok(registration(None))));
    q.tai = Some(Err("bad".to_string()));
    assert_eq!(bad_request(precheck_selection(&q)), "Invalid tai: bad");
    assert!(precheck_selection(&query(Some(Ok(registration(Some(vec![snssai(1)])))))).is_ok());
}

#[test]
fn a_refused_request_is_refused_alike_by_the_selection() {
    let q = query(Some(Ok(registration(Some(vec![snssai(1), snssai(1)])))));
    let pre = bad_request(precheck_selection(&q));
    let mut st = store(true);
    let mut updates = StoreUpdates::new();
    let now = Timestamp { secs: 0, nanos: 0 };
    match answer_selection_at(q, "00101", &mut st, &now, &mut updates) {
        Err(AppError::BadRequest(m)) => assert_eq!(m, pre),
        _ => panic!("expected the same refusal"),
    }
}

#[test]
fn no_nrf_discovery_for_an_unsubscribed_ue() {
    let now = Timestamp { secs: 0, nanos: 0 };
    let mut st = store(false);
    let mut updates = StoreUpdates::new();
    let q = query(Some(Ok(registration(Some(vec![snssai(3)])))));
    let a = answer_selection_at(q, "00101", &mut st, &now, &mut updates).ok().unwrap();
    assert!(a.amf_discovery.is_none());
    assert_eq!(a.info.rejected_nssai_in_plmn, Some(vec![snssai(3)]));
}

#[test]
fn nrf_discovery_for_a_subscribed_ue_with_nothing_allowed() {
    let now = Timestamp { secs: 0, nanos: 0 };
    let mut st = store(true);
    let mut updates = StoreUpdates::new();
    let mut q = query(Some(Ok(registration(Some(vec![snssai(3)])))));
    q.home_plmn_id = Some(Ok(PlmnId { mcc: "001".to_string(), mnc: "01".to_string() }));
    let a = answer_selection_at(q, "00101", &mut st, &now, &mut updates).ok().unwrap();
    assert!(a.info.allowed_nssai_list.is_none());
    assert_eq!(a.amf_discovery, Some(vec![snssai(3)]));
    assert_eq!(a.home_plmn, PlmnId { mcc: "001".to_string(), mnc: "01".to_string() });
}
