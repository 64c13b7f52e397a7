use nssf::services::network_slice_selection::{
    empty_response, is_nsi_available_in_tai, is_slice_available_in_tai, opt_vec,
    select_for_pdu_session, select_for_registration, select_for_ue_cu, select_nsi_for_snssai,
};
use nssf::services::store::{NssfStore, StoreUpdates};
use nssf::types::common::{PlmnId, Snssai, Tai, Timestamp};
use nssf::types::db::{
    AccessType, AmfInstanceConfig, AmfSetConfig, NsagConfiguration, NsiConfiguration,
    SliceConfiguration, SlicePolicy, SnssaiMapping, SubscribedSnssai, TimeWindow, UeSubscription,
};
use nssf::types::nsselection::{
    RoamingIndication, SliceInfoForPDUSession, SliceInfoForRegistration,
    SliceInfoForUEConfigurationUpdate,
};

fn plmn(mcc: &str, mnc: &str) -> PlmnId {
    PlmnId { mcc: mcc.to_string(), mnc: mnc.to_string() }
}

fn snssai(sst: u8, sd: Option<&str>) -> Snssai {
    Snssai { sst, sd: sd.map(|s| s.to_string()) }
}

fn tai(tac: &str) -> Tai {
    Tai { plmn_id: plmn("001", "01"), tac: tac.to_string() }
}

fn slice(s: Snssai, p: PlmnId, tais: Option<Vec<Tai>>) -> SliceConfiguration {
    SliceConfiguration {
        id: None,
        snssai: s,
        plmn_id: p,
        access_type: Some(AccessType::ThreeGppAccess),
        tai_list: tais,
        is_default: None,
        priority: None,
        max_ue_support: None,
    }
}

fn nsi(id: &str, s: Snssai, priority: Option<u32>, load: Option<u32>) -> NsiConfiguration {
    NsiConfiguration {
        nsi_id: id.to_string(),
        snssai: s,
        plmn_id: plmn("001", "01"),
        nrf_id: format!("nrf-{}", id),
        nrf_nf_mgt_uri: None,
        nrf_access_token_uri: None,
        nrf_oauth2_required: None,
        tai_list: None,
        priority,
        load_level: load,
    }
}

fn subscribed(s: Snssai, default: bool) -> SubscribedSnssai {
    SubscribedSnssai {
        subscribed_snssai: s,
        default_indication: Some(default),
        subscribed_nssrg_list: None,
    }
}

fn subscription(serving: PlmnId) -> UeSubscription {
    UeSubscription {
        supi: "imsi-001010000000001".to_string(),
        plmn_id: serving,
        subscribed_snssais: vec![
            subscribed(snssai(1, None), true),
            subscribed(snssai(2, Some("000001")), false),
        ],
        default_snssai: None,
    }
}

fn nsag(id: u32, s: Vec<Snssai>, max: Option<u64>, current: Option<u64>) -> NsagConfiguration {
    NsagConfiguration {
        nsag_id: id,
        snssai_list: s,
        plmn_id: plmn("001", "01"),
        tai_list: None,
        tai_range_list: None,
        max_ue_count: max,
        current_ue_count: current,
        priority: None,
        enabled: true,
    }
}

fn empty_store() -> NssfStore {
    NssfStore {
        slices: vec![],
        nsis: vec![],
        policies: vec![],
        snssai_mappings: vec![],
        nsags: vec![],
        nssrgs: vec![],
        amf_sets: vec![],
        amf_service_sets: vec![],
        amf_instances: vec![],
        subscriptions: vec![],
    }
}

fn store() -> NssfStore {
    let mut st = empty_store();
    st.slices = vec![
        slice(snssai(1, None), plmn("001", "01"), None),
        slice(snssai(2, Some("000001")), plmn("001", "01"), Some(vec![tai("0002")])),
    ];
    st.nsis = vec![
        nsi("low", snssai(1, None), Some(1), Some(10)),
        nsi("high", snssai(1, None), Some(5), Some(50)),
        nsi("other", snssai(4, None), Some(9), None),
    ];
    st.nsags = vec![nsag(7, vec![snssai(1, None)], Some(10), Some(3))];
    st.subscriptions = vec![subscription(plmn("001", "01"))];
    st
}

fn now() -> Timestamp {
    Timestamp { secs: 1_700_000_000, nanos: 0 }
}

fn registration(requested: Option<Vec<Snssai>>) -> SliceInfoForRegistration {
    SliceInfoForRegistration {
        subscribed_nssai: None,
        allowed_nssai_current_access: None,
        allowed_nssai_other_access: None,
        s_nssai_for_mapping: None,
        requested_nssai: requested,
        default_configured_snssai_ind: None,
        mapping_of_nssai: None,
        request_mapping: None,
        ue_sup_nssrg_ind: None,
        suppress_nssrg_ind: None,
        nsag_supported: None,
    }
}

#[test]
fn empty_response_has_nothing() {
    let r = empty_response();
    assert!(r.allowed_nssai_list.is_none());
    assert!(r.rejected_nssai_in_plmn.is_none());
    assert!(r.mapping_of_nssai.is_none());
}

#[test]
fn opt_vec_leaves_out_empty_lists() {
    assert_eq!(opt_vec(Vec::<u8>::new()), None);
    assert_eq!(opt_vec(vec![1u8]), Some(vec![1u8]));
}

#[test]
fn slice_and_nsi_availability_in_tai() {
    let s = slice(snssai(1, None), plmn("001", "01"), Some(vec![tai("00AB")]));
    assert!(is_slice_available_in_tai(&s, None));
    assert!(is_slice_available_in_tai(&s, Some(&tai("00ab"))));
    assert!(!is_slice_available_in_tai(&s, Some(&tai("0001"))));
    let open = slice(snssai(1, None), plmn("001", "01"), Some(vec![]));
    assert!(is_slice_available_in_tai(&open, Some(&tai("0001"))));
    let mut n = nsi("n", snssai(1, None), None, None);
    n.tai_list = Some(vec![tai("0003")]);
    assert!(is_nsi_available_in_tai(&n, None));
    assert!(!is_nsi_available_in_tai(&n, Some(&tai("0001"))));
}

#[test]
fn nsis_are_ranked_by_priority_then_load() {
    let mut st = store();
    st.nsis.push(nsi("tie", snssai(1, None), Some(5), Some(20)));
    let infos = select_nsi_for_snssai(&snssai(1, None), &plmn("001", "01"), None, &st);
    let ids: Vec<String> = infos.iter().map(|i| i.nsi_id.clone().unwrap()).collect();
    assert_eq!(ids, vec!["tie", "high", "low"]);
    assert_eq!(infos[0].nrf_id, "nrf-tie");
}

#[test]
fn nsi_selection_requires_the_same_sd_when_given() {
    let mut st = empty_store();
    st.nsis = vec![
        nsi("upper", snssai(1, Some("ABCDEF")), None, None),
        nsi("lower", snssai(1, Some("abcdef")), None, None),
    ];
    let infos = select_nsi_for_snssai(&snssai(1, Some("abcdef")), &plmn("001", "01"), None, &st);
    assert_eq!(infos.len(), 1);
    assert_eq!(infos[0].nsi_id, Some("lower".to_string()));
}

#[test]
fn registration_allows_and_rejects() {
    let mut st = store();
    let mut updates = StoreUpdates::new();
    let info = registration(Some(vec![snssai(1, None), snssai(2, Some("000001")), snssai(3, None)]));
    let r = select_for_registration(
        &info,
        &plmn("001", "01"),
        "imsi-001010000000001",
        Some(&tai("0001")),
        Some("1f"),
        &mut st,
        &now(),
        &mut updates,
    )
    .unwrap();
    let allowed = r.allowed_nssai_list.unwrap();
    assert_eq!(allowed.len(), 1);
    assert_eq!(allowed[0].access_type, AccessType::ThreeGppAccess);
    let entries = &allowed[0].allowed_snssai_list;
    assert_eq!(entries.len(), 1);
    assert_eq!(entries[0].allowed_snssai, snssai(1, None));
    let nsis = entries[0].nsi_information_list.as_ref().unwrap();
    assert_eq!(nsis[0].nsi_id, Some("high".to_string()));
    assert_eq!(nsis[1].nsi_id, Some("low".to_string()));
    assert!(entries[0].mapped_home_snssai.is_none());
    assert_eq!(r.rejected_nssai_in_ta, Some(vec![snssai(2, Some("000001"))]));
    assert_eq!(r.rejected_nssai_in_plmn, Some(vec![snssai(3, None)]));
    let configured = r.configured_nssai.unwrap();
    assert_eq!(configured.len(), 1);
    assert_eq!(configured[0].configured_snssai, snssai(1, None));
    assert_eq!(r.supported_features, Some("1c".to_string()));
    assert!(r.target_amf_set.is_none());
    assert_eq!(st.nsags[0].current_ue_count, Some(4));
    assert_eq!(updates.nsag_increments, vec![7]);
}

#[test]
fn registration_without_subscription_rejects_the_request() {
    let mut st = store();
    let mut updates = StoreUpdates::new();
    let info = registration(Some(vec![snssai(1, None)]));
    let r = select_for_registration(
        &info,
        &plmn("001", "01"),
        "imsi-999990000000001",
        None,
        None,
        &mut st,
        &now(),
        &mut updates,
    )
    .unwrap();
    assert_eq!(r.rejected_nssai_in_plmn, Some(vec![snssai(1, None)]));
    assert!(r.allowed_nssai_list.is_none());
    assert!(r.configured_nssai.is_none());
    assert!(updates.nsag_increments.is_empty());
}

#[test]
fn registration_without_request_uses_default_subscribed() {
    let mut st = store();
    let mut updates = StoreUpdates::new();
    let mut info = registration(None);
    info.default_configured_snssai_ind = Some(true);
    let r = select_for_registration(
        &info,
        &plmn("001", "01"),
        "imsi-001010000000001",
        None,
        None,
        &mut st,
        &now(),
        &mut updates,
    )
    .unwrap();
    let allowed = r.allowed_nssai_list.unwrap();
    assert_eq!(allowed[0].allowed_snssai_list.len(), 1);
    assert_eq!(allowed[0].allowed_snssai_list[0].allowed_snssai, snssai(1, None));
    assert!(r.rejected_nssai_in_plmn.is_none());
    assert!(updates.nsag_increments.is_empty());
}

#[test]
fn full_nsag_rejects_in_plmn() {
    let mut st = store();
    st.nsags = vec![nsag(8, vec![snssai(1, None)], Some(3), Some(3))];
    let mut updates = StoreUpdates::new();
    let info = registration(Some(vec![snssai(1, None)]));
    let r = select_for_registration(
        &info,
        &plmn("001", "01"),
        "imsi-001010000000001",
        Some(&tai("0001")),
        None,
        &mut st,
        &now(),
        &mut updates,
    )
    .unwrap();
    assert_eq!(r.rejected_nssai_in_plmn, Some(vec![snssai(1, None)]));
    assert!(r.allowed_nssai_list.is_none());
    assert_eq!(st.nsags[0].current_ue_count, Some(3));
}

#[test]
fn nsag_count_overflow_is_an_internal_error() {
    let mut st = store();
    st.nsags = vec![nsag(9, vec![snssai(1, None)], None, Some(i64::MAX as u64))];
    let mut updates = StoreUpdates::new();
    let info = registration(Some(vec![snssai(1, None)]));
    let r = select_for_registration(
        &info,
        &plmn("001", "01"),
        "imsi-001010000000001",
        Some(&tai("0001")),
        None,
        &mut st,
        &now(),
        &mut updates,
    );
    match r {
        Err(nssf::errors::AppError::InternalServerError(m)) => assert!(m.contains("NSAG")),
        _ => panic!("expected an internal error"),
    }
}

#[test]
fn policy_outside_allowed_window_rejects() {
    let mut st = store();
    st.policies = vec![SlicePolicy {
        policy_id: "p".to_string(),
        snssai: snssai(1, None),
        plmn_id: plmn("001", "01"),
        max_ues_per_slice: None,
        max_sessions_per_ue: None,
        priority_level: None,
        allowed_time_windows: Some(vec![TimeWindow {
            start_time: "2020-01-01T00:00:00Z".to_string(),
            end_time: "2020-01-02T00:00:00Z".to_string(),
            days_of_week: None,
        }]),
        denied_time_windows: None,
        min_priority_level: None,
        max_load_level: None,
        required_subscription_tier: None,
        allowed_tai_list: None,
        denied_tai_list: None,
        enabled: true,
    }];
    let mut updates = StoreUpdates::new();
    let info = registration(Some(vec![snssai(1, None)]));
    let r = select_for_registration(
        &info,
        &plmn("001", "01"),
        "imsi-001010000000001",
        Some(&tai("0001")),
        None,
        &mut st,
        &now(),
        &mut updates,
    )
    .unwrap();
    assert_eq!(r.rejected_nssai_in_plmn, Some(vec![snssai(1, None)]));
    let inside = Timestamp { secs: 1_577_880_000, nanos: 0 };
    let mut st2 = st.clone_for_test();
    let r2 = select_for_registration(
        &info,
        &plmn("001", "01"),
        "imsi-001010000000001",
        Some(&tai("0001")),
        None,
        &mut st2,
        &inside,
        &mut updates,
    )
    .unwrap();
    assert!(r2.allowed_nssai_list.is_some());
}

trait CloneForTest {
    fn clone_for_test(&self) -> Self;
}

impl CloneForTest for NssfStore {
    fn clone_for_test(&self) -> Self {
        NssfStore {
            slices: self.slices.clone(),
            nsis: self.nsis.clone(),
            policies: self.policies.clone(),
            snssai_mappings: self.snssai_mappings.clone(),
            nsags: self.nsags.clone(),
            nssrgs: self.nssrgs.clone(),
            amf_sets: self.amf_sets.clone(),
            amf_service_sets: self.amf_service_sets.clone(),
            amf_instances: self.amf_instances.clone(),
            subscriptions: self.subscriptions.clone(),
        }
    }
}

#[test]
fn nothing_allowed_selects_amf_locally() {
    let mut st = store();
    st.amf_sets = vec![
        AmfSetConfig {
            amf_set_id: "set-a".to_string(),
            plmn_id: plmn("001", "01"),
            supported_snssais: vec![snssai(3, None)],
            nrf_id: "nrf-a".to_string(),
            nrf_nf_mgt_uri: None,
            nrf_access_token_uri: None,
            nrf_oauth2_required: None,
            priority: Some(1),
            capacity: None,
        },
        AmfSetConfig {
            amf_set_id: "set-b".to_string(),
            plmn_id: plmn("001", "01"),
            supported_snssais: vec![snssai(3, None)],
            nrf_id: "nrf-b".to_string(),
            nrf_nf_mgt_uri: Some("http://nrf-b".to_string()),
            nrf_access_token_uri: None,
            nrf_oauth2_required: None,
            priority: Some(5),
            capacity: None,
        },
    ];
    let instance = |id: &str, capacity: u32, load: u32| AmfInstanceConfig {
        nf_instance_id: id.to_string(),
        amf_set_id: "set-b".to_string(),
        amf_service_set_id: None,
        plmn_id: plmn("001", "01"),
        supported_snssais: vec![snssai(3, None)],
        guami: None,
        capacity: Some(capacity),
        load_level: Some(load),
    };
    st.amf_instances = vec![instance("i1", 10, 5), instance("i2", 20, 50), instance("i3", 10, 1)];
    let mut updates = StoreUpdates::new();
    let info = registration(Some(vec![snssai(3, None)]));
    let r = select_for_registration(
        &info,
        &plmn("001", "01"),
        "imsi-001010000000001",
        None,
        None,
        &mut st,
        &now(),
        &mut updates,
    )
    .unwrap();
    assert!(r.allowed_nssai_list.is_none());
    assert_eq!(r.target_amf_set, Some("set-b".to_string()));
    assert_eq!(r.nrf_amf_set, Some("nrf-b".to_string()));
    assert_eq!(r.nrf_amf_set_nf_mgt_uri, Some("http://nrf-b".to_string()));
    assert_eq!(
        r.candidate_amf_list,
        Some(vec!["i2".to_string(), "i3".to_string(), "i1".to_string()])
    );
}

#[test]
fn ue_configuration_update_keeps_ra_rejections() {
    let mut st = store();
    let mut updates = StoreUpdates::new();
    let info = SliceInfoForUEConfigurationUpdate {
        subscribed_nssai: None,
        allowed_nssai_current_access: None,
        allowed_nssai_other_access: None,
        default_configured_snssai_ind: None,
        requested_nssai: Some(vec![snssai(1, None), snssai(2, Some("000001"))]),
        mapping_of_nssai: None,
        ue_sup_nssrg_ind: None,
        suppress_nssrg_ind: None,
        rejected_nssai_ra: Some(vec![snssai(1, Some("000000"))]),
        nsag_supported: None,
    };
    let r = select_for_ue_cu(
        &info,
        &plmn("001", "01"),
        "imsi-001010000000001",
        None,
        None,
        &mut st,
        &now(),
        &mut updates,
    )
    .unwrap();
    assert_eq!(r.rejected_nssai_in_plmn, Some(vec![snssai(1, None)]));
    let allowed = r.allowed_nssai_list.unwrap();
    assert_eq!(allowed[0].allowed_snssai_list[0].allowed_snssai, snssai(2, Some("000001")));
    assert!(r.target_amf_set.is_none());
}

#[test]
fn subscription_is_looked_up_in_the_home_plmn() {
    let mut st = store();
    st.subscriptions = vec![subscription(plmn("002", "02"))];
    let mut updates = StoreUpdates::new();
    let info = registration(Some(vec![snssai(1, None)]));
    let r = select_for_registration(
        &info,
        &plmn("001", "01"),
        "imsi-001010000000001",
        None,
        None,
        &mut st,
        &now(),
        &mut updates,
    )
    .unwrap();
    assert!(r.allowed_nssai_list.is_none());
    assert_eq!(r.rejected_nssai_in_plmn, Some(vec![snssai(1, None)]));
}

#[test]
fn local_breakout_pdu_session_maps_to_home_snssai() {
    let mut st = store();
    st.subscriptions = vec![subscription(plmn("001", "01"))];
    st.slices.push(slice(snssai(1, None), plmn("001", "01"), None));
    st.snssai_mappings = vec![SnssaiMapping {
        mapping_id: "m".to_string(),
        serving_plmn_id: plmn("001", "01"),
        home_plmn_id: plmn("001", "01"),
        serving_snssai: snssai(1, None),
        home_snssai: snssai(11, Some("00000a")),
        validity_area: None,
    }];
    let mut updates = StoreUpdates::new();
    let r = select_for_pdu_session(
        &pdu(snssai(1, None), RoamingIndication::LocalBreakout, None),
        &plmn("001", "01"),
        "imsi-001010000000001",
        None,
        None,
        &mut st,
        &now(),
        &mut updates,
    )
    .unwrap();
    let allowed = r.allowed_nssai_list.unwrap();
    assert_eq!(allowed[0].allowed_snssai_list[0].mapped_home_snssai, None);
}

fn pdu(s: Snssai, ri: RoamingIndication, home: Option<Snssai>) -> SliceInfoForPDUSession {
    SliceInfoForPDUSession { s_nssai: s, roaming_indication: ri, home_snssai: home }
}

#[test]
fn pdu_session_is_allowed_and_counted() {
    let mut st = store();
    let mut updates = StoreUpdates::new();
    let r = select_for_pdu_session(
        &pdu(snssai(1, None), RoamingIndication::NonRoaming, None),
        &plmn("001", "01"),
        "imsi-001010000000001",
        Some(&tai("0001")),
        Some("4"),
        &mut st,
        &now(),
        &mut updates,
    )
    .unwrap();
    let allowed = r.allowed_nssai_list.unwrap();
    assert_eq!(allowed[0].allowed_snssai_list[0].allowed_snssai, snssai(1, None));
    assert_eq!(r.supported_features, Some("4".to_string()));
    assert_eq!(updates.nsag_increments, vec![7]);
    assert_eq!(st.nsags[0].current_ue_count, Some(4));
}

#[test]
fn pdu_session_rejections() {
    let mut st = store();
    let mut updates = StoreUpdates::new();
    let r = select_for_pdu_session(
        &pdu(snssai(2, Some("000001")), RoamingIndication::NonRoaming, None),
        &plmn("001", "01"),
        "imsi-001010000000001",
        Some(&tai("0001")),
        None,
        &mut st,
        &now(),
        &mut updates,
    )
    .unwrap();
    assert_eq!(r.rejected_nssai_in_ta, Some(vec![snssai(2, Some("000001"))]));
    let r = select_for_pdu_session(
        &pdu(snssai(5, None), RoamingIndication::NonRoaming, None),
        &plmn("001", "01"),
        "imsi-001010000000001",
        None,
        None,
        &mut st,
        &now(),
        &mut updates,
    )
    .unwrap();
    assert_eq!(r.rejected_nssai_in_plmn, Some(vec![snssai(5, None)]));
    let r = select_for_pdu_session(
        &pdu(snssai(1, None), RoamingIndication::NonRoaming, None),
        &plmn("001", "01"),
        "imsi-unknown",
        None,
        None,
        &mut st,
        &now(),
        &mut updates,
    )
    .unwrap();
    assert_eq!(r.rejected_nssai_in_plmn, Some(vec![snssai(1, None)]));
    assert!(updates.nsag_increments.is_empty());
}

#[test]
fn home_routed_pdu_session_carries_home_snssai() {
    let mut st = store();
    let mut updates = StoreUpdates::new();
    let r = select_for_pdu_session(
        &pdu(snssai(9, None), RoamingIndication::HomeRoutedRoaming, Some(snssai(1, None))),
        &plmn("001", "01"),
        "imsi-001010000000001",
        None,
        None,
        &mut st,
        &now(),
        &mut updates,
    )
    .unwrap();
    let allowed = r.allowed_nssai_list.unwrap();
    assert_eq!(allowed[0].allowed_snssai_list[0].allowed_snssai, snssai(9, None));
    assert_eq!(allowed[0].allowed_snssai_list[0].mapped_home_snssai, Some(snssai(1, None)));
}

fn bad_request_text(r: Result<nssf::types::nsselection::AuthorizedNetworkSliceInfo, nssf::errors::AppError>) -> String {
    match r {
        Err(nssf::errors::AppError::BadRequest(m)) => m,
        Err(e) => panic!("expected a bad request, got {:?}", e),
        Ok(_) => panic!("expected a bad request, got an answer"),
    }
}

#[test]
fn registration_refuses_an_oversized_requested_nssai() {
    let mut st = store();
    let mut updates = StoreUpdates::new();
    let requested: Vec<Snssai> = (1..=9).map(|i| snssai(i, None)).collect();
    let r = select_for_registration(
        &registration(Some(requested)),
        &plmn("001", "01"),
        "imsi-001010000000001",
        None,
        None,
        &mut st,
        &now(),
        &mut updates,
    );
    assert_eq!(bad_request_text(r), "S-NSSAI list exceeds maximum of 8 entries");
    assert!(updates.nsag_increments.is_empty());
}

#[test]
fn registration_refuses_duplicate_and_malformed_requests_even_without_subscription() {
    let mut st = empty_store();
    let mut updates = StoreUpdates::new();
    let dup = vec![snssai(1, Some("ABCDEF")), snssai(2, None), snssai(1, Some("abcdef"))];
    let r = select_for_registration(
        &registration(Some(dup)),
        &plmn("001", "01"),
        "imsi-001010000000001",
        None,
        None,
        &mut st,
        &now(),
        &mut updates,
    );
    assert_eq!(bad_request_text(r), "Duplicate S-NSSAI at indices 0 and 2");
    let bad = vec![snssai(1, None), snssai(1, Some("12345"))];
    let r = select_for_registration(
        &registration(Some(bad)),
        &plmn("001", "01"),
        "imsi-001010000000001",
        None,
        None,
        &mut st,
        &now(),
        &mut updates,
    );
    assert_eq!(bad_request_text(r), "Invalid S-NSSAI at index 1");
}

#[test]
fn ue_configuration_update_refuses_a_duplicate_requested_nssai() {
    let mut st = store();
    let mut updates = StoreUpdates::new();
    let info = SliceInfoForUEConfigurationUpdate {
        subscribed_nssai: None,
        allowed_nssai_current_access: None,
        allowed_nssai_other_access: None,
        default_configured_snssai_ind: None,
        requested_nssai: Some(vec![snssai(2, Some("000001")), snssai(2, Some("000001"))]),
        mapping_of_nssai: None,
        ue_sup_nssrg_ind: None,
        suppress_nssrg_ind: None,
        rejected_nssai_ra: None,
        nsag_supported: None,
    };
    let r = select_for_ue_cu(&info, &plmn("001", "01"), "imsi-001010000000001", None, None, &mut st, &now(), &mut updates);
    assert_eq!(bad_request_text(r), "Duplicate S-NSSAI at indices 0 and 1");
}
