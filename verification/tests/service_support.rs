use nssf::config::{parse_home_plmn_from_config, parse_plmn, Config};
use nssf::errors::AppError;
use nssf::services::nrf_registration::{
    amf_discovery_params, build_nf_profile, deregistration_reply, discovery_reply, discovery_url,
    heartbeat_interval_seconds, heartbeat_patch, nf_instance_url, registration_reply, update_reply,
    ReplyHandling,
};
use nssf::services::selection_request::{choose_slice_info, resolve_home_plmn, resolve_tai, SliceInfoRequest};
use nssf::services::snssai_mapping::{map_snssai, map_snssai_with_tai};
use nssf::services::storage_layout::index_plan;
use nssf::services::store::NssfStore;
use nssf::services::subscription::{
    find_subscription, get_default_snssai, get_subscribed_nssrg_list, get_subscribed_snssais,
};
use nssf::types::common::{NfStatus, NfType, PlmnId, Snssai, Tai};
use nssf::types::db::{SnssaiMapping, SubscribedSnssai, UeSubscription};
use nssf::types::queries::{FilterValue, NsiQuery, SliceQuery, SubscriptionQuery};

fn plmn(mcc: &str, mnc: &str) -> PlmnId {
    PlmnId { mcc: mcc.to_string(), mnc: mnc.to_string() }
}

fn s(sst: u8, sd: Option<&str>) -> Snssai {
    Snssai { sst, sd: sd.map(|x| x.to_string()) }
}

fn config() -> Config {
    Config {
        port: 8080,
        server_host: "10.0.0.1".to_string(),
        mongodb_uri: "mongodb://localhost".to_string(),
        mongodb_db_name: "nssf".to_string(),
        nrf_uri: None,
        home_plmn: "00101".to_string(),
        allowed_plmns: vec!["00101".to_string(), "310410".to_string(), "12".to_string()],
        nf_instance_id: "id".to_string(),
    }
}

#[test]
fn plmn_text_is_split_after_three_bytes() {
    let p = parse_plmn("310410");
    assert_eq!((p.mcc.as_str(), p.mnc.as_str()), ("310", "410"));
    let p = parse_home_plmn_from_config("00101");
    assert_eq!((p.mcc.as_str(), p.mnc.as_str()), ("001", "01"));
    let p = parse_plmn("0010");
    assert_eq!((p.mcc.as_str(), p.mnc.as_str()), ("999", "70"));
}

#[test]
fn error_problem_details() {
    let (status, details) = AppError::NotFound("gone".to_string()).problem_details();
    assert_eq!(status, 404);
    assert_eq!(details.title, Some("Not Found".to_string()));
    assert_eq!(details.detail, Some("gone".to_string()));
    assert_eq!(details.cause, None);
    assert_eq!(details.problem_type, Some("https://tools.ietf.org/html/rfc7231#section-6.5.4".to_string()));
    let (status, details) = AppError::ConfigError("bad".to_string()).problem_details();
    assert_eq!(status, 500);
    assert_eq!(details.title, Some("Configuration Error".to_string()));
    assert_eq!(details.cause, Some("SYSTEM_FAILURE".to_string()));
    let (status, details) = AppError::Forbidden("no".to_string()).problem_details();
    assert_eq!(status, 403);
    assert_eq!(details.problem_type, None);
    assert_eq!(AppError::BadRequest("x".to_string()).message(), "Bad request: x");
    assert_eq!(AppError::ServiceUnavailable("y".to_string()).message(), "Service unavailable: y");
}

#[test]
fn home_plmn_from_request_supi_or_configuration() {
    let given = resolve_home_plmn(Some(Ok(plmn("002", "02"))), &None, "00101").unwrap();
    assert_eq!(given.mcc, "002");
    match resolve_home_plmn(Some(Err("eof".to_string())), &None, "00101") {
        Err(AppError::BadRequest(m)) => assert_eq!(m, "Invalid home-plmn-id: eof"),
        _ => panic!("expected a bad request"),
    }
    let from_supi = resolve_home_plmn(None, &Some("imsi-310410123456789".to_string()), "00101").unwrap();
    assert_eq!((from_supi.mcc.as_str(), from_supi.mnc.as_str()), ("310", "41"));
    let configured = resolve_home_plmn(None, &Some("nai-x".to_string()), "00101").unwrap();
    assert_eq!((configured.mcc.as_str(), configured.mnc.as_str()), ("001", "01"));
}

#[test]
fn tai_and_slice_info_resolution() {
    assert!(resolve_tai(None).unwrap().is_none());
    match resolve_tai(Some(Err("bad".to_string()))) {
        Err(AppError::BadRequest(m)) => assert_eq!(m, "Invalid tai: bad"),
        _ => panic!("expected a bad request"),
    }
    match choose_slice_info(None, None, None) {
        Err(AppError::BadRequest(m)) => assert!(m.starts_with("One of slice-info-request-for-registration")),
        _ => panic!("expected a bad request"),
    }
    match choose_slice_info(None, Some(Err("x".to_string())), None) {
        Err(AppError::BadRequest(m)) => assert_eq!(m, "Invalid slice-info-request-for-pdu-session: x"),
        _ => panic!("expected a bad request"),
    }
    let pdu = nssf::types::nsselection::SliceInfoForPDUSession {
        s_nssai: s(1, None),
        roaming_indication: nssf::types::nsselection::RoamingIndication::NonRoaming,
        home_snssai: None,
    };
    assert!(matches!(choose_slice_info(None, Some(Ok(pdu)), None), Ok(SliceInfoRequest::PduSession(_))));
}

#[test]
fn nrf_requests_and_replies() {
    assert_eq!(nf_instance_url("http://nrf", "abc"), "http://nrf/nnrf-nfm/v1/nf-instances/abc");
    let params = amf_discovery_params("[]".to_string(), "[{}]".to_string());
    assert_eq!(
        discovery_url("http://nrf", &NfType::Amf, &params),
        "http://nrf/nnrf-disc/v1/nf-instances?target-nf-type=AMF&requester-nf-type=NSSF&snssais=[]&target-plmn-list=[{}]"
    );
    assert!(matches!(registration_reply(201), ReplyHandling::ParseBody));
    assert!(matches!(registration_reply(400), ReplyHandling::Fail));
    assert!(matches!(update_reply(204), ReplyHandling::Nothing));
    assert!(matches!(discovery_reply(404), ReplyHandling::EmptyResult));
    assert!(matches!(deregistration_reply(200), ReplyHandling::Nothing));
    assert_eq!(heartbeat_interval_seconds(60), 48);
    assert_eq!(heartbeat_interval_seconds(7), 5);
    let patch = heartbeat_patch();
    assert_eq!(patch[0].path, "/nfStatus");
    assert_eq!(patch[0].value, Some(serde_json::Value::String("REGISTERED".to_string())));
}

#[test]
fn nf_profile_of_this_nssf() {
    let profile = build_nf_profile(&config(), "inst-1");
    assert_eq!(profile.nf_instance_id, "inst-1");
    assert_eq!(profile.nf_type, NfType::Nssf);
    assert_eq!(profile.nf_status, NfStatus::Registered);
    assert_eq!(profile.plmn_list.len(), 3);
    assert_eq!(profile.plmn_list[1].mcc, "310");
    assert_eq!(profile.plmn_list[1].mnc, "410");
    assert_eq!(profile.plmn_list[2].mcc, "999");
    assert_eq!(profile.capacity, Some(100));
    assert_eq!(profile.heart_beat_timer, Some(60));
    let services = profile.nf_services.unwrap();
    assert_eq!(services[0].service_name, "nnssf-nsselection");
    assert_eq!(services[1].versions[0].api_full_version, "1.0.0");
    assert_ne!(services[0].service_instance_id, services[1].service_instance_id);
}

fn subscription() -> UeSubscription {
    UeSubscription {
        supi: "imsi-001010000000001".to_string(),
        plmn_id: plmn("001", "01"),
        subscribed_snssais: vec![
            SubscribedSnssai { subscribed_snssai: s(1, None), default_indication: Some(false), subscribed_nssrg_list: None },
            SubscribedSnssai {
                subscribed_snssai: s(2, None),
                default_indication: Some(true),
                subscribed_nssrg_list: Some(vec!["g1".to_string()]),
            },
        ],
        default_snssai: None,
    }
}

#[test]
fn subscription_helpers() {
    let sub = subscription();
    assert_eq!(get_subscribed_snssais(&sub), vec![s(1, None), s(2, None)]);
    assert_eq!(get_default_snssai(&sub), Some(s(2, None)));
    let mut named = subscription();
    named.default_snssai = Some(s(7, None));
    assert_eq!(get_default_snssai(&named), Some(s(7, None)));
    assert_eq!(get_subscribed_nssrg_list(&sub.subscribed_snssais[1]), vec!["g1".to_string()]);
    assert!(get_subscribed_nssrg_list(&sub.subscribed_snssais[0]).is_empty());
    let subs = vec![subscription(), subscription()];
    assert_eq!(find_subscription(&subs, "imsi-001010000000001", &plmn("001", "01")), Some(0));
    assert_eq!(find_subscription(&subs, "imsi-001010000000001", &plmn("001", "02")), None);
}

fn store_with_mappings(mappings: Vec<SnssaiMapping>) -> NssfStore {
    NssfStore {
        slices: vec![],
        nsis: vec![],
        policies: vec![],
        snssai_mappings: mappings,
        nsags: vec![],
        nssrgs: vec![],
        amf_sets: vec![],
        amf_service_sets: vec![],
        amf_instances: vec![],
        subscriptions: vec![],
    }
}

#[test]
fn snssai_mapping_first_applicable() {
    let mapping = |home: Snssai, area: Option<Vec<Tai>>| SnssaiMapping {
        mapping_id: "m".to_string(),
        serving_plmn_id: plmn("002", "02"),
        home_plmn_id: plmn("001", "01"),
        serving_snssai: s(1, Some("ABCDEF")),
        home_snssai: home,
        validity_area: area,
    };
    let t = |tac: &str| Tai { plmn_id: plmn("002", "02"), tac: tac.to_string() };
    let st = store_with_mappings(vec![mapping(s(10, None), Some(vec![t("0009")])), mapping(s(11, None), None)]);
    let serving = s(1, Some("abcdef"));
    assert_eq!(map_snssai(&serving, &plmn("002", "02"), &plmn("001", "01"), &st), Some(s(10, None)));
    assert_eq!(
        map_snssai_with_tai(&serving, &plmn("002", "02"), &plmn("001", "01"), &t("0001"), &st),
        Some(s(11, None))
    );
    assert_eq!(
        map_snssai_with_tai(&serving, &plmn("002", "02"), &plmn("001", "01"), &t("0009"), &st),
        Some(s(10, None))
    );
    assert_eq!(map_snssai(&serving, &plmn("003", "03"), &plmn("001", "01"), &st), None);
}

#[test]
fn query_filters() {
    let q = SliceQuery { sst: None, sd: Some("x".to_string()) };
    assert!(q.filter().is_empty());
    let q = SliceQuery { sst: Some(3), sd: Some("x".to_string()) };
    let f = q.filter();
    assert_eq!(f.len(), 2);
    assert_eq!(f[0].field, "snssai.sst");
    assert!(matches!(f[0].value, FilterValue::Int(3)));
    assert_eq!(f[1].field, "snssai.sd");
    let q = NsiQuery { sst: Some(1), sd: None, mcc: Some("001".to_string()), mnc: None };
    assert!(q.filter().is_empty());
    let q = SubscriptionQuery { supi: Some("imsi-1".to_string()), mcc: None, mnc: Some("01".to_string()) };
    let f = q.filter();
    assert_eq!(f.len(), 2);
    assert_eq!(f[1].field, "plmnId.mnc");
}

#[test]
fn index_plan_lists_every_index() {
    let plan = index_plan();
    assert_eq!(plan.len(), 13);
    assert_eq!(plan[0].collection, "slices");
    assert!(plan[0].unique);
    assert_eq!(plan[2].collection, "policies");
    assert!(!plan[2].unique);
    assert_eq!(plan[12].keys, vec!["expiry".to_string()]);
}

#[test]
fn a_mapping_found_in_a_tracking_area_is_found_without_it() {
    let mapping = |home: Snssai, area: Option<Vec<Tai>>| SnssaiMapping {
        mapping_id: "m".to_string(),
        serving_plmn_id: plmn("002", "02"),
        home_plmn_id: plmn("001", "01"),
        serving_snssai: s(1, None),
        home_snssai: home,
        validity_area: area,
    };
    let t = |tac: &str| Tai { plmn_id: plmn("002", "02"), tac: tac.to_string() };
    let st = store_with_mappings(vec![mapping(s(10, None), Some(vec![t("0009")]))]);
    let found = map_snssai_with_tai(&s(1, None), &plmn("002", "02"), &plmn("001", "01"), &t("0009"), &st);
    assert!(found.is_some());
    assert!(map_snssai(&s(1, None), &plmn("002", "02"), &plmn("001", "01"), &st).is_some());
    assert!(map_snssai_with_tai(&s(1, None), &plmn("002", "02"), &plmn("001", "01"), &t("0001"), &st).is_none());
}

#[test]
fn a_not_found_discovery_yields_an_empty_complete_result() {
    let r = nssf::services::nrf_registration::empty_search_result();
    assert!(r.nf_instances.is_empty());
    assert_eq!(r.num_nf_inst_complete, Some(0));
    assert!(r.validity_period.is_none() && r.search_id.is_none());
}
