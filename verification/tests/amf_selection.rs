use nssf::services::amf_selection::{
    generate_candidate_amf_list, needs_nrf_fallback, rank_nrf_amf_profiles, select_amf_candidates,
    select_from_nrf_profiles, select_target_amf_service_set, select_target_amf_set,
    supports_all_snssais, AmfSelectionResult,
};
use nssf::services::ranking::{best_by_rank, sort_by_rank};
use nssf::types::common::{NfStatus, NfType, PlmnId, Snssai};
use nssf::types::db::{AmfInstanceConfig, AmfServiceSetConfig, AmfSetConfig};
use nssf::types::nrf::NFProfile;

fn plmn() -> PlmnId {
    PlmnId { mcc: "001".to_string(), mnc: "01".to_string() }
}

fn s(sst: u8) -> Snssai {
    Snssai { sst, sd: None }
}

fn set(id: &str, supported: Vec<Snssai>, priority: Option<u32>, capacity: Option<u32>) -> AmfSetConfig {
    AmfSetConfig {
        amf_set_id: id.to_string(),
        plmn_id: plmn(),
        supported_snssais: supported,
        nrf_id: "nrf".to_string(),
        nrf_nf_mgt_uri: None,
        nrf_access_token_uri: None,
        nrf_oauth2_required: None,
        priority,
        capacity,
    }
}

fn profile(id: &str, status: NfStatus, priority: Option<u16>, capacity: Option<u16>, load: Option<u16>) -> NFProfile {
    NFProfile {
        nf_instance_id: id.to_string(),
        nf_type: NfType::Amf,
        nf_status: status,
        plmn_list: vec![plmn()],
        s_nssai_list: None,
        nsi_list: None,
        fqdn: None,
        ipv4_addresses: None,
        ipv6_addresses: None,
        allowed_plmns: None,
        allowed_nf_types: None,
        priority,
        capacity,
        load,
        locality: None,
        nf_services: None,
        amf_info: None,
        heart_beat_timer: None,
    }
}

#[test]
fn supports_all_means_every_required_is_covered() {
    let supported = vec![s(1), Snssai { sst: 2, sd: Some("ABCDEF".to_string()) }];
    assert!(supports_all_snssais(&supported, &[s(1)]));
    assert!(supports_all_snssais(&supported, &[Snssai { sst: 2, sd: Some("abcdef".to_string()) }]));
    assert!(!supports_all_snssais(&supported, &[s(1), s(3)]));
    assert!(supports_all_snssais(&supported, &[]));
}

#[test]
fn target_set_by_priority_then_capacity_then_order() {
    let sets = vec![
        set("a", vec![s(1)], Some(2), Some(10)),
        set("b", vec![s(1)], Some(5), Some(1)),
        set("c", vec![s(1)], Some(5), Some(7)),
        set("d", vec![s(2)], Some(9), Some(9)),
        set("e", vec![s(1)], Some(5), Some(7)),
    ];
    assert_eq!(select_target_amf_set(&sets, &[s(1)]).unwrap().amf_set_id, "c");
    assert_eq!(select_target_amf_set(&sets, &[s(2)]).unwrap().amf_set_id, "d");
    assert!(select_target_amf_set(&sets, &[s(3)]).is_none());
}

#[test]
fn target_service_set_by_priority() {
    let ss = |id: &str, priority: Option<u32>| AmfServiceSetConfig {
        amf_service_set_id: id.to_string(),
        amf_set_id: "a".to_string(),
        plmn_id: plmn(),
        supported_snssais: vec![s(1)],
        nrf_id: "nrf".to_string(),
        priority,
    };
    let sets = vec![ss("x", None), ss("y", Some(3)), ss("z", Some(3))];
    assert_eq!(select_target_amf_service_set(&sets, &[s(1)]).unwrap().amf_service_set_id, "y");
    assert!(select_target_amf_service_set(&sets, &[s(2)]).is_none());
}

#[test]
fn candidates_by_capacity_then_load() {
    let inst = |id: &str, supported: Vec<Snssai>, capacity: Option<u32>, load: Option<u32>| AmfInstanceConfig {
        nf_instance_id: id.to_string(),
        amf_set_id: "a".to_string(),
        amf_service_set_id: None,
        plmn_id: plmn(),
        supported_snssais: supported,
        guami: None,
        capacity,
        load_level: load,
    };
    let instances = vec![
        inst("p", vec![s(1)], Some(5), Some(9)),
        inst("q", vec![s(1)], Some(8), None),
        inst("r", vec![s(2)], Some(100), None),
        inst("t", vec![s(1)], Some(5), Some(2)),
        inst("u", vec![s(1)], None, None),
    ];
    assert_eq!(generate_candidate_amf_list(&instances, &[s(1)]), vec!["q", "t", "p", "u"]);
    assert!(generate_candidate_amf_list(&instances, &[s(3)]).is_empty());
}

#[test]
fn nrf_profiles_rank_and_registered_only() {
    let mut profiles = vec![
        profile("a", NfStatus::Registered, Some(1), Some(5), Some(5)),
        profile("b", NfStatus::Registered, Some(3), Some(1), Some(9)),
        profile("c", NfStatus::Registered, Some(3), Some(1), Some(2)),
        profile("d", NfStatus::Registered, Some(3), Some(4), Some(50)),
    ];
    rank_nrf_amf_profiles(&mut profiles);
    let ids: Vec<&str> = profiles.iter().map(|p| p.nf_instance_id.as_str()).collect();
    assert_eq!(ids, vec!["d", "c", "b", "a"]);

    let found = vec![
        profile("x", NfStatus::Suspended, Some(9), None, None),
        profile("y", NfStatus::Registered, Some(1), None, None),
        profile("z", NfStatus::Registered, Some(2), None, None),
    ];
    let r = select_from_nrf_profiles(found);
    assert_eq!(r.candidate_amf_list, vec!["z", "y"]);
    assert!(r.target_amf_set.is_none());
}

#[test]
fn fallback_only_when_local_found_nothing() {
    let local = AmfSelectionResult::default();
    assert!(needs_nrf_fallback(&local));
    let nrf = AmfSelectionResult { candidate_amf_list: vec!["n1".to_string()], ..AmfSelectionResult::default() };
    let chosen = select_amf_candidates(local, Some(nrf));
    assert_eq!(chosen.candidate_amf_list, vec!["n1"]);

    let local = AmfSelectionResult { target_amf_set: Some("a".to_string()), ..AmfSelectionResult::default() };
    assert!(!needs_nrf_fallback(&local));
    let nrf = AmfSelectionResult { candidate_amf_list: vec!["n1".to_string()], ..AmfSelectionResult::default() };
    let chosen = select_amf_candidates(local, Some(nrf));
    assert_eq!(chosen.target_amf_set, Some("a".to_string()));
    assert!(chosen.candidate_amf_list.is_empty());

    let chosen = select_amf_candidates(AmfSelectionResult::default(), Some(AmfSelectionResult::default()));
    assert!(chosen.candidate_amf_list.is_empty());
}

#[test]
fn sort_by_rank_is_stable() {
    let sorted = sort_by_rank(vec!['a', 'b', 'c', 'd', 'e'], vec![3, 1, 3, 0, 1]);
    assert_eq!(sorted, vec!['d', 'b', 'e', 'a', 'c']);
    assert!(sort_by_rank(Vec::<u8>::new(), vec![]).is_empty());
}

#[test]
fn best_by_rank_takes_the_first_lowest_included() {
    assert_eq!(best_by_rank(&vec![5, 2, 2, 1], &vec![true, true, true, false]), Some(1));
    assert_eq!(best_by_rank(&vec![5, 2], &vec![false, false]), None);
}
