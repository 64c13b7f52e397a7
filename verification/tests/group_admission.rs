use nssf::services::nsag_admission::{
    admit_to_nsag, check_nsag_admission, increment_nsag_count, nsag_has_capacity,
    nsag_matches_snssai, nsag_matches_tai,
};
use nssf::services::nssrg_processing::{
    assign_nssrg, nssrg_has_capacity, nssrg_matches_snssai, nssrg_matches_tai,
};
use nssf::services::selection_rules::process_admission_and_nssrg;
use nssf::services::store::StoreUpdates;
use nssf::types::common::{PlmnId, Snssai, Tai};
use nssf::types::db::{NsagConfiguration, NssrgConfiguration};

fn plmn() -> PlmnId {
    PlmnId { mcc: "001".to_string(), mnc: "01".to_string() }
}

fn s(sst: u8) -> Snssai {
    Snssai { sst, sd: None }
}

fn tai(tac: &str) -> Tai {
    Tai { plmn_id: plmn(), tac: tac.to_string() }
}

fn nsag(id: u32, max: Option<u64>, current: Option<u64>, priority: Option<u32>) -> NsagConfiguration {
    NsagConfiguration {
        nsag_id: id,
        snssai_list: vec![s(1)],
        plmn_id: plmn(),
        tai_list: None,
        tai_range_list: None,
        max_ue_count: max,
        current_ue_count: current,
        priority,
        enabled: true,
    }
}

fn nssrg(id: &str, max: Option<u64>, current: Option<u64>, priority: Option<u32>) -> NssrgConfiguration {
    NssrgConfiguration {
        nssrg_id: id.to_string(),
        snssai_list: vec![s(1)],
        plmn_id: plmn(),
        tai_list: None,
        tai_range_list: None,
        max_ue_count: max,
        current_ue_count: current,
        priority,
        enabled: true,
    }
}

#[test]
fn nsag_matching_and_capacity() {
    let mut n = nsag(1, Some(2), Some(1), None);
    assert!(nsag_matches_snssai(&n, &Snssai { sst: 1, sd: Some("000000".to_string()) }));
    assert!(!nsag_matches_snssai(&n, &s(2)));
    assert!(nsag_matches_tai(&n, &tai("0001")));
    n.tai_list = Some(vec![tai("00AA")]);
    assert!(nsag_matches_tai(&n, &tai("00aa")));
    assert!(!nsag_matches_tai(&n, &tai("0001")));
    assert!(nsag_has_capacity(&n));
    assert!(!nsag_has_capacity(&nsag(1, Some(2), Some(2), None)));
    assert!(nsag_has_capacity(&nsag(1, Some(2), None, None)));
    assert!(nsag_has_capacity(&nsag(1, None, Some(99), None)));
}

#[test]
fn admission_check_and_admit() {
    let nsags = vec![nsag(1, Some(1), Some(1), Some(1)), nsag(2, Some(5), Some(0), Some(9))];
    assert!(check_nsag_admission(&s(1), &tai("0001"), &nsags));
    assert!(check_nsag_admission(&s(3), &tai("0001"), &nsags));
    let full = vec![nsag(1, Some(1), Some(1), None)];
    assert!(!check_nsag_admission(&s(1), &tai("0001"), &full));

    let mut groups = vec![
        nsag(1, Some(9), Some(0), Some(4)),
        nsag(2, Some(9), Some(0), Some(2)),
        nsag(3, Some(9), Some(0), Some(2)),
    ];
    let mut updates = StoreUpdates::new();
    assert_eq!(admit_to_nsag(&s(1), &tai("0001"), &mut groups, &mut updates).unwrap(), Some(2));
    assert_eq!(groups[1].current_ue_count, Some(1));
    assert_eq!(groups[2].current_ue_count, Some(0));
    assert_eq!(updates.nsag_increments, vec![2]);
    assert_eq!(admit_to_nsag(&s(4), &tai("0001"), &mut groups, &mut updates).unwrap(), None);
    assert_eq!(updates.nsag_increments, vec![2]);
}

#[test]
fn increment_counts_the_first_record_with_the_id() {
    let mut groups = vec![nsag(4, None, None, None), nsag(4, None, Some(7), None)];
    increment_nsag_count(4, &mut groups).unwrap();
    assert_eq!(groups[0].current_ue_count, Some(1));
    assert_eq!(groups[1].current_ue_count, Some(7));
    increment_nsag_count(5, &mut groups).unwrap();
    let mut full = vec![nsag(6, None, Some(i64::MAX as u64), None)];
    assert!(increment_nsag_count(6, &mut full).is_err());
    assert_eq!(full[0].current_ue_count, Some(i64::MAX as u64));
}

#[test]
fn nssrg_matching_and_capacity() {
    let n = nssrg("g", Some(3), Some(3), None);
    assert!(nssrg_matches_snssai(&n, &s(1)));
    assert!(nssrg_matches_tai(&n, &tai("0009")));
    assert!(!nssrg_has_capacity(&n));
    assert!(nssrg_has_capacity(&nssrg("g", None, Some(3), None)));
}

#[test]
fn nssrg_assignment_by_priority_then_load() {
    let mut groups = vec![
        nssrg("busy", Some(10), Some(8), Some(1)),
        nssrg("idle", Some(10), Some(1), Some(1)),
        nssrg("later", Some(10), Some(0), Some(5)),
        nssrg("full", Some(2), Some(2), Some(0)),
    ];
    let mut updates = StoreUpdates::new();
    let id = assign_nssrg(&s(1), &tai("0001"), &mut groups, &mut updates).unwrap();
    assert_eq!(id, Some("idle".to_string()));
    assert_eq!(groups[1].current_ue_count, Some(2));
    assert_eq!(updates.nssrg_increments, vec!["idle".to_string()]);
    assert_eq!(assign_nssrg(&s(2), &tai("0001"), &mut groups, &mut updates).unwrap(), None);
}

#[test]
fn admission_with_nssrg_assignment() {
    let mut nsags = vec![nsag(1, Some(5), Some(0), None)];
    let mut nssrgs = vec![nssrg("g", None, None, None)];
    let mut updates = StoreUpdates::new();
    let r = process_admission_and_nssrg(&s(1), Some(&tai("0001")), true, false, &mut nsags, &mut nssrgs, &mut updates);
    assert_eq!(r.unwrap(), Some(true));
    assert_eq!(nsags[0].current_ue_count, Some(1));
    assert_eq!(nssrgs[0].current_ue_count, Some(1));
    let r = process_admission_and_nssrg(&s(1), Some(&tai("0001")), true, true, &mut nsags, &mut nssrgs, &mut updates);
    assert_eq!(r.unwrap(), Some(true));
    assert_eq!(nssrgs[0].current_ue_count, Some(1));
    let r = process_admission_and_nssrg(&s(1), None, true, false, &mut nsags, &mut nssrgs, &mut updates);
    assert_eq!(r.unwrap(), Some(true));
    assert_eq!(nsags[0].current_ue_count, Some(2));
    let mut full = vec![nsag(1, Some(1), Some(1), None)];
    let r = process_admission_and_nssrg(&s(1), Some(&tai("0001")), false, false, &mut full, &mut nssrgs, &mut updates);
    assert_eq!(r.unwrap(), None);
}

#[test]
fn admission_counts_a_group_exactly_when_the_check_passes_and_a_group_applies() {
    let cases: Vec<(Vec<NsagConfiguration>, u8)> = vec![
        (vec![nsag(1, Some(1), Some(1), None)], 1),
        (vec![nsag(1, Some(1), Some(1), None), nsag(2, Some(5), Some(0), None)], 1),
        (vec![nsag(1, Some(3), Some(0), None)], 2),
        (vec![], 1),
    ];
    for (groups, sst) in cases {
        let passes = check_nsag_admission(&s(sst), &tai("0001"), &groups);
        let applies = groups.iter().any(|g| nsag_matches_snssai(g, &s(sst)));
        let mut after = groups.clone();
        let mut updates = StoreUpdates::new();
        let counted = admit_to_nsag(&s(sst), &tai("0001"), &mut after, &mut updates).unwrap();
        assert_eq!(counted.is_some(), passes && applies);
    }
}
