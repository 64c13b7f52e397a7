//! Selection of the AMF set, AMF service set and candidate AMFs that serve a
//! list of S-NSSAIs: from the store's AMF configuration, and else from the
//! AMF profiles that the NRF returned.
use vstd::prelude::*;
use crate::services::allowed_nssai::{plmn_eq, plmn_same};
use crate::services::ranking::{arranged_by, is_rank_order, 
    any_included, best_by_rank, best_ranked, lemma_best_ranked_unique, sort_by_rank, sorted_by_rank,
};
use crate::services::store::NssfStore;
use crate::types::common::{
    copy_opt_string, copy_service_flags, same_service_flags, NfStatus, PlmnId, Snssai,
};
use crate::types::db::{AmfInstanceConfig, AmfServiceSetConfig, AmfSetConfig};
use crate::types::nrf::NFProfile;
use crate::validation::{snssai_eq, snssai_same};

verus! {

/// `nrf_oauth2_required` lists, per NF service name, whether OAuth2 is required.
pub struct AmfSelectionResult {
    pub target_amf_set: Option<String>,
    pub candidate_amf_list: Vec<String>,
    pub nrf_amf_set: Option<String>,
    pub nrf_amf_set_nf_mgt_uri: Option<String>,
    pub nrf_amf_set_access_token_uri: Option<String>,
    pub nrf_oauth2_required: Option<Vec<(String, bool)>>,
    pub target_amf_service_set: Option<String>,
}

impl AmfSelectionResult {
    /// Nothing selected.
    pub open spec fn is_empty_selection(self) -> bool {
        &&& self.target_amf_set is None
        &&& self.candidate_amf_list@.len() == 0
        &&& self.nrf_amf_set is None
        &&& self.nrf_amf_set_nf_mgt_uri is None
        &&& self.nrf_amf_set_access_token_uri is None
        &&& self.nrf_oauth2_required is None
        &&& self.target_amf_service_set is None
    }
}

impl Default for AmfSelectionResult {
    fn default() -> (r: Self)
        ensures
            r.is_empty_selection(),
    {
        AmfSelectionResult {
            target_amf_set: None,
            candidate_amf_list: Vec::new(),
            nrf_amf_set: None,
            nrf_amf_set_nf_mgt_uri: None,
            nrf_amf_set_access_token_uri: None,
            nrf_oauth2_required: None,
            target_amf_service_set: None,
        }
    }
}

/// Some supported S-NSSAI denotes the same slice as `required`.
pub open spec fn covered(supported: Seq<Snssai>, required: Snssai) -> bool {
    exists|j: int| 0 <= j < supported.len() && snssai_same(#[trigger] supported[j], required)
}

/// Every required S-NSSAI denotes the same slice as some supported one.
pub open spec fn supports_all(supported: Seq<Snssai>, required: Seq<Snssai>) -> bool {
    forall|i: int| 0 <= i < required.len() ==> #[trigger] covered(supported, required[i])
}

pub fn supports_all_snssais(supported: &[Snssai], required: &[Snssai]) -> (r: bool)
    ensures
        r == supports_all(supported@, required@),
{
    let mut i: usize = 0;
    while i < required.len()
        invariant
            i <= required@.len(),
            forall|a: int| 0 <= a < i ==> #[trigger] covered(supported@, required@[a]),
        decreases required.len() - i,
    {
        let mut found = false;
        let mut j: usize = 0;
        while j < supported.len()
            invariant
                i < required@.len(),
                j <= supported@.len(),
                found == exists|b: int|
                    0 <= b < j && snssai_same(#[trigger] supported@[b], required@[i as int]),
            decreases supported.len() - j,
        {
            if snssai_eq(&supported[j], &required[i]) {
                found = true;
            }
            j = j + 1;
        }
        if !found {
            assert(!covered(supported@, required@[i as int]));
            return false;
        }
        assert(covered(supported@, required@[i as int]));
        i = i + 1;
    }
    true
}

/// Sets are ranked by priority, highest first, then by capacity, highest
/// first; a missing value counts as zero.
pub open spec fn amf_set_rank(set: AmfSetConfig) -> u64 {
    let p: int = match set.priority {
        Some(p) => p as int,
        None => 0,
    };
    let c: int = match set.capacity {
        Some(c) => c as int,
        None => 0,
    };
    ((0xffff_ffff - p) * 0x1_0000_0000 + (0xffff_ffff - c)) as u64
}

/// Service sets are ranked by priority, highest first; a missing value counts as zero.
pub open spec fn service_set_rank(set: AmfServiceSetConfig) -> u64 {
    let p: int = match set.priority {
        Some(p) => p as int,
        None => 0,
    };
    (0xffff_ffff - p) as u64
}

/// AMF instances are ranked by capacity, highest first, then by load,
/// lowest first; a missing value counts as zero.
pub open spec fn instance_rank(instance: AmfInstanceConfig) -> u64 {
    let c: int = match instance.capacity {
        Some(c) => c as int,
        None => 0,
    };
    let l: int = match instance.load_level {
        Some(l) => l as int,
        None => 0,
    };
    ((0xffff_ffff - c) * 0x1_0000_0000 + l) as u64
}

/// NF profiles are ranked by priority, highest first, then capacity, highest
/// first, then load, lowest first; a missing value counts as zero.
pub open spec fn profile_rank(profile: NFProfile) -> u64 {
    let p: int = match profile.priority {
        Some(p) => p as int,
        None => 0,
    };
    let c: int = match profile.capacity {
        Some(c) => c as int,
        None => 0,
    };
    let l: int = match profile.load {
        Some(l) => l as int,
        None => 0,
    };
    ((0xffff - p) * 0x1_0000_0000 + (0xffff - c) * 0x1_0000 + l) as u64
}

/// A set takes part in the selection: it supports every required S-NSSAI
/// and, where a PLMN is given, belongs to it.
pub open spec fn amf_set_eligible(set: AmfSetConfig, required: Seq<Snssai>, plmn: Option<PlmnId>) -> bool {
    &&& supports_all(set.supported_snssais@, required)
    &&& match plmn {
        Some(p) => plmn_same(set.plmn_id, p),
        None => true,
    }
}

/// A service set takes part in the selection: it supports every required
/// S-NSSAI and, where an AMF set is given, belongs to it.
pub open spec fn service_set_eligible(
    set: AmfServiceSetConfig,
    required: Seq<Snssai>,
    amf_set_id: Option<Seq<char>>,
) -> bool {
    &&& supports_all(set.supported_snssais@, required)
    &&& match amf_set_id {
        Some(id) => set.amf_set_id@ == id,
        None => true,
    }
}

/// An instance takes part in the selection: it supports every required
/// S-NSSAI and, where an AMF set and a PLMN are given, belongs to both.
pub open spec fn instance_eligible(
    instance: AmfInstanceConfig,
    required: Seq<Snssai>,
    within: Option<(Seq<char>, PlmnId)>,
) -> bool {
    &&& supports_all(instance.supported_snssais@, required)
    &&& match within {
        Some((id, p)) => instance.amf_set_id@ == id && plmn_same(instance.plmn_id, p),
        None => true,
    }
}

pub open spec fn amf_set_ranks(sets: Seq<AmfSetConfig>) -> Seq<u64> {
    sets.map_values(|s: AmfSetConfig| amf_set_rank(s))
}

pub open spec fn amf_sets_eligible(sets: Seq<AmfSetConfig>, required: Seq<Snssai>, plmn: Option<PlmnId>) -> Seq<bool> {
    sets.map_values(|s: AmfSetConfig| amf_set_eligible(s, required, plmn))
}

pub open spec fn service_set_ranks(sets: Seq<AmfServiceSetConfig>) -> Seq<u64> {
    sets.map_values(|s: AmfServiceSetConfig| service_set_rank(s))
}

pub open spec fn service_sets_eligible(
    sets: Seq<AmfServiceSetConfig>,
    required: Seq<Snssai>,
    amf_set_id: Option<Seq<char>>,
) -> Seq<bool> {
    sets.map_values(|s: AmfServiceSetConfig| service_set_eligible(s, required, amf_set_id))
}

/// The eligible instances, in the order given.
pub open spec fn eligible_instances(
    instances: Seq<AmfInstanceConfig>,
    required: Seq<Snssai>,
    within: Option<(Seq<char>, PlmnId)>,
) -> Seq<AmfInstanceConfig> {
    instances.filter(|x: AmfInstanceConfig| instance_eligible(x, required, within))
}

pub open spec fn instance_ids(instances: Seq<AmfInstanceConfig>) -> Seq<String> {
    instances.map_values(|x: AmfInstanceConfig| x.nf_instance_id)
}

pub open spec fn instance_ranks(instances: Seq<AmfInstanceConfig>) -> Seq<u64> {
    instances.map_values(|x: AmfInstanceConfig| instance_rank(x))
}

/// `ids` names the eligible instances, best ranked first.
pub open spec fn ranked_candidates(
    instances: Seq<AmfInstanceConfig>,
    required: Seq<Snssai>,
    within: Option<(Seq<char>, PlmnId)>,
    ids: Seq<String>,
) -> bool {
    let kept = eligible_instances(instances, required, within);
    sorted_by_rank(instance_ids(kept), instance_ranks(kept), ids)
}

fn priority_or_zero(p: Option<u32>) -> (r: u64)
    ensures
        r == match p {
            Some(v) => v as int,
            None => 0,
        },
{
    match p {
        Some(v) => v as u64,
        None => 0,
    }
}

fn amf_set_rank_exec(set: &AmfSetConfig) -> (r: u64)
    ensures
        r == amf_set_rank(*set),
{
    let p = priority_or_zero(set.priority);
    let c = priority_or_zero(set.capacity);
    (0xffff_ffff - p) * 0x1_0000_0000 + (0xffff_ffff - c)
}

fn service_set_rank_exec(set: &AmfServiceSetConfig) -> (r: u64)
    ensures
        r == service_set_rank(*set),
{
    0xffff_ffff - priority_or_zero(set.priority)
}

fn instance_rank_exec(instance: &AmfInstanceConfig) -> (r: u64)
    ensures
        r == instance_rank(*instance),
{
    let c = priority_or_zero(instance.capacity);
    let l = priority_or_zero(instance.load_level);
    (0xffff_ffff - c) * 0x1_0000_0000 + l
}

fn profile_rank_exec(profile: &NFProfile) -> (r: u64)
    ensures
        r == profile_rank(*profile),
{
    let p: u64 = match profile.priority {
        Some(v) => v as u64,
        None => 0,
    };
    let c: u64 = match profile.capacity {
        Some(v) => v as u64,
        None => 0,
    };
    let l: u64 = match profile.load {
        Some(v) => v as u64,
        None => 0,
    };
    (0xffff - p) * 0x1_0000_0000 + (0xffff - c) * 0x1_0000 + l
}

/// The position of the best eligible AMF set.
fn best_amf_set(sets: &[AmfSetConfig], required: &[Snssai], plmn: Option<&PlmnId>) -> (r: Option<usize>)
    ensures
        ({
            let eligible = amf_sets_eligible(sets@, required@, match plmn { Some(p) => Some(*p), None => None });
            &&& r is None <==> !any_included(eligible)
            &&& r matches Some(i) ==> best_ranked(amf_set_ranks(sets@), eligible, i as int)
        }),
{
    let ghost within = match plmn {
        Some(p) => Some(*p),
        None => None,
    };
    let mut ranks: Vec<u64> = Vec::new();
    let mut eligible: Vec<bool> = Vec::new();
    let mut i: usize = 0;
    while i < sets.len()
        invariant
            i <= sets@.len(),
            within == match plmn { Some(p) => Some(*p), None => None::<PlmnId> },
            ranks@ == amf_set_ranks(sets@).take(i as int),
            eligible@ == amf_sets_eligible(sets@, required@, within).take(i as int),
        decreases sets.len() - i,
    {
        ranks.push(amf_set_rank_exec(&sets[i]));
        let in_plmn = match plmn {
            Some(p) => plmn_eq(&sets[i].plmn_id, p),
            None => true,
        };
        eligible.push(in_plmn && supports_all_snssais(sets[i].supported_snssais.as_slice(), required));
        i = i + 1;
        assert(ranks@ =~= amf_set_ranks(sets@).take(i as int));
        assert(eligible@ =~= amf_sets_eligible(sets@, required@, within).take(i as int));
    }
    assert(ranks@ =~= amf_set_ranks(sets@));
    assert(eligible@ =~= amf_sets_eligible(sets@, required@, within));
    best_by_rank(&ranks, &eligible)
}

/// The AMF set that serves every required S-NSSAI: the one of highest
/// priority, then highest capacity, the first of those.
pub fn select_target_amf_set<'a>(amf_sets: &'a [AmfSetConfig], required_snssais: &[Snssai]) -> (r: Option<&'a AmfSetConfig>)
    ensures
        ({
            let eligible = amf_sets_eligible(amf_sets@, required_snssais@, None);
            &&& r is None <==> !any_included(eligible)
            &&& r matches Some(s) ==> exists|i: int|
                best_ranked(amf_set_ranks(amf_sets@), eligible, i) && *s == amf_sets@[i]
        }),
{
    match best_amf_set(amf_sets, required_snssais, None) {
        Some(i) => Some(&amf_sets[i]),
        None => None,
    }
}

/// The position of the best eligible AMF service set.
fn best_service_set(sets: &[AmfServiceSetConfig], required: &[Snssai], amf_set_id: Option<&str>) -> (r: Option<usize>)
    ensures
        ({
            let eligible = service_sets_eligible(
                sets@,
                required@,
                match amf_set_id { Some(id) => Some(id@), None => None },
            );
            &&& r is None <==> !any_included(eligible)
            &&& r matches Some(i) ==> best_ranked(service_set_ranks(sets@), eligible, i as int)
        }),
{
    let ghost within = match amf_set_id {
        Some(id) => Some(id@),
        None => None,
    };
    let mut ranks: Vec<u64> = Vec::new();
    let mut eligible: Vec<bool> = Vec::new();
    let mut i: usize = 0;
    while i < sets.len()
        invariant
            i <= sets@.len(),
            within == match amf_set_id { Some(id) => Some(id@), None => None::<Seq<char>> },
            ranks@ == service_set_ranks(sets@).take(i as int),
            eligible@ == service_sets_eligible(sets@, required@, within).take(i as int),
        decreases sets.len() - i,
    {
        ranks.push(service_set_rank_exec(&sets[i]));
        let in_set = match amf_set_id {
            Some(id) => crate::text::str_eq(sets[i].amf_set_id.as_str(), id),
            None => true,
        };
        eligible.push(in_set && supports_all_snssais(sets[i].supported_snssais.as_slice(), required));
        i = i + 1;
        assert(ranks@ =~= service_set_ranks(sets@).take(i as int));
        assert(eligible@ =~= service_sets_eligible(sets@, required@, within).take(i as int));
    }
    assert(ranks@ =~= service_set_ranks(sets@));
    assert(eligible@ =~= service_sets_eligible(sets@, required@, within));
    best_by_rank(&ranks, &eligible)
}

/// The AMF service set that serves every required S-NSSAI: the one of
/// highest priority, the first of those.
pub fn select_target_amf_service_set<'a>(
    service_sets: &'a [AmfServiceSetConfig],
    required_snssais: &[Snssai],
) -> (r: Option<&'a AmfServiceSetConfig>)
    ensures
        ({
            let eligible = service_sets_eligible(service_sets@, required_snssais@, None);
            &&& r is None <==> !any_included(eligible)
            &&& r matches Some(s) ==> exists|i: int|
                best_ranked(service_set_ranks(service_sets@), eligible, i) && *s == service_sets@[i]
        }),
{
    match best_service_set(service_sets, required_snssais, None) {
        Some(i) => Some(&service_sets[i]),
        None => None,
    }
}

/// The identifiers of the eligible instances, best ranked first.
fn ranked_instance_ids(
    instances: &[AmfInstanceConfig],
    required: &[Snssai],
    within: Option<(&str, &PlmnId)>,
) -> (r: Vec<String>)
    ensures
        ranked_candidates(
            instances@,
            required@,
            match within { Some((id, p)) => Some((id@, *p)), None => None },
            r@,
        ),
{
    let ghost w = match within {
        Some((id, p)) => Some((id@, *p)),
        None => None,
    };
    let ghost keep = |x: AmfInstanceConfig| instance_eligible(x, required@, w);
    let mut ids: Vec<String> = Vec::new();
    let mut ranks: Vec<u64> = Vec::new();
    let mut i: usize = 0;
    while i < instances.len()
        invariant
            i <= instances@.len(),
            w == match within { Some((id, p)) => Some((id@, *p)), None => None::<(Seq<char>, PlmnId)> },
            keep == (|x: AmfInstanceConfig| instance_eligible(x, required@, w)),
            ids@ == instance_ids(instances@.take(i as int).filter(keep)),
            ranks@ == instance_ranks(instances@.take(i as int).filter(keep)),
        decreases instances.len() - i,
    {
        let x = &instances[i];
        let in_set = match within {
            Some((id, p)) => crate::text::str_eq(x.amf_set_id.as_str(), id) && plmn_eq(&x.plmn_id, p),
            None => true,
        };
        let eligible = in_set && supports_all_snssais(x.supported_snssais.as_slice(), required);
        let ghost next = instances@.take(i + 1);
        assert(next.drop_last() =~= instances@.take(i as int));
        assert(next.last() == *x);
        assert(eligible == keep(*x));
        if eligible {
            ids.push(x.nf_instance_id.clone());
            ranks.push(instance_rank_exec(x));
        }
        i = i + 1;
        assert(next.filter(keep) == if keep(*x) {
            instances@.take(i - 1).filter(keep).push(*x)
        } else {
            instances@.take(i - 1).filter(keep)
        }) by {
            reveal(Seq::filter);
        }
        assert(ids@ =~= instance_ids(instances@.take(i as int).filter(keep)));
        assert(ranks@ =~= instance_ranks(instances@.take(i as int).filter(keep)));
    }
    assert(instances@.take(i as int) =~= instances@);
    sort_by_rank(ids, ranks)
}

/// The AMF instances that serve every required S-NSSAI, by capacity,
/// highest first, then load, lowest first.
pub fn generate_candidate_amf_list(instances: &[AmfInstanceConfig], required_snssais: &[Snssai]) -> (r: Vec<String>)
    ensures
        ranked_candidates(instances@, required_snssais@, None, r@),
{
    ranked_instance_ids(instances, required_snssais, None)
}

/// What the local selection gives: nothing when no AMF set of the PLMN
/// serves every S-NSSAI; otherwise the best such set with its NRF, the best
/// of its service sets that serves them all, and its instances in the PLMN
/// that serve them all, best ranked first.
pub open spec fn local_selection(
    result: AmfSelectionResult,
    snssais: Seq<Snssai>,
    plmn: PlmnId,
    store: NssfStore,
) -> bool {
    let eligible = amf_sets_eligible(store.amf_sets@, snssais, Some(plmn));
    if !any_included(eligible) {
        result.is_empty_selection()
    } else {
        exists|i: int| {
            &&& best_ranked(amf_set_ranks(store.amf_sets@), eligible, i)
            &&& #[trigger] store.amf_sets@[i] == store.amf_sets@[i]
            &&& {
                let set = store.amf_sets@[i];
                let ss_eligible = service_sets_eligible(store.amf_service_sets@, snssais, Some(set.amf_set_id@));
                &&& result.target_amf_set == Some(set.amf_set_id)
                &&& result.nrf_amf_set == Some(set.nrf_id)
                &&& result.nrf_amf_set_nf_mgt_uri == set.nrf_nf_mgt_uri
                &&& result.nrf_amf_set_access_token_uri == set.nrf_access_token_uri
                &&& same_service_flags(result.nrf_oauth2_required, set.nrf_oauth2_required)
                &&& (!any_included(ss_eligible) ==> result.target_amf_service_set is None)
                &&& (forall|k: int| best_ranked(service_set_ranks(store.amf_service_sets@), ss_eligible, k)
                    ==> result.target_amf_service_set == Some(store.amf_service_sets@[k].amf_service_set_id))
                &&& ranked_candidates(
                    store.amf_instances@,
                    snssais,
                    Some((set.amf_set_id@, plmn)),
                    result.candidate_amf_list@,
                )
            }
        }
    }
}

/// Selects from the store the AMF set, service set and candidate AMFs of the
/// PLMN that serve every S-NSSAI.
pub fn perform_local_amf_selection(snssais: &[Snssai], plmn: &PlmnId, store: &NssfStore) -> (r: AmfSelectionResult)
    ensures
        local_selection(r, snssais@, *plmn, *store),
{
    let chosen = best_amf_set(store.amf_sets.as_slice(), snssais, Some(plmn));
    match chosen {
        None => AmfSelectionResult::default(),
        Some(i) => {
            let set = &store.amf_sets[i];
            let ss = best_service_set(store.amf_service_sets.as_slice(), snssais, Some(set.amf_set_id.as_str()));
            let target_amf_service_set = match ss {
                Some(k) => Some(store.amf_service_sets[k].amf_service_set_id.clone()),
                None => None,
            };
            let candidates = ranked_instance_ids(
                store.amf_instances.as_slice(),
                snssais,
                Some((set.amf_set_id.as_str(), plmn)),
            );
            let r = AmfSelectionResult {
                target_amf_set: Some(set.amf_set_id.clone()),
                candidate_amf_list: candidates,
                nrf_amf_set: Some(set.nrf_id.clone()),
                nrf_amf_set_nf_mgt_uri: copy_opt_string(&set.nrf_nf_mgt_uri),
                nrf_amf_set_access_token_uri: copy_opt_string(&set.nrf_access_token_uri),
                nrf_oauth2_required: copy_service_flags(&set.nrf_oauth2_required),
                target_amf_service_set,
            };
            proof {
                let ss_eligible = service_sets_eligible(
                    store.amf_service_sets@,
                    snssais@,
                    Some(set.amf_set_id@),
                );
                assert forall|k: int|
                    best_ranked(service_set_ranks(store.amf_service_sets@), ss_eligible, k) implies r.target_amf_service_set
                    == Some(store.amf_service_sets@[k].amf_service_set_id) by {
                    lemma_best_ranked_unique(
                        service_set_ranks(store.amf_service_sets@),
                        ss_eligible,
                        k,
                        ss.unwrap() as int,
                    );
                }
                assert(store.amf_sets@[i as int] == store.amf_sets@[i as int]);
            }
            r
        },
    }
}

pub open spec fn profile_ranks(profiles: Seq<NFProfile>) -> Seq<u64> {
    profiles.map_values(|p: NFProfile| profile_rank(p))
}

/// Orders AMF profiles by priority, highest first, then capacity, highest
/// first, then load, lowest first; profiles that tie keep their order.
pub fn rank_nrf_amf_profiles(profiles: &mut Vec<NFProfile>)
    ensures
        sorted_by_rank(old(profiles)@, profile_ranks(old(profiles)@), final(profiles)@),
{
    let mut ranks: Vec<u64> = Vec::new();
    let mut i: usize = 0;
    while i < profiles.len()
        invariant
            i <= profiles@.len(),
            *profiles == *old(profiles),
            ranks@ == profile_ranks(profiles@).take(i as int),
        decreases profiles.len() - i,
    {
        ranks.push(profile_rank_exec(&profiles[i]));
        i = i + 1;
        assert(ranks@ =~= profile_ranks(profiles@).take(i as int));
    }
    assert(ranks@ =~= profile_ranks(profiles@));
    let mut taken: Vec<NFProfile> = Vec::new();
    std::mem::swap(&mut taken, profiles);
    *profiles = sort_by_rank(taken, ranks);
}

/// The profile is that of a registered NF.
pub open spec fn is_registered_profile(profile: NFProfile) -> bool {
    profile.nf_status == NfStatus::Registered
}

pub open spec fn profile_ids(profiles: Seq<NFProfile>) -> Seq<String> {
    profiles.map_values(|p: NFProfile| p.nf_instance_id)
}

/// What the NRF's AMF profiles give: the registered AMFs as candidates, best
/// ranked first, and nothing else.
pub open spec fn nrf_selection(result: AmfSelectionResult, profiles: Seq<NFProfile>) -> bool {
    let registered = profiles.filter(|p: NFProfile| is_registered_profile(p));
    &&& result.target_amf_set is None
    &&& result.nrf_amf_set is None
    &&& result.nrf_amf_set_nf_mgt_uri is None
    &&& result.nrf_amf_set_access_token_uri is None
    &&& result.nrf_oauth2_required is None
    &&& result.target_amf_service_set is None
    &&& exists|sorted: Seq<NFProfile>|
        sorted_by_rank(registered, profile_ranks(registered), sorted) && result.candidate_amf_list@
            == profile_ids(sorted)
}

/// The AMF candidates that the NRF's discovery result names: the registered
/// profiles, best ranked first.
pub fn select_from_nrf_profiles(profiles: Vec<NFProfile>) -> (r: AmfSelectionResult)
    ensures
        nrf_selection(r, profiles@),
{
    let ghost keep = |p: NFProfile| is_registered_profile(p);
    let ghost orig = profiles@;
    let mut rest = profiles;
    let mut active: Vec<NFProfile> = Vec::new();
    let mut i: usize = 0;
    let n = rest.len();
    while i < n
        invariant
            n == orig.len(),
            i <= n,
            keep == (|p: NFProfile| is_registered_profile(p)),
            rest@ == orig.skip(i as int),
            active@ == orig.take(i as int).filter(keep),
        decreases n - i,
    {
        let p = rest.remove(0);
        let ghost next = orig.take(i + 1);
        assert(next.drop_last() =~= orig.take(i as int));
        assert(next.last() == p);
        assert(rest@ =~= orig.skip(i + 1));
        let registered = p.nf_status.is_registered();
        assert(registered == keep(p));
        if registered {
            active.push(p);
        }
        i = i + 1;
        assert(next.filter(keep) == if keep(p) {
            orig.take(i - 1).filter(keep).push(p)
        } else {
            orig.take(i - 1).filter(keep)
        }) by {
            reveal(Seq::filter);
        }
    }
    assert(orig.take(n as int) =~= orig);
    let ghost registered = active@;
    rank_nrf_amf_profiles(&mut active);
    let mut ids: Vec<String> = Vec::new();
    let mut j: usize = 0;
    while j < active.len()
        invariant
            j <= active@.len(),
            ids@ == profile_ids(active@).take(j as int),
        decreases active.len() - j,
    {
        ids.push(active[j].nf_instance_id.clone());
        j = j + 1;
        assert(ids@ =~= profile_ids(active@).take(j as int));
    }
    assert(ids@ =~= profile_ids(active@));
    let r = AmfSelectionResult { candidate_amf_list: ids, ..AmfSelectionResult::default() };
    assert(sorted_by_rank(registered, profile_ranks(registered), active@));
    r
}

/// Whether the local selection found nothing, so that the NRF is to be asked.
pub fn needs_nrf_fallback(local: &AmfSelectionResult) -> (r: bool)
    ensures
        r == (local.candidate_amf_list@.len() == 0 && local.target_amf_set is None),
{
    local.candidate_amf_list.len() == 0 && local.target_amf_set.is_none()
}

/// The AMF selection: the local result when it found a set or candidates;
/// else the NRF's result when the NRF was asked and named candidates; else
/// the local result.
pub fn select_amf_candidates(local: AmfSelectionResult, nrf_result: Option<AmfSelectionResult>) -> (r: AmfSelectionResult)
    ensures
        ({
            let local_found = local.candidate_amf_list@.len() > 0 || local.target_amf_set is Some;
            match nrf_result {
                Some(n) => if !local_found && n.candidate_amf_list@.len() > 0 {
                    r == n
                } else {
                    r == local
                },
                None => r == local,
            }
        }),
{
    if local.candidate_amf_list.len() != 0 || local.target_amf_set.is_some() {
        return local;
    }
    match nrf_result {
        Some(n) => if n.candidate_amf_list.len() != 0 {
            n
        } else {
            local
        },
        None => local,
    }
}

/// `id` names an AMF instance of the store that belongs to the AMF set
/// `set_id`, is in the PLMN and serves every S-NSSAI asked for.
pub open spec fn instance_of_set(store: NssfStore, id: String, set_id: Option<String>, plmn: PlmnId, snssais: Seq<Snssai>) -> bool {
    exists|k: int| {
        &&& 0 <= k < store.amf_instances@.len()
        &&& (#[trigger] store.amf_instances@[k]).nf_instance_id == id
        &&& set_id is Some
        &&& store.amf_instances@[k].amf_set_id@ == set_id->0@
        &&& plmn_same(store.amf_instances@[k].plmn_id, plmn)
        &&& supports_all(store.amf_instances@[k].supported_snssais@, snssais)
    }
}

/// Every candidate AMF of a local selection is an AMF instance of the store
/// that belongs to the chosen target AMF set, is in the PLMN and serves every
/// S-NSSAI asked for.
pub proof fn law_local_candidates_belong_to_the_target_set(
    result: AmfSelectionResult,
    snssais: Seq<Snssai>,
    plmn: PlmnId,
    store: NssfStore,
)
    requires
        local_selection(result, snssais, plmn, store),
    ensures
        forall|p: int|
            0 <= p < result.candidate_amf_list@.len() ==> instance_of_set(
                store,
                #[trigger] result.candidate_amf_list@[p],
                result.target_amf_set,
                plmn,
                snssais,
            ),
{
    broadcast use vstd::seq_lib::group_filter_ensures;
    let eligible = amf_sets_eligible(store.amf_sets@, snssais, Some(plmn));
    if any_included(eligible) {
        let i = choose|i: int| {
            &&& best_ranked(amf_set_ranks(store.amf_sets@), eligible, i)
            &&& #[trigger] store.amf_sets@[i] == store.amf_sets@[i]
            &&& {
                let set = store.amf_sets@[i];
                &&& result.target_amf_set == Some(set.amf_set_id)
                &&& ranked_candidates(
                    store.amf_instances@,
                    snssais,
                    Some((set.amf_set_id@, plmn)),
                    result.candidate_amf_list@,
                )
            }
        };
        let set = store.amf_sets@[i];
        let within = Some((set.amf_set_id@, plmn));
        let pred = |x: AmfInstanceConfig| instance_eligible(x, snssais, within);
        let kept = store.amf_instances@.filter(pred);
        assert(kept == eligible_instances(store.amf_instances@, snssais, within));
        let order = choose|order: Seq<int>|
            is_rank_order(instance_ranks(kept), order) && arranged_by(
                instance_ids(kept),
                order,
                result.candidate_amf_list@,
            );
        assert forall|p: int| 0 <= p < result.candidate_amf_list@.len() implies instance_of_set(
            store,
            #[trigger] result.candidate_amf_list@[p],
            result.target_amf_set,
            plmn,
            snssais,
        ) by {
            let j = order[p];
            assert(0 <= j < kept.len());
            assert(result.candidate_amf_list@[p] == instance_ids(kept)[j]);
            assert(instance_ids(kept)[j] == kept[j].nf_instance_id);
            assert(pred(kept[j]));
            assert(kept.contains(kept[j]));
            store.amf_instances@.lemma_filter_contains_rev(pred, kept[j]);
            let k = choose|k: int| 0 <= k < store.amf_instances@.len() && store.amf_instances@[k] == kept[j];
            assert(store.amf_instances@[k].nf_instance_id == result.candidate_amf_list@[p]);
            assert(instance_eligible(store.amf_instances@[k], snssais, within));
            assert(result.target_amf_set == Some(set.amf_set_id));
            assert(store.amf_instances@[k].amf_set_id@ == result.target_amf_set->0@);
        }
    } else {
        assert(result.candidate_amf_list@.len() == 0);
    }
}

} // verus!
