//! Network slice selection (Nnssf_NSSelection): the authorized network slice
//! information for a registration, a PDU session and a UE configuration
//! update, from the store's configuration.
use vstd::prelude::*;
use crate::errors::AppError;
use crate::services::allowed_nssai::{
    check_subscription, evaluate_policy_at, plmn_eq, plmn_same, policies_permit, subscribed,
    tai_list_admits, tai_list_admits_tai,
};
use crate::services::nsag_admission::{admit_to_nsag, check_nsag_admission, nsag_admission_effect, nsag_admits};
use crate::services::ranking::{sort_by_rank, sorted_by_rank};
use crate::services::snssai_mapping::{
    map_snssai, map_snssai_with_tai, mapped_home_snssai, mapped_home_snssai_in_tai,
};
use crate::services::amf_selection::{local_selection, perform_local_amf_selection, AmfSelectionResult};
use crate::services::feature_negotiation::{negotiate_features, negotiated_for, str_option_view};
use crate::services::selection_rules::{
    examine_candidates, find_offering_slice, first_offering_slice, initial_state, offered_in, push_some,
    selection_fold, slice_in_tai, string_views, tai_option, SelectionContext, SelectionState, Verdict,
};
use crate::services::store::StoreUpdates;
use crate::services::subscription::{
    find_subscription, first_subscription_of, has_subscription, lemma_first_subscription_unique,
};
use crate::services::store::NssfStore;
use crate::types::common::{
    copy_opt_string, copy_service_flags, copy_snssais, opt_view, same_service_flags, PlmnId, Snssai,
    Tai, Timestamp,
};
use crate::types::db::{AccessType, NsiConfiguration, SliceConfiguration, SubscribedSnssai, UeSubscription};
use crate::types::nsselection::{
    AllowedNssai, AllowedSnssai, AuthorizedNetworkSliceInfo, ConfiguredSnssai, NsiInformation,
    RoamingIndication, SliceInfoForPDUSession, SliceInfoForRegistration,
    SliceInfoForUEConfigurationUpdate,
};
use crate::validation::{requested_nssai_error, snssai_eq, snssai_same, validate_requested_nssai};

verus! {

/// Nothing authorized, nothing rejected.
pub open spec fn is_empty_response(info: AuthorizedNetworkSliceInfo) -> bool {
    &&& info.allowed_nssai_list is None
    &&& info.configured_nssai is None
    &&& info.target_amf_set is None
    &&& info.candidate_amf_list is None
    &&& info.rejected_nssai_in_plmn is None
    &&& info.rejected_nssai_in_ta is None
    &&& info.nsi_information is None
    &&& info.supported_features is None
    &&& info.nrf_amf_set is None
    &&& info.nrf_amf_set_nf_mgt_uri is None
    &&& info.nrf_amf_set_access_token_uri is None
    &&& info.nrf_oauth2_required is None
    &&& info.target_amf_service_set is None
    &&& info.target_nssai is None
    &&& info.nsag_infos is None
    &&& info.mapping_of_nssai is None
}

pub fn empty_response() -> (r: AuthorizedNetworkSliceInfo)
    ensures
        is_empty_response(r),
{
    AuthorizedNetworkSliceInfo {
        allowed_nssai_list: None,
        configured_nssai: None,
        target_amf_set: None,
        candidate_amf_list: None,
        rejected_nssai_in_plmn: None,
        rejected_nssai_in_ta: None,
        nsi_information: None,
        supported_features: None,
        nrf_amf_set: None,
        nrf_amf_set_nf_mgt_uri: None,
        nrf_amf_set_access_token_uri: None,
        nrf_oauth2_required: None,
        target_amf_service_set: None,
        target_nssai: None,
        nsag_infos: None,
        mapping_of_nssai: None,
    }
}

/// An empty list is left out.
pub fn opt_vec<T>(v: Vec<T>) -> (r: Option<Vec<T>>)
    ensures
        v@.len() == 0 ==> r is None,
        v@.len() > 0 ==> r == Some(v),
{
    if v.len() == 0 {
        None
    } else {
        Some(v)
    }
}

/// `list` stands for the S-NSSAIs `s`: absent when there are none.
pub open spec fn lists(list: Option<Vec<Snssai>>, s: Seq<Snssai>) -> bool {
    match list {
        None => s.len() == 0,
        Some(v) => v@.len() > 0 && v@ == s,
    }
}

pub fn is_slice_available_in_tai(slice: &SliceConfiguration, tai: Option<&Tai>) -> (r: bool)
    ensures
        r == slice_in_tai(*slice, tai_option(tai)),
{
    match tai {
        None => true,
        Some(t) => tai_list_admits_tai(&slice.tai_list, t),
    }
}

/// The NSI may serve in the TAI; without a TAI every NSI may.
pub open spec fn nsi_in_tai(nsi: NsiConfiguration, tai: Option<Tai>) -> bool {
    match tai {
        None => true,
        Some(t) => tai_list_admits(nsi.tai_list, t),
    }
}

pub fn is_nsi_available_in_tai(nsi: &NsiConfiguration, tai: Option<&Tai>) -> (r: bool)
    ensures
        r == nsi_in_tai(*nsi, tai_option(tai)),
{
    match tai {
        None => true,
        Some(t) => tai_list_admits_tai(&nsi.tai_list, t),
    }
}

/// An NSI serves the S-NSSAI in the PLMN and the TAI: same SST, the same SD
/// where the S-NSSAI has one, the same slice, the PLMN, and the TAI.
pub open spec fn nsi_considered(nsi: NsiConfiguration, snssai: Snssai, plmn: PlmnId, tai: Option<Tai>) -> bool {
    &&& nsi.snssai.sst == snssai.sst
    &&& plmn_same(nsi.plmn_id, plmn)
    &&& match snssai.sd {
        Some(sd) => nsi.snssai.sd matches Some(x) && x@ == sd@,
        None => true,
    }
    &&& snssai_same(snssai, nsi.snssai)
    &&& nsi_in_tai(nsi, tai)
}

/// NSIs are ranked by priority, highest first, then by load, lowest first;
/// a missing value counts as zero.
pub open spec fn nsi_rank(nsi: NsiConfiguration) -> u64 {
    let p: int = match nsi.priority {
        Some(p) => p as int,
        None => 0,
    };
    let l: int = match nsi.load_level {
        Some(l) => l as int,
        None => 0,
    };
    ((0xffff_ffff - p) * 0x1_0000_0000 + l) as u64
}

pub open spec fn nsi_ranks(nsis: Seq<NsiConfiguration>) -> Seq<u64> {
    nsis.map_values(|n: NsiConfiguration| nsi_rank(n))
}

/// The NSI information that names the NSI and its NRF.
pub open spec fn describes(info: NsiInformation, nsi: NsiConfiguration) -> bool {
    &&& info.nrf_id == nsi.nrf_id
    &&& info.nsi_id == Some(nsi.nsi_id)
    &&& info.nrf_nf_mgt_uri == nsi.nrf_nf_mgt_uri
    &&& info.nrf_access_token_uri == nsi.nrf_access_token_uri
    &&& same_service_flags(info.nrf_oauth2_required, nsi.nrf_oauth2_required)
}

/// `infos` describes the NSIs that serve the S-NSSAI in the PLMN and the TAI,
/// best ranked first.
pub open spec fn nsi_selection(
    nsis: Seq<NsiConfiguration>,
    snssai: Snssai,
    plmn: PlmnId,
    tai: Option<Tai>,
    infos: Seq<NsiInformation>,
) -> bool {
    let kept = nsis.filter(|n: NsiConfiguration| nsi_considered(n, snssai, plmn, tai));
    exists|described: Seq<NsiInformation>|
        {
            &&& described.len() == kept.len()
            &&& forall|p: int| 0 <= p < kept.len() ==> describes(#[trigger] described[p], kept[p])
            &&& sorted_by_rank(described, nsi_ranks(kept), infos)
        }
}

fn nsi_rank_exec(nsi: &NsiConfiguration) -> (r: u64)
    ensures
        r == nsi_rank(*nsi),
{
    let p: u64 = match nsi.priority {
        Some(v) => v as u64,
        None => 0,
    };
    let l: u64 = match nsi.load_level {
        Some(v) => v as u64,
        None => 0,
    };
    (0xffff_ffff - p) * 0x1_0000_0000 + l
}

fn nsi_considered_exec(nsi: &NsiConfiguration, snssai: &Snssai, plmn: &PlmnId, tai: Option<&Tai>) -> (r: bool)
    ensures
        r == nsi_considered(*nsi, *snssai, *plmn, tai_option(tai)),
{
    if nsi.snssai.sst != snssai.sst || !plmn_eq(&nsi.plmn_id, plmn) {
        return false;
    }
    let sd_matches = match &snssai.sd {
        Some(sd) => match &nsi.snssai.sd {
            Some(x) => crate::text::str_eq(x.as_str(), sd.as_str()),
            None => false,
        },
        None => true,
    };
    sd_matches && snssai_eq(snssai, &nsi.snssai) && is_nsi_available_in_tai(nsi, tai)
}

fn describe_nsi(nsi: &NsiConfiguration) -> (r: NsiInformation)
    ensures
        describes(r, *nsi),
{
    NsiInformation {
        nrf_id: nsi.nrf_id.clone(),
        nsi_id: Some(nsi.nsi_id.clone()),
        nrf_nf_mgt_uri: copy_opt_string(&nsi.nrf_nf_mgt_uri),
        nrf_access_token_uri: copy_opt_string(&nsi.nrf_access_token_uri),
        nrf_oauth2_required: copy_service_flags(&nsi.nrf_oauth2_required),
    }
}

/// The NSIs that serve the S-NSSAI in the PLMN and the TAI, best ranked first.
pub fn select_nsi_for_snssai(snssai: &Snssai, plmn_id: &PlmnId, tai: Option<&Tai>, store: &NssfStore) -> (r: Vec<NsiInformation>)
    ensures
        nsi_selection(store.nsis@, *snssai, *plmn_id, tai_option(tai), r@),
{
    let nsis = &store.nsis;
    let ghost keep = |n: NsiConfiguration| nsi_considered(n, *snssai, *plmn_id, tai_option(tai));
    let mut infos: Vec<NsiInformation> = Vec::new();
    let mut ranks: Vec<u64> = Vec::new();
    let mut i: usize = 0;
    while i < nsis.len()
        invariant
            nsis == &store.nsis,
            i <= nsis@.len(),
            keep == (|n: NsiConfiguration| nsi_considered(n, *snssai, *plmn_id, tai_option(tai))),
            infos@.len() == nsis@.take(i as int).filter(keep).len(),
            forall|p: int|
                0 <= p < infos@.len() ==> describes(
                    #[trigger] infos@[p],
                    nsis@.take(i as int).filter(keep)[p],
                ),
            ranks@ == nsi_ranks(nsis@.take(i as int).filter(keep)),
        decreases nsis.len() - i,
    {
        let nsi = &nsis[i];
        let considered = nsi_considered_exec(nsi, snssai, plmn_id, tai);
        let ghost prev = nsis@.take(i as int).filter(keep);
        let ghost next = nsis@.take(i + 1);
        assert(next.drop_last() =~= nsis@.take(i as int));
        assert(next.last() == *nsi);
        assert(next.filter(keep) == if keep(*nsi) {
            prev.push(*nsi)
        } else {
            prev
        }) by {
            reveal(Seq::filter);
        }
        if considered {
            infos.push(describe_nsi(nsi));
            ranks.push(nsi_rank_exec(nsi));
        }
        i = i + 1;
        assert(ranks@ =~= nsi_ranks(nsis@.take(i as int).filter(keep)));
    }
    assert(nsis@.take(i as int) =~= nsis@);
    let ghost described = infos@;
    let sorted = sort_by_rank(infos, ranks);
    assert(nsi_selection(store.nsis@, *snssai, *plmn_id, tai_option(tai), sorted@)) by {
        let kept = store.nsis@.filter(keep);
        assert(described.len() == kept.len());
        assert(forall|p: int| 0 <= p < kept.len() ==> describes(#[trigger] described[p], kept[p]));
        assert(sorted_by_rank(described, nsi_ranks(kept), sorted@));
    }
    sorted
}

/// The home S-NSSAI that the serving S-NSSAI maps to, within the TAI where one is given.
pub open spec fn home_mapping(
    mappings: Seq<crate::types::db::SnssaiMapping>,
    snssai: Snssai,
    serving_plmn: PlmnId,
    home_plmn: PlmnId,
    tai: Option<Tai>,
) -> Option<Snssai> {
    match tai {
        Some(t) => mapped_home_snssai_in_tai(mappings, snssai, serving_plmn, home_plmn, t),
        None => mapped_home_snssai(mappings, snssai, serving_plmn, home_plmn),
    }
}

pub fn map_home_snssai(
    snssai: &Snssai,
    serving_plmn: &PlmnId,
    home_plmn: &PlmnId,
    tai: Option<&Tai>,
    store: &NssfStore,
) -> (r: Option<Snssai>)
    ensures
        r == home_mapping(store.snssai_mappings@, *snssai, *serving_plmn, *home_plmn, tai_option(tai)),
{
    match tai {
        Some(t) => map_snssai_with_tai(snssai, serving_plmn, home_plmn, t, store),
        None => map_snssai(snssai, serving_plmn, home_plmn, store),
    }
}

/// The entry of the allowed NSSAI for an allowed S-NSSAI: the NSIs that
/// serve it, and, when roaming, the home S-NSSAI it maps to.
pub open spec fn allowed_entry(
    entry: AllowedSnssai,
    snssai: Snssai,
    target_plmn: PlmnId,
    serving_plmn: PlmnId,
    home_plmn: PlmnId,
    is_roaming: bool,
    tai: Option<Tai>,
    store: NssfStore,
) -> bool {
    &&& entry.allowed_snssai == snssai
    &&& match entry.nsi_information_list {
        Some(l) => l@.len() > 0 && nsi_selection(store.nsis@, snssai, target_plmn, tai, l@),
        None => nsi_selection(store.nsis@, snssai, target_plmn, tai, Seq::empty()),
    }
    &&& entry.mapped_home_snssai == if is_roaming {
        home_mapping(store.snssai_mappings@, snssai, serving_plmn, home_plmn, tai)
    } else {
        None
    }
}

/// The allowed NSSAI entries of the allowed S-NSSAIs, in order.
pub open spec fn allowed_entries(
    entries: Seq<AllowedSnssai>,
    allowed: Seq<Snssai>,
    target_plmn: PlmnId,
    serving_plmn: PlmnId,
    home_plmn: PlmnId,
    is_roaming: bool,
    tai: Option<Tai>,
    store: NssfStore,
) -> bool {
    &&& entries.len() == allowed.len()
    &&& forall|p: int|
        0 <= p < allowed.len() ==> allowed_entry(
            #[trigger] entries[p],
            allowed[p],
            target_plmn,
            serving_plmn,
            home_plmn,
            is_roaming,
            tai,
            store,
        )
}

pub fn build_allowed_snssai_list(
    processed_snssais: &Vec<Snssai>,
    target_plmn_id: &PlmnId,
    serving_plmn_id: &PlmnId,
    home_plmn_id: &PlmnId,
    is_roaming: bool,
    tai: Option<&Tai>,
    store: &NssfStore,
) -> (r: Vec<AllowedSnssai>)
    ensures
        allowed_entries(
            r@,
            processed_snssais@,
            *target_plmn_id,
            *serving_plmn_id,
            *home_plmn_id,
            is_roaming,
            tai_option(tai),
            *store,
        ),
{
    let mut list: Vec<AllowedSnssai> = Vec::new();
    let mut i: usize = 0;
    while i < processed_snssais.len()
        invariant
            i <= processed_snssais@.len(),
            list@.len() == i,
            forall|p: int|
                0 <= p < i ==> allowed_entry(
                    #[trigger] list@[p],
                    processed_snssais@[p],
                    *target_plmn_id,
                    *serving_plmn_id,
                    *home_plmn_id,
                    is_roaming,
                    tai_option(tai),
                    *store,
                ),
        decreases processed_snssais.len() - i,
    {
        let snssai = &processed_snssais[i];
        let nsi_information_list = select_nsi_for_snssai(snssai, target_plmn_id, tai, store);
        let mapped_home_snssai = if is_roaming {
            map_home_snssai(snssai, serving_plmn_id, home_plmn_id, tai, store)
        } else {
            None
        };
        let entry = AllowedSnssai {
            allowed_snssai: snssai.copy(),
            nsi_information_list: opt_vec(nsi_information_list),
            mapped_home_snssai,
        };
        list.push(entry);
        i = i + 1;
    }
    list
}

/// The subscribed S-NSSAIs marked as default, in order.
pub open spec fn default_subscribed(subscription: UeSubscription) -> Seq<Snssai> {
    subscription.subscribed_snssais@.filter(|s: SubscribedSnssai| s.default_indication == Some(true)).map_values(
        |s: SubscribedSnssai| s.subscribed_snssai,
    )
}

/// The S-NSSAIs that the configured NSSAI considers: the default ones, or all.
pub open spec fn configured_candidates(subscription: UeSubscription, default_only: bool) -> Seq<Snssai> {
    if default_only {
        default_subscribed(subscription)
    } else {
        crate::services::subscription::subscribed_snssais(subscription)
    }
}

/// The configured NSSAI lists the considered S-NSSAIs that are offered in
/// the target PLMN and the TAI, in order; when roaming, with the home
/// S-NSSAIs they map to.
pub open spec fn configured_entries(
    entries: Seq<ConfiguredSnssai>,
    subscription: UeSubscription,
    default_only: bool,
    target_plmn: PlmnId,
    serving_plmn: PlmnId,
    home_plmn: PlmnId,
    is_roaming: bool,
    tai: Option<Tai>,
    store: NssfStore,
) -> bool {
    let shown = configured_candidates(subscription, default_only).filter(
        |s: Snssai| offered_in(store.slices@, s, target_plmn, tai),
    );
    &&& entries.len() == shown.len()
    &&& forall|p: int|
        0 <= p < shown.len() ==> {
            &&& (#[trigger] entries[p]).configured_snssai == shown[p]
            &&& entries[p].mapped_home_snssai == if is_roaming {
                home_mapping(store.snssai_mappings@, shown[p], serving_plmn, home_plmn, tai)
            } else {
                None
            }
        }
}

/// The S-NSSAIs of the subscription that the configured NSSAI considers.
fn configured_candidate_list(subscription: &UeSubscription, default_configured_snssai_ind: bool) -> (r: Vec<Snssai>)
    ensures
        r@ == configured_candidates(*subscription, default_configured_snssai_ind),
{
    if !default_configured_snssai_ind {
        return crate::services::subscription::get_subscribed_snssais(subscription);
    }
    let list = &subscription.subscribed_snssais;
    let ghost keep = |s: SubscribedSnssai| s.default_indication == Some(true);
    let ghost pick = |s: SubscribedSnssai| s.subscribed_snssai;
    let mut r: Vec<Snssai> = Vec::new();
    let mut i: usize = 0;
    while i < list.len()
        invariant
            list == &subscription.subscribed_snssais,
            i <= list@.len(),
            keep == (|s: SubscribedSnssai| s.default_indication == Some(true)),
            pick == (|s: SubscribedSnssai| s.subscribed_snssai),
            r@ == list@.take(i as int).filter(keep).map_values(pick),
        decreases list.len() - i,
    {
        let item = &list[i];
        let ghost prev = list@.take(i as int).filter(keep);
        let ghost next = list@.take(i + 1);
        assert(next.drop_last() =~= list@.take(i as int));
        assert(next.last() == *item);
        assert(next.filter(keep) == if keep(*item) {
            prev.push(*item)
        } else {
            prev
        }) by {
            reveal(Seq::filter);
        }
        if let Some(true) = item.default_indication {
            r.push(item.subscribed_snssai.copy());
            assert(r@ =~= next.filter(keep).map_values(pick));
        } else {
            assert(r@ =~= next.filter(keep).map_values(pick));
        }
        i = i + 1;
    }
    assert(list@.take(i as int) =~= list@);
    r
}

pub fn build_configured_nssai(
    subscription: &UeSubscription,
    default_configured_snssai_ind: bool,
    target_plmn_id: &PlmnId,
    serving_plmn_id: &PlmnId,
    home_plmn_id: &PlmnId,
    is_roaming: bool,
    tai: Option<&Tai>,
    store: &NssfStore,
) -> (r: Vec<ConfiguredSnssai>)
    ensures
        configured_entries(
            r@,
            *subscription,
            default_configured_snssai_ind,
            *target_plmn_id,
            *serving_plmn_id,
            *home_plmn_id,
            is_roaming,
            tai_option(tai),
            *store,
        ),
{
    let candidates = configured_candidate_list(subscription, default_configured_snssai_ind);
    let ghost keep = |s: Snssai| offered_in(store.slices@, s, *target_plmn_id, tai_option(tai));
    let ghost mut shown: Seq<Snssai> = Seq::empty();
    let mut configured: Vec<ConfiguredSnssai> = Vec::new();
    let mut i: usize = 0;
    while i < candidates.len()
        invariant
            i <= candidates@.len(),
            keep == (|s: Snssai| offered_in(store.slices@, s, *target_plmn_id, tai_option(tai))),
            shown == candidates@.take(i as int).filter(keep),
            configured@.len() == shown.len(),
            forall|p: int|
                0 <= p < shown.len() ==> {
                    &&& (#[trigger] configured@[p]).configured_snssai == shown[p]
                    &&& configured@[p].mapped_home_snssai == if is_roaming {
                        home_mapping(
                            store.snssai_mappings@,
                            shown[p],
                            *serving_plmn_id,
                            *home_plmn_id,
                            tai_option(tai),
                        )
                    } else {
                        None
                    }
                },
        decreases candidates.len() - i,
    {
        let snssai = &candidates[i];
        let ghost next = candidates@.take(i + 1);
        assert(next.drop_last() =~= candidates@.take(i as int));
        assert(next.last() == *snssai);
        assert(next.filter(keep) == if keep(*snssai) {
            shown.push(*snssai)
        } else {
            shown
        }) by {
            reveal(Seq::filter);
        }
        let offered = match find_offering_slice(&store.slices, snssai, target_plmn_id) {
            Some(k) => is_slice_available_in_tai(&store.slices[k], tai),
            None => false,
        };
        if offered {
            let mapped_home_snssai = if is_roaming {
                map_home_snssai(snssai, serving_plmn_id, home_plmn_id, tai, store)
            } else {
                None
            };
            configured.push(ConfiguredSnssai { configured_snssai: snssai.copy(), mapped_home_snssai });
            proof {
                shown = shown.push(*snssai);
            }
        }
        i = i + 1;
    }
    assert(candidates@.take(i as int) =~= candidates@);
    configured
}

/// An optional indication, absent meaning false.
pub open spec fn flag(o: Option<bool>) -> bool {
    match o {
        Some(b) => b,
        None => false,
    }
}

fn flag_exec(o: Option<bool>) -> (r: bool)
    ensures
        r == flag(o),
{
    match o {
        Some(b) => b,
        None => false,
    }
}

/// The S-NSSAIs of an optional list; none when absent.
pub open spec fn listed_snssais(list: Option<Vec<Snssai>>) -> Seq<Snssai> {
    match list {
        Some(v) => v@,
        None => Seq::empty(),
    }
}

fn copy_listed(list: &Option<Vec<Snssai>>) -> (r: Vec<Snssai>)
    ensures
        r@ == listed_snssais(*list),
{
    match list {
        Some(v) => copy_snssais(v),
        None => Vec::new(),
    }
}

/// The S-NSSAIs examined: the requested ones; without a request, the
/// default subscribed ones where the default configured NSSAI is indicated,
/// else every subscribed one.
pub open spec fn examined_snssais(subscription: UeSubscription, requested: Seq<Snssai>, default_ind: bool) -> Seq<Snssai> {
    if default_ind && requested.len() == 0 {
        default_subscribed(subscription)
    } else if requested.len() > 0 {
        requested
    } else {
        crate::services::subscription::subscribed_snssais(subscription)
    }
}

/// The allowed NSSAI lists the allowed S-NSSAIs for 3GPP access; absent when there are none.
pub open spec fn allowed_nssai_of(
    list: Option<Vec<AllowedNssai>>,
    allowed: Seq<Snssai>,
    target_plmn: PlmnId,
    serving_plmn: PlmnId,
    home_plmn: PlmnId,
    is_roaming: bool,
    tai: Option<Tai>,
    store: NssfStore,
) -> bool {
    if allowed.len() == 0 {
        list is None
    } else {
        &&& list matches Some(v)
        &&& v@.len() == 1
        &&& v@[0].access_type == AccessType::ThreeGppAccess
        &&& allowed_entries(
            v@[0].allowed_snssai_list@,
            allowed,
            target_plmn,
            serving_plmn,
            home_plmn,
            is_roaming,
            tai,
            store,
        )
    }
}

/// The response carries the AMF selection.
pub open spec fn carries_amf(info: AuthorizedNetworkSliceInfo, amf: AmfSelectionResult) -> bool {
    &&& info.target_amf_set == amf.target_amf_set
    &&& info.target_amf_service_set == amf.target_amf_service_set
    &&& match info.candidate_amf_list {
        None => amf.candidate_amf_list@.len() == 0,
        Some(v) => v@.len() > 0 && v == amf.candidate_amf_list,
    }
    &&& info.nrf_amf_set == amf.nrf_amf_set
    &&& info.nrf_amf_set_nf_mgt_uri == amf.nrf_amf_set_nf_mgt_uri
    &&& info.nrf_amf_set_access_token_uri == amf.nrf_amf_set_access_token_uri
    &&& info.nrf_oauth2_required == amf.nrf_oauth2_required
}

/// The response carries no AMF selection.
pub open spec fn carries_no_amf(info: AuthorizedNetworkSliceInfo) -> bool {
    &&& info.target_amf_set is None
    &&& info.target_amf_service_set is None
    &&& info.candidate_amf_list is None
    &&& info.nrf_amf_set is None
    &&& info.nrf_amf_set_nf_mgt_uri is None
    &&& info.nrf_amf_set_access_token_uri is None
    &&& info.nrf_oauth2_required is None
}

/// Puts the AMF selection into the response.
pub fn apply_amf_selection(info: &mut AuthorizedNetworkSliceInfo, amf: AmfSelectionResult)
    ensures
        carries_amf(*final(info), amf),
        final(info).allowed_nssai_list == old(info).allowed_nssai_list,
        final(info).configured_nssai == old(info).configured_nssai,
        final(info).rejected_nssai_in_plmn == old(info).rejected_nssai_in_plmn,
        final(info).rejected_nssai_in_ta == old(info).rejected_nssai_in_ta,
        final(info).nsi_information == old(info).nsi_information,
        final(info).supported_features == old(info).supported_features,
        final(info).target_nssai == old(info).target_nssai,
        final(info).nsag_infos == old(info).nsag_infos,
        final(info).mapping_of_nssai == old(info).mapping_of_nssai,
{
    info.target_amf_set = amf.target_amf_set;
    info.target_amf_service_set = amf.target_amf_service_set;
    info.candidate_amf_list = opt_vec(amf.candidate_amf_list);
    info.nrf_amf_set = amf.nrf_amf_set;
    info.nrf_amf_set_nf_mgt_uri = amf.nrf_amf_set_nf_mgt_uri;
    info.nrf_amf_set_access_token_uri = amf.nrf_amf_set_access_token_uri;
    info.nrf_oauth2_required = amf.nrf_oauth2_required;
}

/// The response to a subscriber, given the context and what the
/// examination of the candidates did: the allowed NSSAI, the configured
/// NSSAI, the rejected S-NSSAIs, the negotiated features, and, where asked
/// and nothing was allowed though S-NSSAIs were requested, the local AMF
/// selection for the requested S-NSSAIs.
pub open spec fn subscriber_response(
    info: AuthorizedNetworkSliceInfo,
    ctx: SelectionContext,
    fin: SelectionState,
    requested: Seq<Snssai>,
    default_ind: bool,
    amf_step: bool,
    features: Option<Seq<char>>,
    store: NssfStore,
) -> bool {
    let serving = ctx.subscription.plmn_id;
    let home = ctx.target_plmn;
    let is_roaming = !plmn_same(serving, home);
    &&& allowed_nssai_of(info.allowed_nssai_list, fin.allowed, home, serving, home, is_roaming, ctx.tai, store)
    &&& match info.configured_nssai {
        None => configured_entries(Seq::empty(), ctx.subscription, default_ind, home, serving, home, is_roaming, ctx.tai, store),
        Some(v) => v@.len() > 0 && configured_entries(v@, ctx.subscription, default_ind, home, serving, home, is_roaming, ctx.tai, store),
    }
    &&& lists(info.rejected_nssai_in_plmn, fin.rejected_in_plmn)
    &&& lists(info.rejected_nssai_in_ta, fin.rejected_in_ta)
    &&& opt_view(info.supported_features) == negotiated_for(features)
    &&& if amf_step && fin.allowed.len() == 0 && requested.len() > 0 {
        exists|amf: AmfSelectionResult| local_selection(amf, requested, home, store) && carries_amf(info, amf)
    } else {
        carries_no_amf(info)
    }
    &&& info.nsi_information is None
    &&& info.target_nssai is None
    &&& info.nsag_infos is None
    &&& info.mapping_of_nssai is None
}

/// The whole outcome for a subscriber: the examination as `selection_fold`
/// states it, the store and the writes it leaves, and the response.
pub open spec fn subscriber_outcome(
    r: Result<AuthorizedNetworkSliceInfo, AppError>,
    ctx: SelectionContext,
    requested: Seq<Snssai>,
    default_ind: bool,
    amf_step: bool,
    features: Option<Seq<char>>,
    store0: NssfStore,
    updates0: StoreUpdates,
    store1: NssfStore,
    updates1: StoreUpdates,
) -> bool {
    let candidates = examined_snssais(ctx.subscription, requested, default_ind);
    let fin = selection_fold(ctx, store0, initial_state(store0, updates0), candidates);
    &&& store1.nsags@ == fin.nsags
    &&& store1.nssrgs@ == fin.nssrgs
    &&& updates1.nsag_increments@ == fin.nsag_counted
    &&& string_views(updates1.nssrg_increments@) == fin.nssrg_counted
    &&& (r is Err <==> fin.failed)
    &&& (r matches Err(e) ==> e is InternalServerError)
    &&& (r matches Ok(info) ==> subscriber_response(info, ctx, fin, requested, default_ind, amf_step, features, store0))
}

/// The store's configuration other than its NSAGs and NSSRGs is as in `other`.
pub open spec fn same_configuration(store: NssfStore, other: NssfStore) -> bool {
    &&& store.slices == other.slices
    &&& store.nsis == other.nsis
    &&& store.policies == other.policies
    &&& store.snssai_mappings == other.snssai_mappings
    &&& store.amf_sets == other.amf_sets
    &&& store.amf_service_sets == other.amf_service_sets
    &&& store.amf_instances == other.amf_instances
    &&& store.subscriptions == other.subscriptions
}

fn response_for_subscriber(
    subscription_index: usize,
    requested: &Vec<Snssai>,
    rejected_ra: &Vec<Snssai>,
    default_ind: bool,
    ue_sup_nssrg_ind: bool,
    suppress_nssrg_ind: bool,
    amf_step: bool,
    home_plmn_id: &PlmnId,
    tai: Option<&Tai>,
    supported_features: Option<&str>,
    store: &mut NssfStore,
    now: &Timestamp,
    updates: &mut StoreUpdates,
) -> (r: Result<AuthorizedNetworkSliceInfo, AppError>)
    requires
        subscription_index < old(store).subscriptions@.len(),
    ensures
        same_configuration(*final(store), *old(store)),
        subscriber_outcome(
            r,
            SelectionContext {
                subscription: old(store).subscriptions@[subscription_index as int],
                target_plmn: *home_plmn_id,
                tai: tai_option(tai),
                now: *now,
                requested: requested@.len() > 0,
                rejected_ra: rejected_ra@,
                nssrg_wanted: ue_sup_nssrg_ind && !suppress_nssrg_ind,
            },
            requested@,
            default_ind,
            amf_step,
            str_option_view(supported_features),
            *old(store),
            *old(updates),
            *final(store),
            *final(updates),
        ),
{
    let ghost store0 = *store;
    let ghost ctx = SelectionContext {
        subscription: store.subscriptions@[subscription_index as int],
        target_plmn: *home_plmn_id,
        tai: tai_option(tai),
        now: *now,
        requested: requested@.len() > 0,
        rejected_ra: rejected_ra@,
        nssrg_wanted: ue_sup_nssrg_ind && !suppress_nssrg_ind,
    };
    let candidates = if default_ind && requested.len() == 0 {
        configured_candidate_list(&store.subscriptions[subscription_index], true)
    } else if requested.len() > 0 {
        copy_snssais(requested)
    } else {
        crate::services::subscription::get_subscribed_snssais(&store.subscriptions[subscription_index])
    };
    assert(candidates@ == examined_snssais(ctx.subscription, requested@, default_ind));
    let serving_plmn_id = store.subscriptions[subscription_index].plmn_id.copy();
    let is_roaming = !plmn_eq(&serving_plmn_id, home_plmn_id);
    let examined = examine_candidates(
        &candidates,
        subscription_index,
        home_plmn_id,
        tai,
        now,
        requested.len() > 0,
        rejected_ra,
        ue_sup_nssrg_ind && !suppress_nssrg_ind,
        store,
        updates,
    );
    let (processed, rejected_in_plmn, rejected_in_ta) = match examined {
        Ok(lists) => lists,
        Err(e) => {
            return Err(e);
        },
    };
    let mut allowed_nssai_list: Vec<AllowedNssai> = Vec::new();
    if processed.len() > 0 {
        let allowed_snssai_list = build_allowed_snssai_list(
            &processed,
            home_plmn_id,
            &serving_plmn_id,
            home_plmn_id,
            is_roaming,
            tai,
            store,
        );
        allowed_nssai_list.push(AllowedNssai { allowed_snssai_list, access_type: AccessType::ThreeGppAccess });
    }
    let configured_nssai = build_configured_nssai(
        &store.subscriptions[subscription_index],
        default_ind,
        home_plmn_id,
        &serving_plmn_id,
        home_plmn_id,
        is_roaming,
        tai,
        store,
    );
    let negotiated = negotiate_features(supported_features);
    let mut result = empty_response();
    result.allowed_nssai_list = opt_vec(allowed_nssai_list);
    result.configured_nssai = opt_vec(configured_nssai);
    result.rejected_nssai_in_plmn = opt_vec(rejected_in_plmn);
    result.rejected_nssai_in_ta = opt_vec(rejected_in_ta);
    result.supported_features = negotiated;
    if amf_step && processed.len() == 0 && requested.len() > 0 {
        let amf = perform_local_amf_selection(requested.as_slice(), home_plmn_id, store);
        let ghost chosen = amf;
        apply_amf_selection(&mut result, amf);
        assert(local_selection(chosen, requested@, *home_plmn_id, store0) && carries_amf(result, chosen));
    }
    Ok(result)
}

/// The response when the store holds no subscription of the UE: every
/// requested S-NSSAI is rejected in the PLMN.
pub open spec fn unsubscribed_response(info: AuthorizedNetworkSliceInfo, rejected: Seq<Snssai>) -> bool {
    &&& lists(info.rejected_nssai_in_plmn, rejected)
    &&& is_empty_response(AuthorizedNetworkSliceInfo { rejected_nssai_in_plmn: None, ..info })
}

fn unsubscribed(rejected: Vec<Snssai>) -> (r: AuthorizedNetworkSliceInfo)
    ensures
        unsubscribed_response(r, rejected@),
{
    let mut info = empty_response();
    info.rejected_nssai_in_plmn = opt_vec(rejected);
    info
}

/// The outcome of a registration request (see `select_for_registration`).
pub open spec fn registration_outcome(
    r: Result<AuthorizedNetworkSliceInfo, AppError>,
    slice_info: SliceInfoForRegistration,
    home_plmn: PlmnId,
    supi: Seq<char>,
    tai: Option<Tai>,
    features: Option<Seq<char>>,
    now: Timestamp,
    store0: NssfStore,
    updates0: StoreUpdates,
    store1: NssfStore,
    updates1: StoreUpdates,
) -> bool {
    match requested_nssai_error(slice_info.requested_nssai) {
        Some(m) => {
            &&& (r matches Err(AppError::BadRequest(t)) && t@ == m)
            &&& store1 == store0
            &&& updates1 == updates0
        },
        None => {
            &&& same_configuration(store1, store0)
            &&& !has_subscription(store0.subscriptions@, supi, home_plmn) ==> {
                &&& (r matches Ok(info) && unsubscribed_response(info, listed_snssais(slice_info.requested_nssai)))
                &&& store1 == store0
                &&& updates1 == updates0
            }
            &&& forall|i: int| first_subscription_of(store0.subscriptions@, supi, home_plmn, i) ==> subscriber_outcome(
                r,
                SelectionContext {
                    subscription: store0.subscriptions@[i],
                    target_plmn: home_plmn,
                    tai,
                    now,
                    requested: listed_snssais(slice_info.requested_nssai).len() > 0,
                    rejected_ra: Seq::empty(),
                    nssrg_wanted: flag(slice_info.ue_sup_nssrg_ind) && !flag(slice_info.suppress_nssrg_ind),
                },
                listed_snssais(slice_info.requested_nssai),
                flag(slice_info.default_configured_snssai_ind),
                true,
                features,
                store0,
                updates0,
                store1,
                updates1,
            )
        },
    }
}

/// The outcome of a UE configuration update request (see `select_for_ue_cu`).
pub open spec fn ue_cu_outcome(
    r: Result<AuthorizedNetworkSliceInfo, AppError>,
    slice_info: SliceInfoForUEConfigurationUpdate,
    home_plmn: PlmnId,
    supi: Seq<char>,
    tai: Option<Tai>,
    features: Option<Seq<char>>,
    now: Timestamp,
    store0: NssfStore,
    updates0: StoreUpdates,
    store1: NssfStore,
    updates1: StoreUpdates,
) -> bool {
    match requested_nssai_error(slice_info.requested_nssai) {
        Some(m) => {
            &&& (r matches Err(AppError::BadRequest(t)) && t@ == m)
            &&& store1 == store0
            &&& updates1 == updates0
        },
        None => {
            &&& same_configuration(store1, store0)
            &&& !has_subscription(store0.subscriptions@, supi, home_plmn) ==> {
                &&& (r matches Ok(info) && unsubscribed_response(info, listed_snssais(slice_info.requested_nssai)))
                &&& store1 == store0
                &&& updates1 == updates0
            }
            &&& forall|i: int| first_subscription_of(store0.subscriptions@, supi, home_plmn, i) ==> subscriber_outcome(
                r,
                SelectionContext {
                    subscription: store0.subscriptions@[i],
                    target_plmn: home_plmn,
                    tai,
                    now,
                    requested: listed_snssais(slice_info.requested_nssai).len() > 0,
                    rejected_ra: listed_snssais(slice_info.rejected_nssai_ra),
                    nssrg_wanted: flag(slice_info.ue_sup_nssrg_ind) && !flag(slice_info.suppress_nssrg_ind),
                },
                listed_snssais(slice_info.requested_nssai),
                flag(slice_info.default_configured_snssai_ind),
                false,
                features,
                store0,
                updates0,
                store1,
                updates1,
            )
        },
    }
}

/// The authorized network slice information for a registration: the UE's
/// subscription in the home PLMN decides; without one, every requested
/// S-NSSAI is rejected. Where nothing is allowed though S-NSSAIs were
/// requested, the AMF selection of the store is added.
pub fn select_for_registration(
    slice_info: &SliceInfoForRegistration,
    home_plmn_id: &PlmnId,
    supi: &str,
    tai: Option<&Tai>,
    supported_features: Option<&str>,
    store: &mut NssfStore,
    now: &Timestamp,
    updates: &mut StoreUpdates,
) -> (r: Result<AuthorizedNetworkSliceInfo, AppError>)
    ensures
        registration_outcome(
            r,
            *slice_info,
            *home_plmn_id,
            supi@,
            tai_option(tai),
            str_option_view(supported_features),
            *now,
            *old(store),
            *old(updates),
            *final(store),
            *final(updates),
        ),
{
    match validate_requested_nssai(&slice_info.requested_nssai) {
        Ok(()) => {},
        Err(e) => {
            return Err(e);
        },
    }
    let requested = copy_listed(&slice_info.requested_nssai);
    let index = match find_subscription(&store.subscriptions, supi, home_plmn_id) {
        Some(i) => i,
        None => {
            return Ok(unsubscribed(requested));
        },
    };
    proof {
        assert forall|i: int| first_subscription_of(old(store).subscriptions@, supi@, *home_plmn_id, i) implies i
            == index by {
            lemma_first_subscription_unique(old(store).subscriptions@, supi@, *home_plmn_id, i, index as int);
        }
    }
    let no_rejections: Vec<Snssai> = Vec::new();
    assert(no_rejections@ =~= Seq::<Snssai>::empty());
    response_for_subscriber(
        index,
        &requested,
        &no_rejections,
        flag_exec(slice_info.default_configured_snssai_ind),
        flag_exec(slice_info.ue_sup_nssrg_ind),
        flag_exec(slice_info.suppress_nssrg_ind),
        true,
        home_plmn_id,
        tai,
        supported_features,
        store,
        now,
        updates,
    )
}

/// The authorized network slice information for a UE configuration update:
/// as for a registration, but S-NSSAIs rejected for the registration area
/// stay rejected, and no AMF is selected.
pub fn select_for_ue_cu(
    slice_info: &SliceInfoForUEConfigurationUpdate,
    home_plmn_id: &PlmnId,
    supi: &str,
    tai: Option<&Tai>,
    supported_features: Option<&str>,
    store: &mut NssfStore,
    now: &Timestamp,
    updates: &mut StoreUpdates,
) -> (r: Result<AuthorizedNetworkSliceInfo, AppError>)
    ensures
        ue_cu_outcome(
            r,
            *slice_info,
            *home_plmn_id,
            supi@,
            tai_option(tai),
            str_option_view(supported_features),
            *now,
            *old(store),
            *old(updates),
            *final(store),
            *final(updates),
        ),
{
    match validate_requested_nssai(&slice_info.requested_nssai) {
        Ok(()) => {},
        Err(e) => {
            return Err(e);
        },
    }
    let requested = copy_listed(&slice_info.requested_nssai);
    let index = match find_subscription(&store.subscriptions, supi, home_plmn_id) {
        Some(i) => i,
        None => {
            return Ok(unsubscribed(requested));
        },
    };
    proof {
        assert forall|i: int| first_subscription_of(old(store).subscriptions@, supi@, *home_plmn_id, i) implies i
            == index by {
            lemma_first_subscription_unique(old(store).subscriptions@, supi@, *home_plmn_id, i, index as int);
        }
    }
    let rejected_ra = copy_listed(&slice_info.rejected_nssai_ra);
    response_for_subscriber(
        index,
        &requested,
        &rejected_ra,
        flag_exec(slice_info.default_configured_snssai_ind),
        flag_exec(slice_info.ue_sup_nssrg_ind),
        flag_exec(slice_info.suppress_nssrg_ind),
        false,
        home_plmn_id,
        tai,
        supported_features,
        store,
        now,
        updates,
    )
}

/// The S-NSSAI and PLMN that a PDU session is checked against: the home
/// S-NSSAI in the home PLMN for home-routed roaming with a home S-NSSAI; the
/// requested S-NSSAI in the serving PLMN for local breakout while roaming;
/// else the requested S-NSSAI in the home PLMN.
pub open spec fn pdu_target(
    slice_info: SliceInfoForPDUSession,
    serving_plmn: PlmnId,
    home_plmn: PlmnId,
) -> (Snssai, PlmnId) {
    let is_roaming = !plmn_same(serving_plmn, home_plmn);
    if slice_info.roaming_indication is HomeRoutedRoaming && slice_info.home_snssai is Some {
        (slice_info.home_snssai->0, home_plmn)
    } else if slice_info.roaming_indication is LocalBreakout && is_roaming {
        (slice_info.s_nssai, serving_plmn)
    } else {
        (slice_info.s_nssai, home_plmn)
    }
}

/// The decision on a PDU session's S-NSSAI before admission: rejected in the
/// PLMN when the target S-NSSAI is not subscribed, no slice of the target
/// PLMN offers it, or, in a TAI, a policy forbids it or no NSAG admits the
/// UE; rejected in the TA when the first slice that offers it does not serve
/// the TAI; admitted otherwise.
pub open spec fn pdu_verdict(
    subscription: UeSubscription,
    target_snssai: Snssai,
    target_plmn: PlmnId,
    tai: Option<Tai>,
    now: Timestamp,
    store: NssfStore,
) -> Verdict {
    if !subscribed(target_snssai, subscription) {
        Verdict::RejectInPlmn
    } else {
        match first_offering_slice(store.slices@, target_snssai, target_plmn) {
            None => Verdict::RejectInPlmn,
            Some(slice) => if !slice_in_tai(slice, tai) {
                Verdict::RejectInTa
            } else {
                match tai {
                    None => Verdict::Admit,
                    Some(t) => if !policies_permit(store.policies@, target_snssai, target_plmn, t, now, store.nsis@)
                        || !nsag_admits(store.nsags@, target_snssai, t) {
                        Verdict::RejectInPlmn
                    } else {
                        Verdict::Admit
                    },
                }
            },
        }
    }
}

/// The response that rejects only the requested S-NSSAI, in the PLMN or in the TA.
pub open spec fn pdu_rejection(info: AuthorizedNetworkSliceInfo, requested: Snssai, in_ta: bool) -> bool {
    if in_ta {
        &&& lists(info.rejected_nssai_in_ta, seq![requested])
        &&& is_empty_response(AuthorizedNetworkSliceInfo { rejected_nssai_in_ta: None, ..info })
    } else {
        &&& lists(info.rejected_nssai_in_plmn, seq![requested])
        &&& is_empty_response(AuthorizedNetworkSliceInfo { rejected_nssai_in_plmn: None, ..info })
    }
}

/// The response that allows the requested S-NSSAI for 3GPP access with the
/// NSIs that serve it in the target PLMN, and the home S-NSSAI: the given
/// one for home-routed roaming, the mapped one for local breakout while
/// roaming, none otherwise.
pub open spec fn pdu_allowance(
    info: AuthorizedNetworkSliceInfo,
    slice_info: SliceInfoForPDUSession,
    serving_plmn: PlmnId,
    home_plmn: PlmnId,
    tai: Option<Tai>,
    features: Option<Seq<char>>,
    store: NssfStore,
) -> bool {
    let requested = slice_info.s_nssai;
    let target_plmn = pdu_target(slice_info, serving_plmn, home_plmn).1;
    let is_roaming = !plmn_same(serving_plmn, home_plmn);
    &&& info.allowed_nssai_list matches Some(v)
    &&& v@.len() == 1
    &&& v@[0].access_type == AccessType::ThreeGppAccess
    &&& v@[0].allowed_snssai_list@.len() == 1
    &&& {
        let entry = v@[0].allowed_snssai_list@[0];
        &&& entry.allowed_snssai == requested
        &&& match entry.nsi_information_list {
            Some(l) => l@.len() > 0 && nsi_selection(store.nsis@, requested, target_plmn, tai, l@),
            None => nsi_selection(store.nsis@, requested, target_plmn, tai, Seq::empty()),
        }
        &&& entry.mapped_home_snssai == if slice_info.roaming_indication is HomeRoutedRoaming
            && slice_info.home_snssai is Some {
            slice_info.home_snssai
        } else if slice_info.roaming_indication is LocalBreakout && is_roaming {
            home_mapping(store.snssai_mappings@, requested, serving_plmn, home_plmn, tai)
        } else {
            None
        }
    }
    &&& opt_view(info.supported_features) == negotiated_for(features)
    &&& is_empty_response(AuthorizedNetworkSliceInfo { allowed_nssai_list: None, supported_features: None, ..info })
}

/// The outcome of a PDU session request (see `select_for_pdu_session`).
pub open spec fn pdu_session_outcome(
    r: Result<AuthorizedNetworkSliceInfo, AppError>,
    slice_info: SliceInfoForPDUSession,
    home_plmn: PlmnId,
    supi: Seq<char>,
    tai: Option<Tai>,
    features: Option<Seq<char>>,
    now: Timestamp,
    store0: NssfStore,
    updates0: StoreUpdates,
    store1: NssfStore,
    updates1: StoreUpdates,
) -> bool {
    &&& same_configuration(store1, store0)
    &&& store1.nssrgs == store0.nssrgs
    &&& updates1.nssrg_increments@ == updates0.nssrg_increments@
    &&& !has_subscription(store0.subscriptions@, supi, home_plmn) ==> {
        &&& (r matches Ok(info) && pdu_rejection(info, slice_info.s_nssai, false))
        &&& store1 == store0
        &&& updates1 == updates0
    }
    &&& forall|i: int| #[trigger]
            first_subscription_of(store0.subscriptions@, supi, home_plmn, i) ==> {
                let subscription = store0.subscriptions@[i];
                let serving = subscription.plmn_id;
                let (target_snssai, target_plmn) = pdu_target(slice_info, serving, home_plmn);
                match pdu_verdict(subscription, target_snssai, target_plmn, tai, now, store0) {
                    Verdict::RejectInPlmn => {
                        &&& (r matches Ok(info) && pdu_rejection(info, slice_info.s_nssai, false))
                        &&& store1 == store0
                        &&& updates1 == updates0
                    },
                    Verdict::RejectInTa => {
                        &&& (r matches Ok(info) && pdu_rejection(info, slice_info.s_nssai, true))
                        &&& store1 == store0
                        &&& updates1 == updates0
                    },
                    Verdict::Admit => {
                        let effect = match tai {
                            Some(t) => nsag_admission_effect(store0.nsags@, target_snssai, t),
                            None => Some((store0.nsags@, None)),
                        };
                        match effect {
                            None => {
                                &&& (r matches Err(e) && e is InternalServerError)
                                &&& store1.nsags@ == store0.nsags@
                                &&& updates1.nsag_increments@ == updates0.nsag_increments@
                            },
                            Some((after, counted)) => {
                                &&& (r matches Ok(info) && pdu_allowance(
                                    info,
                                    slice_info,
                                    serving,
                                    home_plmn,
                                    tai,
                                    features,
                                    store0,
                                ))
                                &&& store1.nsags@ == after
                                &&& updates1.nsag_increments@ == push_some(updates0.nsag_increments@, counted)
                            },
                        }
                    },
                }
            }
}

/// The authorized network slice information for a PDU session: the
/// requested S-NSSAI is rejected or allowed (see `pdu_verdict`); allowing it
/// in a TAI admits the UE to an NSAG, which fails when the UE count cannot
/// be raised. Without a subscription of the UE the S-NSSAI is rejected.
pub fn select_for_pdu_session(
    slice_info: &SliceInfoForPDUSession,
    home_plmn_id: &PlmnId,
    supi: &str,
    tai: Option<&Tai>,
    supported_features: Option<&str>,
    store: &mut NssfStore,
    now: &Timestamp,
    updates: &mut StoreUpdates,
) -> (r: Result<AuthorizedNetworkSliceInfo, AppError>)
    ensures
        pdu_session_outcome(
            r,
            *slice_info,
            *home_plmn_id,
            supi@,
            tai_option(tai),
            str_option_view(supported_features),
            *now,
            *old(store),
            *old(updates),
            *final(store),
            *final(updates),
        ),
{
    let requested_snssai = &slice_info.s_nssai;
    let index = match find_subscription(&store.subscriptions, supi, home_plmn_id) {
        Some(i) => i,
        None => {
            return Ok(pdu_rejected(requested_snssai, false));
        },
    };
    proof {
        assert forall|i: int| first_subscription_of(old(store).subscriptions@, supi@, *home_plmn_id, i) implies i
            == index by {
            lemma_first_subscription_unique(old(store).subscriptions@, supi@, *home_plmn_id, i, index as int);
        }
    }
    let ghost store0 = *store;
    let serving_plmn_id = store.subscriptions[index].plmn_id.copy();
    let is_roaming = !plmn_eq(&serving_plmn_id, home_plmn_id);
    let home_routed = match (&slice_info.roaming_indication, &slice_info.home_snssai) {
        (RoamingIndication::HomeRoutedRoaming, Some(_)) => true,
        _ => false,
    };
    let local_breakout = match slice_info.roaming_indication {
        RoamingIndication::LocalBreakout => is_roaming,
        _ => false,
    };
    let (target_snssai, target_plmn_id) = if home_routed {
        (slice_info.home_snssai.as_ref().unwrap(), home_plmn_id)
    } else if local_breakout {
        (requested_snssai, &serving_plmn_id)
    } else {
        (requested_snssai, home_plmn_id)
    };
    assert((*target_snssai, *target_plmn_id) == pdu_target(*slice_info, serving_plmn_id, *home_plmn_id));
    if !check_subscription(target_snssai, &store.subscriptions[index]) {
        return Ok(pdu_rejected(requested_snssai, false));
    }
    let slice_index = find_offering_slice(&store.slices, target_snssai, target_plmn_id);
    let k = match slice_index {
        Some(k) => k,
        None => {
            return Ok(pdu_rejected(requested_snssai, false));
        },
    };
    if !is_slice_available_in_tai(&store.slices[k], tai) {
        return Ok(pdu_rejected(requested_snssai, true));
    }
    if let Some(t) = tai {
        if !evaluate_policy_at(target_snssai, target_plmn_id, t, store, now) {
            return Ok(pdu_rejected(requested_snssai, false));
        }
        if !check_nsag_admission(target_snssai, t, &store.nsags) {
            return Ok(pdu_rejected(requested_snssai, false));
        }
        let admitted = admit_to_nsag(target_snssai, t, &mut store.nsags, updates);
        if admitted.is_err() {
            return Err(admitted.unwrap_err());
        }
    }
    let nsi_information_list = select_nsi_for_snssai(requested_snssai, target_plmn_id, tai, store);
    let mapped_home_snssai = if home_routed {
        match &slice_info.home_snssai {
            Some(h) => Some(h.copy()),
            None => None,
        }
    } else if local_breakout {
        map_home_snssai(requested_snssai, &serving_plmn_id, home_plmn_id, tai, store)
    } else {
        None
    };
    let allowed_snssai = AllowedSnssai {
        allowed_snssai: requested_snssai.copy(),
        nsi_information_list: opt_vec(nsi_information_list),
        mapped_home_snssai,
    };
    let mut allowed_snssai_list: Vec<AllowedSnssai> = Vec::new();
    allowed_snssai_list.push(allowed_snssai);
    let mut allowed_nssai_list: Vec<AllowedNssai> = Vec::new();
    allowed_nssai_list.push(AllowedNssai { allowed_snssai_list, access_type: AccessType::ThreeGppAccess });
    let mut result = empty_response();
    result.allowed_nssai_list = Some(allowed_nssai_list);
    result.supported_features = negotiate_features(supported_features);
    Ok(result)
}

fn pdu_rejected(requested: &Snssai, in_ta: bool) -> (r: AuthorizedNetworkSliceInfo)
    ensures
        pdu_rejection(r, *requested, in_ta),
{
    let mut info = empty_response();
    let mut list: Vec<Snssai> = Vec::new();
    list.push(requested.copy());
    assert(list@ =~= seq![*requested]);
    if in_ta {
        info.rejected_nssai_in_ta = Some(list);
    } else {
        info.rejected_nssai_in_plmn = Some(list);
    }
    info
}

/// The configured NSSAI lists subscribed S-NSSAIs that a slice offers in the
/// target PLMN (and the TAI, if any). Without the default indication it lists
/// every such subscribed S-NSSAI; with it, exactly the ones the subscription
/// marks as default.
pub proof fn law_configured_nssai_follows_the_subscription(
    entries: Seq<ConfiguredSnssai>,
    subscription: UeSubscription,
    default_only: bool,
    target_plmn: PlmnId,
    serving_plmn: PlmnId,
    home_plmn: PlmnId,
    is_roaming: bool,
    tai: Option<Tai>,
    store: NssfStore,
)
    requires
        configured_entries(entries, subscription, default_only, target_plmn, serving_plmn, home_plmn, is_roaming, tai, store),
    ensures
        forall|p: int| 0 <= p < entries.len() ==> {
            &&& offered_in(store.slices@, (#[trigger] entries[p]).configured_snssai, target_plmn, tai)
            &&& exists|i: int|
                0 <= i < subscription.subscribed_snssais@.len()
                    && (#[trigger] subscription.subscribed_snssais@[i]).subscribed_snssai == entries[p].configured_snssai
                    && (default_only ==> subscription.subscribed_snssais@[i].default_indication == Some(true))
        },
        forall|i: int|
            0 <= i < subscription.subscribed_snssais@.len() && offered_in(
                store.slices@,
                (#[trigger] subscription.subscribed_snssais@[i]).subscribed_snssai,
                target_plmn,
                tai,
            ) && (default_only ==> subscription.subscribed_snssais@[i].default_indication == Some(true))
                ==> exists|p: int|
                0 <= p < entries.len() && (#[trigger] entries[p]).configured_snssai
                    == subscription.subscribed_snssais@[i].subscribed_snssai,
{
    broadcast use vstd::seq_lib::group_filter_ensures;
    let subs = subscription.subscribed_snssais@;
    let keep = |s: SubscribedSnssai| s.default_indication == Some(true);
    let pick = |s: SubscribedSnssai| s.subscribed_snssai;
    let offered = |s: Snssai| offered_in(store.slices@, s, target_plmn, tai);
    let cands = configured_candidates(subscription, default_only);
    let shown = cands.filter(offered);
    assert forall|p: int| 0 <= p < entries.len() implies {
        &&& offered_in(store.slices@, (#[trigger] entries[p]).configured_snssai, target_plmn, tai)
        &&& exists|i: int|
            0 <= i < subs.len() && (#[trigger] subs[i]).subscribed_snssai == entries[p].configured_snssai
                && (default_only ==> subs[i].default_indication == Some(true))
    } by {
        assert(entries[p].configured_snssai == shown[p]);
        assert(offered(shown[p]));
        assert(shown.contains(shown[p]));
        cands.lemma_filter_contains_rev(offered, shown[p]);
        let k = choose|k: int| 0 <= k < cands.len() && cands[k] == shown[p];
        if default_only {
            let filt = subs.filter(keep);
            assert(cands == filt.map_values(pick));
            assert(cands[k] == filt[k].subscribed_snssai);
            assert(keep(filt[k]));
            assert(filt.contains(filt[k]));
            subs.lemma_filter_contains_rev(keep, filt[k]);
            let i = choose|i: int| 0 <= i < subs.len() && subs[i] == filt[k];
            assert(subs[i].subscribed_snssai == entries[p].configured_snssai);
        } else {
            assert(cands[k] == subs[k].subscribed_snssai);
        }
    }
    assert forall|i: int|
        0 <= i < subs.len() && offered_in(
            store.slices@,
            (#[trigger] subs[i]).subscribed_snssai,
            target_plmn,
            tai,
        ) && (default_only ==> subs[i].default_indication == Some(true)) implies exists|p: int|
        0 <= p < entries.len() && (#[trigger] entries[p]).configured_snssai == subs[i].subscribed_snssai by {
        let x = subs[i].subscribed_snssai;
        let k = if default_only {
            let filt = subs.filter(keep);
            assert(keep(subs[i]));
            subs.lemma_filter_contains(keep, i);
            choose|k0: int| 0 <= k0 < filt.len() && filt[k0] == subs[i]
        } else {
            i
        };
        if default_only {
            let filt = subs.filter(keep);
            assert(cands == filt.map_values(pick));
        }
        assert(cands[k] == x);
        assert(offered(cands[k]));
        cands.lemma_filter_contains(offered, k);
        let q = choose|q: int| 0 <= q < shown.len() && shown[q] == x;
        assert(entries[q].configured_snssai == x);
    }
}

/// A PDU session in a TAI where NSAGs cover the target S-NSSAI but none of
/// them admits the UE (every one that applies is full) is never allowed: the
/// requested S-NSSAI is rejected (in the TA only when the target S-NSSAI is
/// subscribed and the slice that offers it does not serve the TAI, in the
/// PLMN otherwise) and nothing is written.
pub proof fn law_pdu_session_needs_nsag_admission(
    r: Result<AuthorizedNetworkSliceInfo, AppError>,
    slice_info: SliceInfoForPDUSession,
    home_plmn: PlmnId,
    supi: Seq<char>,
    t: Tai,
    features: Option<Seq<char>>,
    now: Timestamp,
    store0: NssfStore,
    updates0: StoreUpdates,
    store1: NssfStore,
    updates1: StoreUpdates,
    i: int,
)
    requires
        pdu_session_outcome(r, slice_info, home_plmn, supi, Some(t), features, now, store0, updates0, store1, updates1),
        first_subscription_of(store0.subscriptions@, supi, home_plmn, i),
        !nsag_admits(
            store0.nsags@,
            pdu_target(slice_info, store0.subscriptions@[i].plmn_id, home_plmn).0,
            t,
        ),
    ensures
        r is Ok,
        r->Ok_0.allowed_nssai_list is None,
        store1 == store0,
        updates1 == updates0,
        ({
            let (target, target_plmn) = pdu_target(slice_info, store0.subscriptions@[i].plmn_id, home_plmn);
            if subscribed(target, store0.subscriptions@[i]) && (first_offering_slice(
                store0.slices@,
                target,
                target_plmn,
            ) matches Some(sl) && !slice_in_tai(sl, Some(t))) {
                r->Ok_0.rejected_nssai_in_ta matches Some(v) && v@ == seq![slice_info.s_nssai]
            } else {
                r->Ok_0.rejected_nssai_in_plmn matches Some(v) && v@ == seq![slice_info.s_nssai]
            }
        }),
{
}

/// The entries of a configured NSSAI, none when it is absent.
pub open spec fn configured_list(info: AuthorizedNetworkSliceInfo) -> Seq<ConfiguredSnssai> {
    match info.configured_nssai {
        Some(v) => v@,
        None => Seq::empty(),
    }
}

/// A registration of a subscribed UE that is answered lists in its
/// configured NSSAI exactly the subscribed S-NSSAIs that a slice of the home
/// PLMN offers (in the TAI, if any): all of them without the default
/// configured indication, the ones marked default with it.
pub proof fn law_registration_configured_nssai(
    info: AuthorizedNetworkSliceInfo,
    slice_info: SliceInfoForRegistration,
    home_plmn: PlmnId,
    supi: Seq<char>,
    tai: Option<Tai>,
    features: Option<Seq<char>>,
    now: Timestamp,
    store0: NssfStore,
    updates0: StoreUpdates,
    store1: NssfStore,
    updates1: StoreUpdates,
    i: int,
)
    requires
        registration_outcome(
            Ok(info),
            slice_info,
            home_plmn,
            supi,
            tai,
            features,
            now,
            store0,
            updates0,
            store1,
            updates1,
        ),
        first_subscription_of(store0.subscriptions@, supi, home_plmn, i),
    ensures
        ({
            let subs = store0.subscriptions@[i].subscribed_snssais@;
            let default_only = flag(slice_info.default_configured_snssai_ind);
            let entries = configured_list(info);
            &&& forall|p: int| 0 <= p < entries.len() ==> {
                &&& offered_in(store0.slices@, (#[trigger] entries[p]).configured_snssai, home_plmn, tai)
                &&& exists|k: int|
                    0 <= k < subs.len() && (#[trigger] subs[k]).subscribed_snssai == entries[p].configured_snssai
                        && (default_only ==> subs[k].default_indication == Some(true))
            }
            &&& forall|k: int|
                0 <= k < subs.len() && offered_in(store0.slices@, (#[trigger] subs[k]).subscribed_snssai, home_plmn, tai)
                    && (default_only ==> subs[k].default_indication == Some(true)) ==> exists|p: int|
                    0 <= p < entries.len() && (#[trigger] entries[p]).configured_snssai == subs[k].subscribed_snssai
        }),
{
    let subscription = store0.subscriptions@[i];
    let serving = subscription.plmn_id;
    let is_roaming = !plmn_same(serving, home_plmn);
    let default_only = flag(slice_info.default_configured_snssai_ind);
    assert(configured_entries(
        configured_list(info),
        subscription,
        default_only,
        home_plmn,
        serving,
        home_plmn,
        is_roaming,
        tai,
        store0,
    ));
    law_configured_nssai_follows_the_subscription(
        configured_list(info),
        subscription,
        default_only,
        home_plmn,
        serving,
        home_plmn,
        is_roaming,
        tai,
        store0,
    );
}

} // verus!
