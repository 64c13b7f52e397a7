//! The examination of the candidate S-NSSAIs of a registration or UE
//! configuration update: each is rejected in the PLMN, rejected in the
//! tracking area, or allowed, in turn; allowing one in a tracking area
//! admits the UE to an NSAG and, where the UE supports NSSRGs, assigns it to
//! one, which changes what later candidates see.
use vstd::prelude::*;
use crate::errors::AppError;
use crate::services::allowed_nssai::{
    check_subscription, evaluate_policy_at, plmn_eq, policies_permit, slice_offers, subscribed,
    tai_list_admits, tai_list_admits_tai,
};
use crate::services::nsag_admission::{
    admit_to_nsag, check_nsag_admission, nsag_admission_effect, nsag_admits,
};
use crate::services::nssrg_processing::{assign_nssrg, nssrg_assignment_effect};
use crate::services::store::{NssfStore, StoreUpdates};
use crate::types::common::{PlmnId, Snssai, Tai, Timestamp};
use crate::types::db::{NsagConfiguration, NssrgConfiguration, SliceConfiguration, UeSubscription};
use crate::validation::{snssai_eq, snssai_same};

verus! {

/// What stays fixed while the candidates are examined.
pub struct SelectionContext {
    pub subscription: UeSubscription,
    pub target_plmn: PlmnId,
    pub tai: Option<Tai>,
    pub now: Timestamp,
    /// The UE requested S-NSSAIs.
    pub requested: bool,
    /// S-NSSAIs rejected for the registration area.
    pub rejected_ra: Seq<Snssai>,
    /// NSSRGs are to be assigned (the UE supports them and they are not suppressed).
    pub nssrg_wanted: bool,
}

/// What the examination has done so far.
pub struct SelectionState {
    pub nsags: Seq<NsagConfiguration>,
    pub nssrgs: Seq<NssrgConfiguration>,
    pub nsag_counted: Seq<u32>,
    pub nssrg_counted: Seq<Seq<char>>,
    pub allowed: Seq<Snssai>,
    pub rejected_in_plmn: Seq<Snssai>,
    pub rejected_in_ta: Seq<Snssai>,
    /// A UE count could not be raised; the examination stopped there.
    pub failed: bool,
}

/// The decision on one S-NSSAI before any admission.
pub enum Verdict {
    RejectInPlmn,
    RejectInTa,
    Admit,
}

/// Some S-NSSAI of the list denotes the same slice.
pub open spec fn listed(list: Seq<Snssai>, snssai: Snssai) -> bool {
    exists|i: int| 0 <= i < list.len() && snssai_same(#[trigger] list[i], snssai)
}

/// The first slice record that offers the S-NSSAI in the PLMN.
pub open spec fn first_offering_slice(slices: Seq<SliceConfiguration>, snssai: Snssai, plmn: PlmnId) -> Option<SliceConfiguration>
    decreases slices.len(),
{
    if slices.len() == 0 {
        None
    } else if slice_offers(slices[0], snssai, plmn) {
        Some(slices[0])
    } else {
        first_offering_slice(slices.drop_first(), snssai, plmn)
    }
}

/// Some slice of the PLMN offers the S-NSSAI, and the first that does serves the TAI.
pub open spec fn offered_in(slices: Seq<SliceConfiguration>, snssai: Snssai, plmn: PlmnId, tai: Option<Tai>) -> bool {
    match first_offering_slice(slices, snssai, plmn) {
        Some(slice) => slice_in_tai(slice, tai),
        None => false,
    }
}

/// The slice may serve in the TAI; without a TAI every slice may.
pub open spec fn slice_in_tai(slice: SliceConfiguration, tai: Option<Tai>) -> bool {
    match tai {
        None => true,
        Some(t) => tai_list_admits(slice.tai_list, t),
    }
}

/// The decision on an S-NSSAI before admission: rejected in the PLMN when it
/// was rejected for the registration area, when S-NSSAIs were requested and
/// it is not subscribed, when no slice of the target PLMN offers it, or, in a
/// TAI, when a policy forbids it; rejected in the TA when the first slice
/// that offers it does not serve the TAI; to be admitted otherwise.
pub open spec fn verdict(ctx: SelectionContext, store: NssfStore, snssai: Snssai) -> Verdict {
    if listed(ctx.rejected_ra, snssai) {
        Verdict::RejectInPlmn
    } else if !subscribed(snssai, ctx.subscription) && ctx.requested {
        Verdict::RejectInPlmn
    } else {
        match first_offering_slice(store.slices@, snssai, ctx.target_plmn) {
            None => Verdict::RejectInPlmn,
            Some(slice) => if !slice_in_tai(slice, ctx.tai) {
                Verdict::RejectInTa
            } else {
                match ctx.tai {
                    None => Verdict::Admit,
                    Some(t) => if !policies_permit(
                        store.policies@,
                        snssai,
                        ctx.target_plmn,
                        t,
                        ctx.now,
                        store.nsis@,
                    ) {
                        Verdict::RejectInPlmn
                    } else {
                        Verdict::Admit
                    },
                }
            },
        }
    }
}

pub open spec fn push_some<T>(s: Seq<T>, o: Option<T>) -> Seq<T> {
    match o {
        Some(x) => s.push(x),
        None => s,
    }
}

/// The outcome of admitting an S-NSSAI.
pub enum Admission {
    Rejected,
    Failed,
    Admitted,
}

/// Admitting an S-NSSAI: without a TAI it is admitted as it stands. In a
/// TAI it is rejected when no NSAG admits the UE; otherwise the UE is
/// admitted to an NSAG and, where wanted, assigned to an NSSRG, and raising
/// either UE count may fail. The state is that of the groups and counts
/// afterwards.
pub open spec fn admission_result(
    st: SelectionState,
    snssai: Snssai,
    tai: Option<Tai>,
    nssrg_wanted: bool,
) -> (Admission, SelectionState) {
    match tai {
        None => (Admission::Admitted, st),
        Some(t) => if !nsag_admits(st.nsags, snssai, t) {
            (Admission::Rejected, st)
        } else {
            match nsag_admission_effect(st.nsags, snssai, t) {
                None => (Admission::Failed, st),
                Some((nsags, counted)) => {
                    let st2 = SelectionState { nsags, nsag_counted: push_some(st.nsag_counted, counted), ..st };
                    if !nssrg_wanted {
                        (Admission::Admitted, st2)
                    } else {
                        match nssrg_assignment_effect(st2.nssrgs, snssai, t) {
                            None => (Admission::Failed, st2),
                            Some((nssrgs, assigned)) => (
                                Admission::Admitted,
                                SelectionState {
                                    nssrgs,
                                    nssrg_counted: push_some(st2.nssrg_counted, assigned),
                                    ..st2
                                },
                            ),
                        }
                    }
                },
            }
        },
    }
}

/// Examining one S-NSSAI.
pub open spec fn selection_step(ctx: SelectionContext, store: NssfStore, st: SelectionState, snssai: Snssai) -> SelectionState {
    if st.failed {
        st
    } else {
        match verdict(ctx, store, snssai) {
            Verdict::RejectInPlmn => SelectionState { rejected_in_plmn: st.rejected_in_plmn.push(snssai), ..st },
            Verdict::RejectInTa => SelectionState { rejected_in_ta: st.rejected_in_ta.push(snssai), ..st },
            Verdict::Admit => {
                let (outcome, after) = admission_result(st, snssai, ctx.tai, ctx.nssrg_wanted);
                match outcome {
                    Admission::Rejected => SelectionState {
                        rejected_in_plmn: after.rejected_in_plmn.push(snssai),
                        ..after
                    },
                    Admission::Failed => SelectionState { failed: true, ..after },
                    Admission::Admitted => SelectionState { allowed: after.allowed.push(snssai), ..after },
                }
            },
        }
    }
}

/// Examining the candidates in order.
pub open spec fn selection_fold(ctx: SelectionContext, store: NssfStore, init: SelectionState, candidates: Seq<Snssai>) -> SelectionState
    decreases candidates.len(),
{
    if candidates.len() == 0 {
        init
    } else {
        selection_step(ctx, store, selection_fold(ctx, store, init, candidates.drop_last()), candidates.last())
    }
}

pub open spec fn string_views(s: Seq<String>) -> Seq<Seq<char>> {
    s.map_values(|x: String| x@)
}

/// The state before any candidate: the store's groups and the writes made so far.
pub open spec fn initial_state(store: NssfStore, updates: StoreUpdates) -> SelectionState {
    SelectionState {
        nsags: store.nsags@,
        nssrgs: store.nssrgs@,
        nsag_counted: updates.nsag_increments@,
        nssrg_counted: string_views(updates.nssrg_increments@),
        allowed: Seq::empty(),
        rejected_in_plmn: Seq::empty(),
        rejected_in_ta: Seq::empty(),
        failed: false,
    }
}

/// Once the examination has stopped, later candidates change nothing.
proof fn lemma_fold_after_failure(ctx: SelectionContext, store: NssfStore, init: SelectionState, candidates: Seq<Snssai>, i: int)
    requires
        0 <= i <= candidates.len(),
        selection_fold(ctx, store, init, candidates.take(i)).failed,
    ensures
        selection_fold(ctx, store, init, candidates) == selection_fold(ctx, store, init, candidates.take(i)),
    decreases candidates.len() - i,
{
    if i == candidates.len() {
        assert(candidates.take(i) =~= candidates);
    } else {
        assert(candidates.take(i + 1).drop_last() =~= candidates.take(i));
        lemma_fold_after_failure(ctx, store, init, candidates, i + 1);
    }
}

fn listed_exec(list: &Vec<Snssai>, snssai: &Snssai) -> (r: bool)
    ensures
        r == listed(list@, *snssai),
{
    let mut i: usize = 0;
    while i < list.len()
        invariant
            i <= list@.len(),
            forall|j: int| 0 <= j < i ==> !snssai_same(#[trigger] list@[j], *snssai),
        decreases list.len() - i,
    {
        if snssai_eq(&list[i], snssai) {
            return true;
        }
        i = i + 1;
    }
    false
}

/// The position of the first slice record that offers the S-NSSAI in the PLMN.
pub fn find_offering_slice(slices: &Vec<SliceConfiguration>, snssai: &Snssai, plmn: &PlmnId) -> (r: Option<usize>)
    ensures
        r is None <==> first_offering_slice(slices@, *snssai, *plmn) is None,
        r matches Some(i) ==> i < slices@.len() && first_offering_slice(slices@, *snssai, *plmn) == Some(
            slices@[i as int],
        ),
{
    let mut i: usize = 0;
    assert(slices@.skip(0) =~= slices@);
    while i < slices.len()
        invariant
            i <= slices@.len(),
            first_offering_slice(slices@, *snssai, *plmn) == first_offering_slice(
                slices@.skip(i as int),
                *snssai,
                *plmn,
            ),
        decreases slices.len() - i,
    {
        assert(slices@.skip(i as int).drop_first() =~= slices@.skip(i + 1));
        assert(slices@.skip(i as int)[0] == slices@[i as int]);
        if snssai_eq(&slices[i].snssai, snssai) && plmn_eq(&slices[i].plmn_id, plmn) {
            return Some(i);
        }
        i = i + 1;
    }
    None
}

pub open spec fn tai_option(tai: Option<&Tai>) -> Option<Tai> {
    match tai {
        Some(t) => Some(*t),
        None => None,
    }
}

/// The decision on one S-NSSAI, as `verdict` states it.
fn decide(
    snssai: &Snssai,
    subscription: &UeSubscription,
    target_plmn: &PlmnId,
    tai: Option<&Tai>,
    now: &Timestamp,
    requested: bool,
    rejected_ra: &Vec<Snssai>,
    store: &NssfStore,
    ctx: Ghost<SelectionContext>,
) -> (r: Verdict)
    requires
        ctx@.subscription == *subscription,
        ctx@.target_plmn == *target_plmn,
        ctx@.tai == tai_option(tai),
        ctx@.now == *now,
        ctx@.requested == requested,
        ctx@.rejected_ra == rejected_ra@,
    ensures
        r == verdict(ctx@, *store, *snssai),
{
    if listed_exec(rejected_ra, snssai) {
        return Verdict::RejectInPlmn;
    }
    if !check_subscription(snssai, subscription) && requested {
        return Verdict::RejectInPlmn;
    }
    let slice_index = find_offering_slice(&store.slices, snssai, target_plmn);
    match slice_index {
        None => Verdict::RejectInPlmn,
        Some(k) => {
            let slice = &store.slices[k];
            match tai {
                None => Verdict::Admit,
                Some(t) => {
                    if !tai_list_admits_tai(&slice.tai_list, t) {
                        return Verdict::RejectInTa;
                    }
                    if !evaluate_policy_at(snssai, target_plmn, t, store, now) {
                        Verdict::RejectInPlmn
                    } else {
                        Verdict::Admit
                    }
                },
            }
        },
    }
}

/// The groups and UE counts as they stand, with nothing examined yet.
pub open spec fn groups_state(
    nsags: Seq<NsagConfiguration>,
    nssrgs: Seq<NssrgConfiguration>,
    updates: StoreUpdates,
) -> SelectionState {
    SelectionState {
        nsags,
        nssrgs,
        nsag_counted: updates.nsag_increments@,
        nssrg_counted: string_views(updates.nssrg_increments@),
        allowed: Seq::empty(),
        rejected_in_plmn: Seq::empty(),
        rejected_in_ta: Seq::empty(),
        failed: false,
    }
}

/// Admits the UE for the S-NSSAI (see `admission_result`): `None` when it is
/// rejected, `Some(true)` when admitted.
pub fn process_admission_and_nssrg(
    snssai: &Snssai,
    tai: Option<&Tai>,
    ue_sup_nssrg_ind: bool,
    suppress_nssrg_ind: bool,
    nsags: &mut Vec<NsagConfiguration>,
    nssrgs: &mut Vec<NssrgConfiguration>,
    updates: &mut StoreUpdates,
) -> (r: Result<Option<bool>, AppError>)
    ensures
        ({
            let (outcome, after) = admission_result(
                groups_state(old(nsags)@, old(nssrgs)@, *old(updates)),
                *snssai,
                tai_option(tai),
                ue_sup_nssrg_ind && !suppress_nssrg_ind,
            );
            &&& (r is Err <==> outcome is Failed)
            &&& (r matches Err(e) ==> e is InternalServerError)
            &&& (r matches Ok(o) ==> (o is None <==> outcome is Rejected) && (o matches Some(b) ==> b))
            &&& final(nsags)@ == after.nsags
            &&& final(nssrgs)@ == after.nssrgs
            &&& final(updates).nsag_increments@ == after.nsag_counted
            &&& string_views(final(updates).nssrg_increments@) == after.nssrg_counted
        }),
{
    let t = match tai {
        Some(t) => t,
        None => {
            return Ok(Some(true));
        },
    };
    if !check_nsag_admission(snssai, t, nsags) {
        return Ok(None);
    }
    let admitted = admit_to_nsag(snssai, t, nsags, updates);
    if admitted.is_err() {
        return Err(admitted.unwrap_err());
    }
    if ue_sup_nssrg_ind && !suppress_nssrg_ind {
        let ghost before = updates.nssrg_increments@;
        let assigned = assign_nssrg(snssai, t, nssrgs, updates);
        if assigned.is_err() {
            return Err(assigned.unwrap_err());
        }
        proof {
            let after = updates.nssrg_increments@;
            if after.len() == before.len() + 1 {
                assert(after =~= before.push(after.last())) by {
                    assert(after.drop_last() == before);
                }
                assert(string_views(after) =~= string_views(before).push(after.last()@));
            } else {
                assert(after == before);
            }
        }
    }
    Ok(Some(true))
}

/// Examines the candidate S-NSSAIs in order (see `selection_step`); returns
/// the allowed ones, those rejected in the PLMN and those rejected in the TA.
/// A UE count that cannot be raised ends the examination with an error; the
/// store and the writes then stand as they were at that point.
pub fn examine_candidates(
    candidates: &Vec<Snssai>,
    subscription_index: usize,
    target_plmn: &PlmnId,
    tai: Option<&Tai>,
    now: &Timestamp,
    requested: bool,
    rejected_ra: &Vec<Snssai>,
    nssrg_wanted: bool,
    store: &mut NssfStore,
    updates: &mut StoreUpdates,
) -> (r: Result<(Vec<Snssai>, Vec<Snssai>, Vec<Snssai>), AppError>)
    requires
        subscription_index < old(store).subscriptions@.len(),
    ensures
        ({
            let ctx = SelectionContext {
                subscription: old(store).subscriptions@[subscription_index as int],
                target_plmn: *target_plmn,
                tai: tai_option(tai),
                now: *now,
                requested,
                rejected_ra: rejected_ra@,
                nssrg_wanted,
            };
            let fin = selection_fold(ctx, *old(store), initial_state(*old(store), *old(updates)), candidates@);
            &&& (r is Err <==> fin.failed)
            &&& final(store).nsags@ == fin.nsags
            &&& final(store).nssrgs@ == fin.nssrgs
            &&& final(updates).nsag_increments@ == fin.nsag_counted
            &&& string_views(final(updates).nssrg_increments@) == fin.nssrg_counted
            &&& (r matches Ok((allowed, in_plmn, in_ta)) ==> {
                &&& allowed@ == fin.allowed
                &&& in_plmn@ == fin.rejected_in_plmn
                &&& in_ta@ == fin.rejected_in_ta
            })
            &&& (r matches Err(e) ==> e is InternalServerError)
        }),
        final(store).slices == old(store).slices,
        final(store).nsis == old(store).nsis,
        final(store).policies == old(store).policies,
        final(store).snssai_mappings == old(store).snssai_mappings,
        final(store).amf_sets == old(store).amf_sets,
        final(store).amf_service_sets == old(store).amf_service_sets,
        final(store).amf_instances == old(store).amf_instances,
        final(store).subscriptions == old(store).subscriptions,
{
    let ghost ctx = SelectionContext {
        subscription: store.subscriptions@[subscription_index as int],
        target_plmn: *target_plmn,
        tai: tai_option(tai),
        now: *now,
        requested,
        rejected_ra: rejected_ra@,
        nssrg_wanted,
    };
    let ghost store0 = *store;
    let ghost init = initial_state(*store, *updates);
    let mut allowed: Vec<Snssai> = Vec::new();
    let mut in_plmn: Vec<Snssai> = Vec::new();
    let mut in_ta: Vec<Snssai> = Vec::new();
    let mut i: usize = 0;
    assert(candidates@.take(0) =~= Seq::<Snssai>::empty());
    while i < candidates.len()
        invariant
            i <= candidates@.len(),
            subscription_index < store.subscriptions@.len(),
            store0 == *old(store),
            ctx.subscription == store.subscriptions@[subscription_index as int],
            ctx.target_plmn == *target_plmn,
            ctx.tai == tai_option(tai),
            ctx.now == *now,
            ctx.requested == requested,
            ctx.rejected_ra == rejected_ra@,
            ctx.nssrg_wanted == nssrg_wanted,
            init == initial_state(*old(store), *old(updates)),
            store.slices == store0.slices,
            store.nsis == store0.nsis,
            store.policies == store0.policies,
            store.snssai_mappings == store0.snssai_mappings,
            store.amf_sets == store0.amf_sets,
            store.amf_service_sets == store0.amf_service_sets,
            store.amf_instances == store0.amf_instances,
            store.subscriptions == store0.subscriptions,
            ({
                let st = selection_fold(ctx, store0, init, candidates@.take(i as int));
                &&& !st.failed
                &&& store.nsags@ == st.nsags
                &&& store.nssrgs@ == st.nssrgs
                &&& updates.nsag_increments@ == st.nsag_counted
                &&& string_views(updates.nssrg_increments@) == st.nssrg_counted
                &&& allowed@ == st.allowed
                &&& in_plmn@ == st.rejected_in_plmn
                &&& in_ta@ == st.rejected_in_ta
            }),
        decreases candidates.len() - i,
    {
        let snssai = &candidates[i];
        let ghost st = selection_fold(ctx, store0, init, candidates@.take(i as int));
        assert(candidates@.take(i + 1).drop_last() =~= candidates@.take(i as int));
        assert(candidates@.take(i + 1).last() == *snssai);
        let v = decide(
            snssai,
            &store.subscriptions[subscription_index],
            target_plmn,
            tai,
            now,
            requested,
            rejected_ra,
            store,
            Ghost(ctx),
        );
        match v {
            Verdict::RejectInPlmn => {
                in_plmn.push(snssai.copy());
            },
            Verdict::RejectInTa => {
                in_ta.push(snssai.copy());
            },
            Verdict::Admit => {
                let ghost groups = groups_state(store.nsags@, store.nssrgs@, *updates);
                assert(admission_result(st, *snssai, ctx.tai, nssrg_wanted).1.nsags
                    == admission_result(groups, *snssai, ctx.tai, nssrg_wanted).1.nsags);
                let outcome = process_admission_and_nssrg(
                    snssai,
                    tai,
                    nssrg_wanted,
                    false,
                    &mut store.nsags,
                    &mut store.nssrgs,
                    updates,
                );
                match outcome {
                    Err(e) => {
                        proof {
                            lemma_fold_after_failure(ctx, store0, init, candidates@, i + 1);
                        }
                        return Err(e);
                    },
                    Ok(None) => {
                        in_plmn.push(snssai.copy());
                    },
                    Ok(Some(_)) => {
                        allowed.push(snssai.copy());
                    },
                }
            },
        }
        i = i + 1;
    }
    assert(candidates@.take(i as int) =~= candidates@);
    Ok((allowed, in_plmn, in_ta))
}

/// Admission changes only the groups and the counts, never the lists.
proof fn lemma_admission_keeps_lists(st: SelectionState, snssai: Snssai, tai: Option<Tai>, nssrg_wanted: bool)
    ensures
        ({
            let after = admission_result(st, snssai, tai, nssrg_wanted).1;
            &&& after.allowed == st.allowed
            &&& after.rejected_in_plmn == st.rejected_in_plmn
            &&& after.rejected_in_ta == st.rejected_in_ta
            &&& after.failed == st.failed
        }),
{
}

/// What the examination of the candidates does to the three lists: each
/// candidate lands in exactly one of them unless the examination stopped,
/// and a candidate is allowed only if its verdict admits it, rejected in the
/// TA only if its verdict says so.
proof fn lemma_fold_routes(ctx: SelectionContext, store: NssfStore, init: SelectionState, candidates: Seq<Snssai>)
    ensures
        ({
            let fin = selection_fold(ctx, store, init, candidates);
            &&& !fin.failed ==> fin.allowed.len() + fin.rejected_in_plmn.len() + fin.rejected_in_ta.len()
                == init.allowed.len() + init.rejected_in_plmn.len() + init.rejected_in_ta.len()
                + candidates.len()
            &&& fin.failed ==> fin.allowed.len() + fin.rejected_in_plmn.len() + fin.rejected_in_ta.len()
                <= init.allowed.len() + init.rejected_in_plmn.len() + init.rejected_in_ta.len()
                + candidates.len()
            &&& init.failed ==> fin.failed
            &&& forall|s: Snssai| #[trigger]
                fin.allowed.contains(s) ==> init.allowed.contains(s) || (candidates.contains(s)
                    && verdict(ctx, store, s) is Admit)
            &&& forall|s: Snssai| #[trigger]
                fin.rejected_in_ta.contains(s) ==> init.rejected_in_ta.contains(s) || (candidates.contains(s)
                    && verdict(ctx, store, s) is RejectInTa)
            &&& forall|s: Snssai| #[trigger]
                fin.rejected_in_plmn.contains(s) ==> init.rejected_in_plmn.contains(s) || candidates.contains(s)
        }),
    decreases candidates.len(),
{
    if candidates.len() > 0 {
        let rest = candidates.drop_last();
        let x = candidates.last();
        lemma_fold_routes(ctx, store, init, rest);
        let prev = selection_fold(ctx, store, init, rest);
        let fin = selection_fold(ctx, store, init, candidates);
        assert(fin == selection_step(ctx, store, prev, x));
        lemma_admission_keeps_lists(prev, x, ctx.tai, ctx.nssrg_wanted);
        assert forall|s: Snssai| rest.contains(s) implies #[trigger] candidates.contains(s) by {
            let k = choose|k: int| 0 <= k < rest.len() && rest[k] == s;
            assert(candidates[k] == s);
        }
        assert(candidates.contains(x)) by {
            assert(candidates[candidates.len() - 1] == x);
        }
        assert forall|s: Snssai| #[trigger] fin.allowed.contains(s) implies init.allowed.contains(s) || (
        candidates.contains(s) && verdict(ctx, store, s) is Admit) by {
            if !prev.allowed.contains(s) {
                let k = choose|k: int| 0 <= k < fin.allowed.len() && fin.allowed[k] == s;
                assert(k == fin.allowed.len() - 1);
            }
        }
        assert forall|s: Snssai| #[trigger] fin.rejected_in_ta.contains(s) implies init.rejected_in_ta.contains(s)
            || (candidates.contains(s) && verdict(ctx, store, s) is RejectInTa) by {
            if !prev.rejected_in_ta.contains(s) {
                let k = choose|k: int| 0 <= k < fin.rejected_in_ta.len() && fin.rejected_in_ta[k] == s;
                assert(k == fin.rejected_in_ta.len() - 1);
            }
        }
        assert forall|s: Snssai| #[trigger] fin.rejected_in_plmn.contains(s) implies init.rejected_in_plmn.contains(s)
            || candidates.contains(s) by {
            if !prev.rejected_in_plmn.contains(s) {
                let k = choose|k: int| 0 <= k < fin.rejected_in_plmn.len() && fin.rejected_in_plmn[k] == s;
                assert(k == fin.rejected_in_plmn.len() - 1);
            }
        }
    }
}

/// Every candidate S-NSSAI of a selection is allowed, rejected in the PLMN or
/// rejected in the tracking area, and only one of these, unless a UE count
/// could not be raised; what the lists hold are candidates; an allowed one
/// passed every check before admission, one rejected in the TA failed only
/// the TA check.
pub proof fn law_selection_partitions_candidates(
    ctx: SelectionContext,
    store: NssfStore,
    updates: StoreUpdates,
    candidates: Seq<Snssai>,
)
    ensures
        ({
            let fin = selection_fold(ctx, store, initial_state(store, updates), candidates);
            &&& !fin.failed ==> fin.allowed.len() + fin.rejected_in_plmn.len() + fin.rejected_in_ta.len()
                == candidates.len()
            &&& forall|s: Snssai| #[trigger]
                fin.allowed.contains(s) ==> candidates.contains(s) && verdict(ctx, store, s) is Admit
            &&& forall|s: Snssai| #[trigger]
                fin.rejected_in_ta.contains(s) ==> candidates.contains(s) && verdict(ctx, store, s) is RejectInTa
            &&& forall|s: Snssai| #[trigger] fin.rejected_in_plmn.contains(s) ==> candidates.contains(s)
        }),
{
    lemma_fold_routes(ctx, store, initial_state(store, updates), candidates);
}

/// An S-NSSAI whose verdict admits it was not rejected for the registration
/// area, is subscribed where S-NSSAIs were requested, is offered in the
/// target PLMN by a slice that serves the TAI, and, in a TAI, is permitted by
/// every policy that applies.
pub proof fn law_admitted_snssai_passes_checks(ctx: SelectionContext, store: NssfStore, snssai: Snssai)
    requires
        verdict(ctx, store, snssai) is Admit,
    ensures
        !listed(ctx.rejected_ra, snssai),
        ctx.requested ==> subscribed(snssai, ctx.subscription),
        offered_in(store.slices@, snssai, ctx.target_plmn, ctx.tai),
        ctx.tai matches Some(t) ==> policies_permit(store.policies@, snssai, ctx.target_plmn, t, ctx.now, store.nsis@),
{
}

} // verus!
