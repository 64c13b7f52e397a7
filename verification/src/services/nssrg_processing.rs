//! Assignment of a UE to a Network Slice-Specific Registration Group
//! (NSSRG): the groups that cover an S-NSSAI in a TAI, their capacity and
//! load, and the choice of group.
use vstd::prelude::*;
use crate::errors::AppError;
use crate::services::allowed_nssai::{tai_list_admits, tai_list_admits_tai};
use crate::services::nsag_admission::{count_overflows, count_plus_one};
use crate::services::store::{NssfStore, StoreUpdates};
use crate::types::common::{Snssai, Tai};
use crate::types::db::NssrgConfiguration;
use crate::validation::{snssai_eq, snssai_same};

verus! {

pub open spec fn nssrg_covers_snssai(nssrg: NssrgConfiguration, snssai: Snssai) -> bool {
    exists|i: int|
        0 <= i < nssrg.snssai_list@.len() && snssai_same(#[trigger] nssrg.snssai_list@[i], snssai)
}

pub open spec fn nssrg_covers_tai(nssrg: NssrgConfiguration, tai: Tai) -> bool {
    tai_list_admits(nssrg.tai_list, tai)
}

/// A group has room unless both its maximum and its current UE count are
/// known and the count has reached the maximum.
pub open spec fn nssrg_has_room(nssrg: NssrgConfiguration) -> bool {
    match (nssrg.max_ue_count, nssrg.current_ue_count) {
        (Some(max), Some(current)) => current < max,
        _ => true,
    }
}

/// An enabled group that covers the S-NSSAI in the TAI and has room.
pub open spec fn nssrg_eligible(nssrg: NssrgConfiguration, snssai: Snssai, tai: Tai) -> bool {
    &&& nssrg.enabled
    &&& nssrg_covers_snssai(nssrg, snssai)
    &&& nssrg_covers_tai(nssrg, tai)
    &&& nssrg_has_room(nssrg)
}

/// Groups are ranked by priority, lowest value first; a group without a priority comes last.
pub open spec fn nssrg_rank(nssrg: NssrgConfiguration) -> int {
    match nssrg.priority {
        Some(p) => p as int,
        None => 0xffff_ffff,
    }
}

/// The load of a group as the fraction current / max: (numerator,
/// denominator). A group without both counts, or with a maximum of zero,
/// counts as unloaded.
pub open spec fn nssrg_load(nssrg: NssrgConfiguration) -> (int, int) {
    match (nssrg.current_ue_count, nssrg.max_ue_count) {
        (Some(current), Some(max)) => if max > 0 {
            (current as int, max as int)
        } else {
            (0, 1)
        },
        _ => (0, 1),
    }
}

/// Group `a` is less loaded than group `b`.
pub open spec fn less_loaded(a: NssrgConfiguration, b: NssrgConfiguration) -> bool {
    nssrg_load(a).0 * nssrg_load(b).1 < nssrg_load(b).0 * nssrg_load(a).1
}

/// Group `a` precedes group `b`: better priority, or equal priority and less load.
pub open spec fn nssrg_precedes(a: NssrgConfiguration, b: NssrgConfiguration) -> bool {
    nssrg_rank(a) < nssrg_rank(b) || (nssrg_rank(a) == nssrg_rank(b) && less_loaded(a, b))
}

/// Group `i` is the one a UE is assigned to: eligible, preceded by no
/// eligible group, and preceding every eligible group listed before it.
pub open spec fn nssrg_choice(nssrgs: Seq<NssrgConfiguration>, snssai: Snssai, tai: Tai, i: int) -> bool {
    &&& 0 <= i < nssrgs.len()
    &&& nssrg_eligible(nssrgs[i], snssai, tai)
    &&& forall|j: int|
        0 <= j < nssrgs.len() && nssrg_eligible(#[trigger] nssrgs[j], snssai, tai) ==> !nssrg_precedes(
            nssrgs[j],
            nssrgs[i],
        ) && (j < i ==> nssrg_precedes(nssrgs[i], nssrgs[j]))
}

pub open spec fn some_nssrg_eligible(nssrgs: Seq<NssrgConfiguration>, snssai: Snssai, tai: Tai) -> bool {
    exists|i: int| 0 <= i < nssrgs.len() && nssrg_eligible(#[trigger] nssrgs[i], snssai, tai)
}

/// The first record with the identifier.
pub open spec fn first_nssrg_with_id(nssrgs: Seq<NssrgConfiguration>, id: Seq<char>, k: int) -> bool {
    &&& 0 <= k < nssrgs.len()
    &&& nssrgs[k].nssrg_id@ == id
    &&& forall|j: int| 0 <= j < k ==> (#[trigger] nssrgs[j]).nssrg_id@ != id
}

/// The records after the `k`-th has gained a UE.
pub open spec fn nssrgs_after_increment(nssrgs: Seq<NssrgConfiguration>, k: int) -> Seq<NssrgConfiguration> {
    nssrgs.update(
        k,
        NssrgConfiguration { current_ue_count: count_plus_one(nssrgs[k].current_ue_count), ..nssrgs[k] },
    )
}

proof fn lemma_load_denominator_positive(a: NssrgConfiguration)
    ensures
        nssrg_load(a).1 > 0,
        nssrg_load(a).0 >= 0,
{
}

proof fn lemma_less_loaded_transitive(a: NssrgConfiguration, b: NssrgConfiguration, c: NssrgConfiguration)
    requires
        less_loaded(a, b),
        less_loaded(b, c),
    ensures
        less_loaded(a, c),
{
    lemma_load_denominator_positive(a);
    lemma_load_denominator_positive(b);
    lemma_load_denominator_positive(c);
    let (an, ad) = nssrg_load(a);
    let (bn, bd) = nssrg_load(b);
    let (cn, cd) = nssrg_load(c);
    assert(an * cd < cn * ad) by (nonlinear_arith)
        requires
            ad > 0,
            bd > 0,
            cd > 0,
            an * bd < bn * ad,
            bn * cd < cn * bd,
    ;
}

proof fn lemma_less_loaded_negative_transitive(
    a: NssrgConfiguration,
    b: NssrgConfiguration,
    c: NssrgConfiguration,
)
    requires
        less_loaded(a, b),
        !less_loaded(c, b),
    ensures
        less_loaded(a, c),
{
    lemma_load_denominator_positive(a);
    lemma_load_denominator_positive(b);
    lemma_load_denominator_positive(c);
    let (an, ad) = nssrg_load(a);
    let (bn, bd) = nssrg_load(b);
    let (cn, cd) = nssrg_load(c);
    assert(an * cd < cn * ad) by (nonlinear_arith)
        requires
            ad > 0,
            bd > 0,
            cd > 0,
            an * bd < bn * ad,
            !(cn * bd < bn * cd),
    ;
}

proof fn lemma_precedes_transitive(a: NssrgConfiguration, b: NssrgConfiguration, c: NssrgConfiguration)
    requires
        nssrg_precedes(a, b),
        nssrg_precedes(b, c),
    ensures
        nssrg_precedes(a, c),
{
    if nssrg_rank(a) == nssrg_rank(b) && nssrg_rank(b) == nssrg_rank(c) {
        lemma_less_loaded_transitive(a, b, c);
    }
}

proof fn lemma_precedes_negative_transitive(
    a: NssrgConfiguration,
    b: NssrgConfiguration,
    c: NssrgConfiguration,
)
    requires
        nssrg_precedes(a, b),
        !nssrg_precedes(c, b),
    ensures
        nssrg_precedes(a, c),
{
    if nssrg_rank(a) == nssrg_rank(b) && nssrg_rank(c) == nssrg_rank(b) {
        lemma_less_loaded_negative_transitive(a, b, c);
    }
}

pub fn nssrg_matches_snssai(nssrg: &NssrgConfiguration, snssai: &Snssai) -> (r: bool)
    ensures
        r == nssrg_covers_snssai(*nssrg, *snssai),
{
    let list = &nssrg.snssai_list;
    let mut i: usize = 0;
    while i < list.len()
        invariant
            list == &nssrg.snssai_list,
            i <= list@.len(),
            forall|j: int| 0 <= j < i ==> !snssai_same(#[trigger] list@[j], *snssai),
        decreases list.len() - i,
    {
        if snssai_eq(&list[i], snssai) {
            return true;
        }
        i = i + 1;
    }
    false
}

pub fn nssrg_matches_tai(nssrg: &NssrgConfiguration, tai: &Tai) -> (r: bool)
    ensures
        r == nssrg_covers_tai(*nssrg, *tai),
{
    tai_list_admits_tai(&nssrg.tai_list, tai)
}

pub fn nssrg_has_capacity(nssrg: &NssrgConfiguration) -> (r: bool)
    ensures
        r == nssrg_has_room(*nssrg),
{
    match (nssrg.max_ue_count, nssrg.current_ue_count) {
        (Some(max), Some(current)) => current < max,
        _ => true,
    }
}

fn nssrg_load_fraction(nssrg: &NssrgConfiguration) -> (r: (u64, u64))
    ensures
        r.0 as int == nssrg_load(*nssrg).0,
        r.1 as int == nssrg_load(*nssrg).1,
{
    match (nssrg.current_ue_count, nssrg.max_ue_count) {
        (Some(current), Some(max)) => if max > 0 {
            (current, max)
        } else {
            (0, 1)
        },
        _ => (0, 1),
    }
}

fn precedes(a: &NssrgConfiguration, b: &NssrgConfiguration) -> (r: bool)
    ensures
        r == nssrg_precedes(*a, *b),
{
    let rank_a: u64 = match a.priority {
        Some(p) => p as u64,
        None => 0xffff_ffff,
    };
    let rank_b: u64 = match b.priority {
        Some(p) => p as u64,
        None => 0xffff_ffff,
    };
    if rank_a != rank_b {
        return rank_a < rank_b;
    }
    let (an, ad) = nssrg_load_fraction(a);
    let (bn, bd) = nssrg_load_fraction(b);
    let (an, ad, bn, bd) = (an as u128, ad as u128, bn as u128, bd as u128);
    assert(an * bd <= 0xffff_ffff_ffff_ffff * 0xffff_ffff_ffff_ffff && bn * ad
        <= 0xffff_ffff_ffff_ffff * 0xffff_ffff_ffff_ffff) by (nonlinear_arith)
        requires
            an <= 0xffff_ffff_ffff_ffff,
            ad <= 0xffff_ffff_ffff_ffff,
            bn <= 0xffff_ffff_ffff_ffff,
            bd <= 0xffff_ffff_ffff_ffff,
    ;
    an * bd < bn * ad
}

/// The group that a UE is assigned to, if some group is eligible.
fn choose_nssrg(snssai: &Snssai, tai: &Tai, nssrgs: &Vec<NssrgConfiguration>) -> (r: Option<usize>)
    ensures
        r is None <==> !some_nssrg_eligible(nssrgs@, *snssai, *tai),
        r matches Some(i) ==> nssrg_choice(nssrgs@, *snssai, *tai, i as int),
{
    let mut best: Option<usize> = None;
    let mut i: usize = 0;
    while i < nssrgs.len()
        invariant
            i <= nssrgs@.len(),
            best is None ==> forall|j: int|
                0 <= j < i ==> !nssrg_eligible(#[trigger] nssrgs@[j], *snssai, *tai),
            best matches Some(b) ==> {
                &&& b < i
                &&& nssrg_eligible(nssrgs@[b as int], *snssai, *tai)
                &&& forall|j: int|
                    0 <= j < i && nssrg_eligible(#[trigger] nssrgs@[j], *snssai, *tai) ==> !nssrg_precedes(
                        nssrgs@[j],
                        nssrgs@[b as int],
                    ) && (j < b ==> nssrg_precedes(nssrgs@[b as int], nssrgs@[j]))
            },
        decreases nssrgs.len() - i,
    {
        let n = &nssrgs[i];
        if n.enabled && nssrg_matches_snssai(n, snssai) && nssrg_matches_tai(n, tai)
            && nssrg_has_capacity(n) {
            match best {
                None => {
                    best = Some(i);
                },
                Some(b) => {
                    if precedes(n, &nssrgs[b]) {
                        proof {
                            assert forall|j: int|
                                0 <= j < i + 1 && nssrg_eligible(
                                    #[trigger] nssrgs@[j],
                                    *snssai,
                                    *tai,
                                ) implies !nssrg_precedes(nssrgs@[j], nssrgs@[i as int]) && (j
                                < i ==> nssrg_precedes(nssrgs@[i as int], nssrgs@[j])) by {
                                if j < i {
                                    if nssrg_precedes(nssrgs@[j], nssrgs@[i as int]) {
                                        lemma_precedes_transitive(
                                            nssrgs@[j],
                                            nssrgs@[i as int],
                                            nssrgs@[b as int],
                                        );
                                    }
                                    if j != b {
                                        lemma_precedes_negative_transitive(
                                            nssrgs@[i as int],
                                            nssrgs@[b as int],
                                            nssrgs@[j],
                                        );
                                    }
                                } else {
                                    if nssrg_precedes(nssrgs@[j], nssrgs@[j]) {
                                        lemma_load_denominator_positive(nssrgs@[j]);
                                    }
                                }
                            }
                        }
                        best = Some(i);
                    }
                },
            }
        }
        i = i + 1;
    }
    proof {
        if best is None {
            assert(!some_nssrg_eligible(nssrgs@, *snssai, *tai));
        }
    }
    best
}

/// At most one group is the choice.
proof fn lemma_nssrg_choice_unique(
    nssrgs: Seq<NssrgConfiguration>,
    snssai: Snssai,
    tai: Tai,
    i: int,
    k: int,
)
    requires
        nssrg_choice(nssrgs, snssai, tai, i),
        nssrg_choice(nssrgs, snssai, tai, k),
    ensures
        i == k,
{
    assert(nssrg_eligible(nssrgs[i], snssai, tai));
    assert(nssrg_eligible(nssrgs[k], snssai, tai));
}

pub proof fn lemma_first_nssrg_exists(nssrgs: Seq<NssrgConfiguration>, id: Seq<char>, i: int)
    requires
        0 <= i < nssrgs.len(),
        nssrgs[i].nssrg_id@ == id,
    ensures
        exists|k: int| first_nssrg_with_id(nssrgs, id, k),
    decreases i,
{
    if exists|j: int| 0 <= j < i && (#[trigger] nssrgs[j]).nssrg_id@ == id {
        let j = choose|j: int| 0 <= j < i && (#[trigger] nssrgs[j]).nssrg_id@ == id;
        lemma_first_nssrg_exists(nssrgs, id, j);
    } else {
        assert(first_nssrg_with_id(nssrgs, id, i));
    }
}

/// What assigning a UE for the S-NSSAI in the TAI does to the groups
/// `nssrgs`: nothing when no group is eligible; otherwise the UE count of the
/// first record with the chosen group's identifier is raised, which fails
/// (`None`) when that count is already the largest the store holds. On
/// success: the groups afterwards and the identifier of the group assigned, if any.
pub open spec fn nssrg_assignment_effect(
    nssrgs: Seq<NssrgConfiguration>,
    snssai: Snssai,
    tai: Tai,
) -> Option<(Seq<NssrgConfiguration>, Option<Seq<char>>)> {
    if !some_nssrg_eligible(nssrgs, snssai, tai) {
        Some((nssrgs, None))
    } else {
        let i = choose|i: int| nssrg_choice(nssrgs, snssai, tai, i);
        let id = nssrgs[i].nssrg_id@;
        let k = choose|k: int| first_nssrg_with_id(nssrgs, id, k);
        if count_overflows(nssrgs[k].current_ue_count) {
            None
        } else {
            Some((nssrgs_after_increment(nssrgs, k), Some(id)))
        }
    }
}

/// Raises by one the UE count of the first group with the identifier.
fn increment_nssrg_count(nssrg_id: &str, nssrgs: &mut Vec<NssrgConfiguration>) -> (r: Result<(), AppError>)
    ensures
        forall|k: int| #[trigger]
            first_nssrg_with_id(old(nssrgs)@, nssrg_id@, k) ==> (r is Err <==> count_overflows(
                old(nssrgs)@[k].current_ue_count,
            )),
        forall|k: int| #[trigger]
            first_nssrg_with_id(old(nssrgs)@, nssrg_id@, k) ==> (r is Ok ==> final(nssrgs)@
                == nssrgs_after_increment(old(nssrgs)@, k)),
        r is Err ==> final(nssrgs)@ == old(nssrgs)@,
        (forall|k: int|
            0 <= k < old(nssrgs)@.len() ==> (#[trigger] old(nssrgs)@[k]).nssrg_id@ != nssrg_id@)
            ==> r is Ok && final(nssrgs)@ == old(nssrgs)@,
        r matches Err(e) ==> e is InternalServerError,
{
    let mut k: usize = 0;
    while k < nssrgs.len()
        invariant
            *nssrgs == *old(nssrgs),
            k <= nssrgs@.len(),
            forall|j: int| 0 <= j < k ==> (#[trigger] nssrgs@[j]).nssrg_id@ != nssrg_id@,
        decreases nssrgs.len() - k,
    {
        if crate::text::str_eq(nssrgs[k].nssrg_id.as_str(), nssrg_id) {
            let current = nssrgs[k].current_ue_count;
            let next = match current {
                Some(c) => {
                    if c >= 0x7fff_ffff_ffff_ffff {
                        let mut msg = "Failed to increment NSSRG UE count for nssrg_id ".to_owned();
                        msg.append(nssrg_id);
                        msg.append(": count overflow");
                        return Err(AppError::InternalServerError(msg));
                    }
                    c + 1
                },
                None => 1,
            };
            let ghost before = nssrgs@;
            let mut item = nssrgs.remove(k);
            item.current_ue_count = Some(next);
            nssrgs.insert(k, item);
            assert(nssrgs@ =~= nssrgs_after_increment(before, k as int));
            return Ok(());
        }
        k = k + 1;
    }
    Ok(())
}

/// Assigns the UE to the best eligible group and counts it there; none when
/// no group applies or every group that applies is full.
pub fn assign_nssrg(
    snssai: &Snssai,
    tai: &Tai,
    nssrgs: &mut Vec<NssrgConfiguration>,
    updates: &mut StoreUpdates,
) -> (r: Result<Option<String>, AppError>)
    ensures
        match nssrg_assignment_effect(old(nssrgs)@, *snssai, *tai) {
            None => {
                &&& r matches Err(e) && e is InternalServerError
                &&& final(nssrgs)@ == old(nssrgs)@
                &&& final(updates).nssrg_increments@ == old(updates).nssrg_increments@
            },
            Some((after, assigned)) => {
                &&& r is Ok
                &&& final(nssrgs)@ == after
                &&& match assigned {
                    Some(id) => {
                        &&& (r->Ok_0 matches Some(s) && s@ == id)
                        &&& final(updates).nssrg_increments@.len()
                            == old(updates).nssrg_increments@.len() + 1
                        &&& final(updates).nssrg_increments@.drop_last()
                            == old(updates).nssrg_increments@
                        &&& final(updates).nssrg_increments@.last()@ == id
                    },
                    None => {
                        &&& r->Ok_0 is None
                        &&& final(updates).nssrg_increments@ == old(updates).nssrg_increments@
                    },
                }
            },
        },
        final(updates).nsag_increments@ == old(updates).nsag_increments@,
{
    let chosen = choose_nssrg(snssai, tai, nssrgs);
    match chosen {
        None => Ok(None),
        Some(i) => {
            let id = nssrgs[i].nssrg_id.clone();
            let ghost start = nssrgs@;
            proof {
                lemma_first_nssrg_exists(start, id@, i as int);
                let i2 = choose|i2: int| nssrg_choice(start, *snssai, *tai, i2);
                lemma_nssrg_choice_unique(start, *snssai, *tai, i2, i as int);
                let k = choose|k: int| first_nssrg_with_id(start, id@, k);
                assert(first_nssrg_with_id(start, id@, k));
            }
            let id_str = id.as_str();
            let outcome = increment_nssrg_count(id_str, nssrgs);
            if outcome.is_err() {
                return Err(outcome.unwrap_err());
            }
            let ghost before = updates.nssrg_increments@;
            updates.nssrg_increments.push(id.clone());
            assert(updates.nssrg_increments@.drop_last() =~= before);
            Ok(Some(id))
        },
    }
}

/// A group's UE count is within its maximum, where both are known; a group
/// with a maximum but no count yet has room for one UE.
pub open spec fn nssrg_within_capacity(g: NssrgConfiguration) -> bool {
    match (g.max_ue_count, g.current_ue_count) {
        (Some(max), Some(current)) => current <= max,
        (Some(max), None) => max > 0,
        _ => true,
    }
}

/// No two groups share an identifier (the store keeps the identifier unique).
pub open spec fn unique_nssrg_ids(gs: Seq<NssrgConfiguration>) -> bool {
    forall|i: int, j: int| 0 <= i < gs.len() && 0 <= j < gs.len() && i != j ==> (#[trigger] gs[i]).nssrg_id@ != (#[trigger] gs[j]).nssrg_id@
}

/// Group `b` is the choice among the first `n` groups.
spec fn nssrg_best_in_prefix(gs: Seq<NssrgConfiguration>, snssai: Snssai, tai: Tai, n: int, b: int) -> bool {
    &&& 0 <= b < n
    &&& nssrg_eligible(gs[b], snssai, tai)
    &&& forall|j: int|
        0 <= j < n && nssrg_eligible(#[trigger] gs[j], snssai, tai) ==> !nssrg_precedes(gs[j], gs[b]) && (j
            < b ==> nssrg_precedes(gs[b], gs[j]))
}

proof fn lemma_nssrg_best_in_prefix(gs: Seq<NssrgConfiguration>, snssai: Snssai, tai: Tai, n: int)
    requires
        0 <= n <= gs.len(),
        exists|w: int| 0 <= w < n && nssrg_eligible(#[trigger] gs[w], snssai, tai),
    ensures
        exists|b: int| nssrg_best_in_prefix(gs, snssai, tai, n, b),
    decreases n,
{
    let last = n - 1;
    if exists|w: int| 0 <= w < last && nssrg_eligible(#[trigger] gs[w], snssai, tai) {
        lemma_nssrg_best_in_prefix(gs, snssai, tai, last);
        let b = choose|b: int| nssrg_best_in_prefix(gs, snssai, tai, last, b);
        if nssrg_eligible(gs[last], snssai, tai) && nssrg_precedes(gs[last], gs[b]) {
            assert forall|j: int|
                0 <= j < n && nssrg_eligible(#[trigger] gs[j], snssai, tai) implies !nssrg_precedes(
                gs[j],
                gs[last],
            ) && (j < last ==> nssrg_precedes(gs[last], gs[j])) by {
                if j < last {
                    if nssrg_precedes(gs[j], gs[last]) {
                        lemma_precedes_transitive(gs[j], gs[last], gs[b]);
                    }
                    if j != b {
                        lemma_precedes_negative_transitive(gs[last], gs[b], gs[j]);
                    }
                } else {
                    lemma_load_denominator_positive(gs[j]);
                }
            }
            assert(nssrg_best_in_prefix(gs, snssai, tai, n, last));
        } else {
            assert(nssrg_best_in_prefix(gs, snssai, tai, n, b));
        }
    } else {
        assert forall|j: int|
            0 <= j < n && nssrg_eligible(#[trigger] gs[j], snssai, tai) implies !nssrg_precedes(
            gs[j],
            gs[last],
        ) && (j < last ==> nssrg_precedes(gs[last], gs[j])) by {
            lemma_load_denominator_positive(gs[j]);
        }
        assert(nssrg_best_in_prefix(gs, snssai, tai, n, last));
    }
}

/// Where some group is eligible, some group is the choice.
proof fn lemma_nssrg_choice_exists(gs: Seq<NssrgConfiguration>, snssai: Snssai, tai: Tai)
    requires
        some_nssrg_eligible(gs, snssai, tai),
    ensures
        exists|i: int| nssrg_choice(gs, snssai, tai, i),
{
    lemma_nssrg_best_in_prefix(gs, snssai, tai, gs.len() as int);
    let b = choose|b: int| nssrg_best_in_prefix(gs, snssai, tai, gs.len() as int, b);
    assert(nssrg_choice(gs, snssai, tai, b));
}

/// Counting a UE never takes a group past its capacity: when identifiers
/// are unique and every group is within its capacity, so is every group
/// afterwards.
pub proof fn law_nssrg_count_stays_within_capacity(gs: Seq<NssrgConfiguration>, snssai: Snssai, tai: Tai)
    requires
        unique_nssrg_ids(gs),
        forall|k: int| 0 <= k < gs.len() ==> nssrg_within_capacity(#[trigger] gs[k]),
    ensures
        nssrg_assignment_effect(gs, snssai, tai) matches Some((after, _)) ==> after.len() == gs.len() && forall|k: int|
            0 <= k < after.len() ==> nssrg_within_capacity(#[trigger] after[k]),
{
    if some_nssrg_eligible(gs, snssai, tai) {
        let i = choose|i: int| nssrg_choice(gs, snssai, tai, i);
        let id = gs[i].nssrg_id@;
        let k = choose|k: int| first_nssrg_with_id(gs, id, k);
        if exists|i2: int| nssrg_choice(gs, snssai, tai, i2) {
            assert(nssrg_choice(gs, snssai, tai, i));
            lemma_first_nssrg_exists(gs, id, i);
            assert(first_nssrg_with_id(gs, id, k));
            if k != i {
                assert(gs[k].nssrg_id@ == gs[i].nssrg_id@);
            }
            assert(k == i);
        } else {
            lemma_nssrg_choice_exists(gs, snssai, tai);
        }
    }
}

} // verus!
