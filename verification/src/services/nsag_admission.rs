//! Admission of a UE to a Network Slice Admission Group (NSAG): the groups
//! that cover an S-NSSAI in a TAI, their capacity, and the choice of group.
use vstd::prelude::*;
use crate::errors::AppError;
use crate::services::allowed_nssai::{tai_list_admits, tai_list_admits_tai};
use crate::services::store::{max_stored_count, StoreUpdates};
use crate::types::common::{Snssai, Tai};
use crate::types::db::NsagConfiguration;
use crate::validation::{snssai_eq, snssai_same};

verus! {

pub open spec fn nsag_covers_snssai(nsag: NsagConfiguration, snssai: Snssai) -> bool {
    exists|i: int|
        0 <= i < nsag.snssai_list@.len() && snssai_same(#[trigger] nsag.snssai_list@[i], snssai)
}

pub open spec fn nsag_covers_tai(nsag: NsagConfiguration, tai: Tai) -> bool {
    tai_list_admits(nsag.tai_list, tai)
}

/// A group has room unless both its maximum and its current UE count are
/// known and the count has reached the maximum.
pub open spec fn nsag_has_room(nsag: NsagConfiguration) -> bool {
    match (nsag.max_ue_count, nsag.current_ue_count) {
        (Some(max), Some(current)) => current < max,
        _ => true,
    }
}

/// An enabled group that covers the S-NSSAI in the TAI.
pub open spec fn nsag_applies(nsag: NsagConfiguration, snssai: Snssai, tai: Tai) -> bool {
    nsag.enabled && nsag_covers_snssai(nsag, snssai) && nsag_covers_tai(nsag, tai)
}

pub open spec fn no_nsag_applies(nsags: Seq<NsagConfiguration>, snssai: Snssai, tai: Tai) -> bool {
    forall|i: int| 0 <= i < nsags.len() ==> !nsag_applies(#[trigger] nsags[i], snssai, tai)
}

/// A group that applies and has room.
pub open spec fn nsag_eligible(nsag: NsagConfiguration, snssai: Snssai, tai: Tai) -> bool {
    nsag_applies(nsag, snssai, tai) && nsag_has_room(nsag)
}

/// The UE is admitted when no group applies, or some group that applies has room.
pub open spec fn nsag_admits(nsags: Seq<NsagConfiguration>, snssai: Snssai, tai: Tai) -> bool {
    no_nsag_applies(nsags, snssai, tai) || exists|i: int|
        0 <= i < nsags.len() && nsag_eligible(#[trigger] nsags[i], snssai, tai)
}

/// Groups are tried by priority, lowest value first; a group without a priority comes last.
pub open spec fn nsag_rank(nsag: NsagConfiguration) -> int {
    match nsag.priority {
        Some(p) => p as int,
        None => 0xffff_ffff,
    }
}

/// Group `i` is the one a UE is admitted to: eligible, of the best rank, and
/// the first of that rank.
pub open spec fn nsag_choice(nsags: Seq<NsagConfiguration>, snssai: Snssai, tai: Tai, i: int) -> bool {
    &&& 0 <= i < nsags.len()
    &&& nsag_eligible(nsags[i], snssai, tai)
    &&& forall|j: int|
        0 <= j < nsags.len() && nsag_eligible(#[trigger] nsags[j], snssai, tai) ==> nsag_rank(
            nsags[i],
        ) < nsag_rank(nsags[j]) || (nsag_rank(nsags[i]) == nsag_rank(nsags[j]) && i <= j)
}

pub open spec fn some_nsag_eligible(nsags: Seq<NsagConfiguration>, snssai: Snssai, tai: Tai) -> bool {
    exists|i: int| 0 <= i < nsags.len() && nsag_eligible(#[trigger] nsags[i], snssai, tai)
}

/// The UE count after one more UE: an unknown count becomes one.
pub open spec fn count_plus_one(current: Option<u64>) -> Option<u64> {
    match current {
        Some(c) => Some((c + 1) as u64),
        None => Some(1u64),
    }
}

/// Raising the count fails when it is already the largest the store holds.
pub open spec fn count_overflows(current: Option<u64>) -> bool {
    match current {
        Some(c) => c >= max_stored_count(),
        None => false,
    }
}

/// The first record with the identifier.
pub open spec fn first_nsag_with_id(nsags: Seq<NsagConfiguration>, id: u32, k: int) -> bool {
    &&& 0 <= k < nsags.len()
    &&& nsags[k].nsag_id == id
    &&& forall|j: int| 0 <= j < k ==> (#[trigger] nsags[j]).nsag_id != id
}

/// The records after the first with the identifier has gained a UE.
pub open spec fn nsags_after_increment(
    nsags: Seq<NsagConfiguration>,
    id: u32,
    k: int,
) -> Seq<NsagConfiguration> {
    nsags.update(k, NsagConfiguration { current_ue_count: count_plus_one(nsags[k].current_ue_count), ..nsags[k] })
}

pub fn nsag_matches_snssai(nsag: &NsagConfiguration, snssai: &Snssai) -> (r: bool)
    ensures
        r == nsag_covers_snssai(*nsag, *snssai),
{
    let list = &nsag.snssai_list;
    let mut i: usize = 0;
    while i < list.len()
        invariant
            list == &nsag.snssai_list,
            i <= list@.len(),
            forall|j: int| 0 <= j < i ==> !snssai_same(#[trigger] list@[j], *snssai),
        decreases list.len() - i,
    {
        if snssai_eq(&list[i], snssai) {
            return true;
        }
        i = i + 1;
    }
    false
}

pub fn nsag_matches_tai(nsag: &NsagConfiguration, tai: &Tai) -> (r: bool)
    ensures
        r == nsag_covers_tai(*nsag, *tai),
{
    tai_list_admits_tai(&nsag.tai_list, tai)
}

pub fn nsag_has_capacity(nsag: &NsagConfiguration) -> (r: bool)
    ensures
        r == nsag_has_room(*nsag),
{
    match (nsag.max_ue_count, nsag.current_ue_count) {
        (Some(max), Some(current)) => current < max,
        _ => true,
    }
}

fn nsag_applies_exec(nsag: &NsagConfiguration, snssai: &Snssai, tai: &Tai) -> (r: bool)
    ensures
        r == nsag_applies(*nsag, *snssai, *tai),
{
    nsag.enabled && nsag_matches_snssai(nsag, snssai) && nsag_matches_tai(nsag, tai)
}

/// Whether the UE may be admitted for the S-NSSAI in the TAI.
pub fn check_nsag_admission(snssai: &Snssai, tai: &Tai, nsags: &Vec<NsagConfiguration>) -> (r: bool)
    ensures
        r == nsag_admits(nsags@, *snssai, *tai),
{
    let mut any_applies = false;
    let mut i: usize = 0;
    while i < nsags.len()
        invariant
            i <= nsags@.len(),
            any_applies == exists|j: int|
                0 <= j < i && nsag_applies(#[trigger] nsags@[j], *snssai, *tai),
            forall|j: int| 0 <= j < i ==> !nsag_eligible(#[trigger] nsags@[j], *snssai, *tai),
        decreases nsags.len() - i,
    {
        if nsag_applies_exec(&nsags[i], snssai, tai) {
            any_applies = true;
            if nsag_has_capacity(&nsags[i]) {
                return true;
            }
        }
        i = i + 1;
    }
    !any_applies
}

/// The group that a UE is admitted to, if some group is eligible.
fn choose_nsag(snssai: &Snssai, tai: &Tai, nsags: &Vec<NsagConfiguration>) -> (r: Option<usize>)
    ensures
        r is None <==> !some_nsag_eligible(nsags@, *snssai, *tai),
        r matches Some(i) ==> nsag_choice(nsags@, *snssai, *tai, i as int),
{
    let mut best: Option<usize> = None;
    let mut i: usize = 0;
    while i < nsags.len()
        invariant
            i <= nsags@.len(),
            best is None ==> forall|j: int|
                0 <= j < i ==> !nsag_eligible(#[trigger] nsags@[j], *snssai, *tai),
            best matches Some(b) ==> {
                &&& b < i
                &&& nsag_eligible(nsags@[b as int], *snssai, *tai)
                &&& forall|j: int|
                    0 <= j < i && nsag_eligible(#[trigger] nsags@[j], *snssai, *tai) ==> nsag_rank(
                        nsags@[b as int],
                    ) < nsag_rank(nsags@[j]) || (nsag_rank(nsags@[b as int]) == nsag_rank(nsags@[j])
                        && b <= j)
            },
        decreases nsags.len() - i,
    {
        if nsag_applies_exec(&nsags[i], snssai, tai) && nsag_has_capacity(&nsags[i]) {
            let better = match best {
                None => true,
                Some(b) => {
                    let rank_i: u64 = match nsags[i].priority {
                        Some(p) => p as u64,
                        None => 0xffff_ffff,
                    };
                    let rank_b: u64 = match nsags[b].priority {
                        Some(p) => p as u64,
                        None => 0xffff_ffff,
                    };
                    rank_i < rank_b
                },
            };
            if better {
                best = Some(i);
            }
        }
        i = i + 1;
    }
    proof {
        if best is None {
            assert(!some_nsag_eligible(nsags@, *snssai, *tai));
        }
    }
    best
}

pub proof fn lemma_first_nsag_exists(nsags: Seq<NsagConfiguration>, id: u32, i: int)
    requires
        0 <= i < nsags.len(),
        nsags[i].nsag_id == id,
    ensures
        exists|k: int| first_nsag_with_id(nsags, id, k),
    decreases i,
{
    if exists|j: int| 0 <= j < i && (#[trigger] nsags[j]).nsag_id == id {
        let j = choose|j: int| 0 <= j < i && (#[trigger] nsags[j]).nsag_id == id;
        lemma_first_nsag_exists(nsags, id, j);
    } else {
        assert(first_nsag_with_id(nsags, id, i));
    }
}

/// At most one group is the choice.
proof fn lemma_nsag_choice_unique(nsags: Seq<NsagConfiguration>, snssai: Snssai, tai: Tai, i: int, k: int)
    requires
        nsag_choice(nsags, snssai, tai, i),
        nsag_choice(nsags, snssai, tai, k),
    ensures
        i == k,
{
    assert(nsag_eligible(nsags[i], snssai, tai));
    assert(nsag_eligible(nsags[k], snssai, tai));
}

/// What admitting a UE for the S-NSSAI in the TAI does to the groups
/// `nsags`: nothing when no group is eligible; otherwise the UE count of the
/// first record with the chosen group's identifier is raised, which fails
/// (`None`) when that count is already the largest the store holds. On
/// success: the groups afterwards and the group counted, if any.
pub open spec fn nsag_admission_effect(
    nsags: Seq<NsagConfiguration>,
    snssai: Snssai,
    tai: Tai,
) -> Option<(Seq<NsagConfiguration>, Option<u32>)> {
    if !some_nsag_eligible(nsags, snssai, tai) {
        Some((nsags, None))
    } else {
        let i = choose|i: int| nsag_choice(nsags, snssai, tai, i);
        let id = nsags[i].nsag_id;
        let k = choose|k: int| first_nsag_with_id(nsags, id, k);
        if count_overflows(nsags[k].current_ue_count) {
            None
        } else {
            Some((nsags_after_increment(nsags, id, k), Some(id)))
        }
    }
}

/// Raises by one the UE count of the first group with the identifier.
pub fn increment_nsag_count(nsag_id: u32, nsags: &mut Vec<NsagConfiguration>) -> (r: Result<(), AppError>)
    ensures
        forall|k: int| #[trigger]
            first_nsag_with_id(old(nsags)@, nsag_id, k) ==> (r is Err <==> count_overflows(
                old(nsags)@[k].current_ue_count,
            )),
        forall|k: int| #[trigger]
            first_nsag_with_id(old(nsags)@, nsag_id, k) ==> (r is Ok ==> final(nsags)@
                == nsags_after_increment(old(nsags)@, nsag_id, k)),
        r is Err ==> final(nsags)@ == old(nsags)@,
        (forall|k: int| 0 <= k < old(nsags)@.len() ==> (#[trigger] old(nsags)@[k]).nsag_id != nsag_id)
            ==> r is Ok && final(nsags)@ == old(nsags)@,
        r matches Err(e) ==> e is InternalServerError,
{
    let mut k: usize = 0;
    while k < nsags.len()
        invariant
            *nsags == *old(nsags),
            k <= nsags@.len(),
            forall|j: int| 0 <= j < k ==> (#[trigger] nsags@[j]).nsag_id != nsag_id,
        decreases nsags.len() - k,
    {
        if nsags[k].nsag_id == nsag_id {
            let current = nsags[k].current_ue_count;
            let next = match current {
                Some(c) => {
                    if c >= 0x7fff_ffff_ffff_ffff {
                        let mut msg = "Failed to increment NSAG UE count for nsag_id ".to_owned();
                        crate::text::append_decimal(&mut msg, nsag_id as usize);
                        msg.append(": count overflow");
                        return Err(AppError::InternalServerError(msg));
                    }
                    c + 1
                },
                None => 1,
            };
            let ghost before = nsags@;
            let mut item = nsags.remove(k);
            item.current_ue_count = Some(next);
            nsags.insert(k, item);
            assert(nsags@ =~= nsags_after_increment(before, nsag_id, k as int));
            return Ok(());
        }
        k = k + 1;
    }
    Ok(())
}

/// Admits the UE to the best eligible group and counts it there; none when
/// no group applies or every group that applies is full.
pub fn admit_to_nsag(
    snssai: &Snssai,
    tai: &Tai,
    nsags: &mut Vec<NsagConfiguration>,
    updates: &mut StoreUpdates,
) -> (r: Result<Option<u32>, AppError>)
    ensures
        match nsag_admission_effect(old(nsags)@, *snssai, *tai) {
            None => {
                &&& r matches Err(e) && e is InternalServerError
                &&& final(nsags)@ == old(nsags)@
                &&& final(updates).nsag_increments@ == old(updates).nsag_increments@
            },
            Some((after, counted)) => {
                &&& r == Ok::<Option<u32>, AppError>(counted)
                &&& final(nsags)@ == after
                &&& final(updates).nsag_increments@ == match counted {
                    Some(id) => old(updates).nsag_increments@.push(id),
                    None => old(updates).nsag_increments@,
                }
            },
        },
        final(updates).nssrg_increments@ == old(updates).nssrg_increments@,
{
    let chosen = choose_nsag(snssai, tai, nsags);
    match chosen {
        None => Ok(None),
        Some(i) => {
            let id = nsags[i].nsag_id;
            let ghost start = nsags@;
            proof {
                lemma_first_nsag_exists(start, id, i as int);
                let i2 = choose|i2: int| nsag_choice(start, *snssai, *tai, i2);
                lemma_nsag_choice_unique(start, *snssai, *tai, i2, i as int);
                let k = choose|k: int| first_nsag_with_id(start, id, k);
                assert(first_nsag_with_id(start, id, k));
            }
            let outcome = increment_nsag_count(id, nsags);
            if outcome.is_err() {
                return Err(outcome.unwrap_err());
            }
            updates.nsag_increments.push(id);
            Ok(Some(id))
        },
    }
}

/// A group's UE count is within its maximum, where both are known; a group
/// with a maximum but no count yet has room for one UE.
pub open spec fn nsag_within_capacity(g: NsagConfiguration) -> bool {
    match (g.max_ue_count, g.current_ue_count) {
        (Some(max), Some(current)) => current <= max,
        (Some(max), None) => max > 0,
        _ => true,
    }
}

/// No two groups share an identifier (the store keeps the identifier unique).
pub open spec fn unique_nsag_ids(gs: Seq<NsagConfiguration>) -> bool {
    forall|i: int, j: int| 0 <= i < gs.len() && 0 <= j < gs.len() && i != j ==> (#[trigger] gs[i]).nsag_id != (#[trigger] gs[j]).nsag_id
}

/// Group `b` is the choice among the first `n` groups.
spec fn nsag_best_in_prefix(gs: Seq<NsagConfiguration>, snssai: Snssai, tai: Tai, n: int, b: int) -> bool {
    &&& 0 <= b < n
    &&& nsag_eligible(gs[b], snssai, tai)
    &&& forall|j: int|
        0 <= j < n && nsag_eligible(#[trigger] gs[j], snssai, tai) ==> nsag_rank(gs[b]) < nsag_rank(gs[j]) || (
        nsag_rank(gs[b]) == nsag_rank(gs[j]) && b <= j)
}

proof fn lemma_nsag_best_in_prefix(gs: Seq<NsagConfiguration>, snssai: Snssai, tai: Tai, n: int)
    requires
        0 <= n <= gs.len(),
        exists|w: int| 0 <= w < n && nsag_eligible(#[trigger] gs[w], snssai, tai),
    ensures
        exists|b: int| nsag_best_in_prefix(gs, snssai, tai, n, b),
    decreases n,
{
    let last = n - 1;
    if exists|w: int| 0 <= w < last && nsag_eligible(#[trigger] gs[w], snssai, tai) {
        lemma_nsag_best_in_prefix(gs, snssai, tai, last);
        let b = choose|b: int| nsag_best_in_prefix(gs, snssai, tai, last, b);
        if nsag_eligible(gs[last], snssai, tai) && nsag_rank(gs[last]) < nsag_rank(gs[b]) {
            assert(nsag_best_in_prefix(gs, snssai, tai, n, last));
        } else {
            assert(nsag_best_in_prefix(gs, snssai, tai, n, b));
        }
    } else {
        assert(nsag_best_in_prefix(gs, snssai, tai, n, last));
    }
}

/// Where some group is eligible, some group is the choice.
proof fn lemma_nsag_choice_exists(gs: Seq<NsagConfiguration>, snssai: Snssai, tai: Tai)
    requires
        some_nsag_eligible(gs, snssai, tai),
    ensures
        exists|i: int| nsag_choice(gs, snssai, tai, i),
{
    lemma_nsag_best_in_prefix(gs, snssai, tai, gs.len() as int);
    let b = choose|b: int| nsag_best_in_prefix(gs, snssai, tai, gs.len() as int, b);
    assert(nsag_choice(gs, snssai, tai, b));
}

/// Counting a UE never takes a group past its capacity: when identifiers
/// are unique and every group is within its capacity, so is every group
/// afterwards.
pub proof fn law_nsag_count_stays_within_capacity(gs: Seq<NsagConfiguration>, snssai: Snssai, tai: Tai)
    requires
        unique_nsag_ids(gs),
        forall|k: int| 0 <= k < gs.len() ==> nsag_within_capacity(#[trigger] gs[k]),
    ensures
        nsag_admission_effect(gs, snssai, tai) matches Some((after, _)) ==> after.len() == gs.len() && forall|k: int|
            0 <= k < after.len() ==> nsag_within_capacity(#[trigger] after[k]),
{
    if some_nsag_eligible(gs, snssai, tai) {
        let i = choose|i: int| nsag_choice(gs, snssai, tai, i);
        let id = gs[i].nsag_id;
        let k = choose|k: int| first_nsag_with_id(gs, id, k);
        if exists|i2: int| nsag_choice(gs, snssai, tai, i2) {
            assert(nsag_choice(gs, snssai, tai, i));
            lemma_first_nsag_exists(gs, id, i);
            assert(first_nsag_with_id(gs, id, k));
            if k != i {
                assert(gs[k].nsag_id == gs[i].nsag_id);
            }
            assert(k == i);
        } else {
            lemma_nsag_choice_exists(gs, snssai, tai);
        }
    }
}

/// Admission counts the UE in a group exactly when the admission check
/// passes and some group applies: when no group applies, or every group
/// that applies is full, nothing is counted; otherwise a group's count is
/// raised (or the raise fails at the store's largest count).
pub proof fn law_admission_counts_exactly_when_the_check_passes(
    nsags: Seq<NsagConfiguration>,
    snssai: Snssai,
    tai: Tai,
)
    ensures
        some_nsag_eligible(nsags, snssai, tai) <==> (nsag_admits(nsags, snssai, tai) && !no_nsag_applies(
            nsags,
            snssai,
            tai,
        )),
        (nsag_admission_effect(nsags, snssai, tai) matches Some((after, None)))
            <==> !some_nsag_eligible(nsags, snssai, tai),
        !some_nsag_eligible(nsags, snssai, tai) ==> nsag_admission_effect(nsags, snssai, tai) == Some(
            (nsags, None::<u32>),
        ),
{
    if some_nsag_eligible(nsags, snssai, tai) {
        let i = choose|i: int| 0 <= i < nsags.len() && nsag_eligible(#[trigger] nsags[i], snssai, tai);
        assert(nsag_applies(nsags[i], snssai, tai));
    }
}

} // verus!
