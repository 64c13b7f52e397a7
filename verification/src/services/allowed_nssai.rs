//! Whether an S-NSSAI may be allowed: subscription, availability of the
//! slice in the PLMN and in the tracking area, and the slice policies.
use vstd::prelude::*;
use crate::runtime::current_time;
use crate::services::store::NssfStore;
use crate::text::{ascii_lowercase, lower};
use crate::types::common::{PlmnId, Snssai, Tai, Timestamp};
use crate::types::db::{NsiConfiguration, SliceConfiguration, SlicePolicy, TimeWindow, UeSubscription};
use crate::validation::{snssai_eq, snssai_same};

verus! {

/// Two PLMN identities are the same when MCC and MNC are equal.
pub open spec fn plmn_same(a: PlmnId, b: PlmnId) -> bool {
    a.mcc@ == b.mcc@ && a.mnc@ == b.mnc@
}

/// Two TAIs are the same when their PLMNs are and their TACs are equal up to ASCII case.
pub open spec fn tai_same(a: Tai, b: Tai) -> bool {
    &&& a.plmn_id.mcc@ == b.plmn_id.mcc@
    &&& a.plmn_id.mnc@ == b.plmn_id.mnc@
    &&& lower(a.tac@) == lower(b.tac@)
}

pub open spec fn tai_in(list: Seq<Tai>, tai: Tai) -> bool {
    exists|i: int| 0 <= i < list.len() && tai_same(#[trigger] list[i], tai)
}

/// A TAI list restricts where a record applies; an absent or empty list does not restrict.
pub open spec fn tai_list_admits(list: Option<Vec<Tai>>, tai: Tai) -> bool {
    match list {
        None => true,
        Some(l) => l@.len() == 0 || tai_in(l@, tai),
    }
}

/// Whether the subscription holds an S-NSSAI denoting the same slice.
pub open spec fn subscribed(snssai: Snssai, subscription: UeSubscription) -> bool {
    exists|i: int|
        0 <= i < subscription.subscribed_snssais@.len() && snssai_same(
            snssai,
            #[trigger] subscription.subscribed_snssais@[i].subscribed_snssai,
        )
}

/// A slice record offers the S-NSSAI in the PLMN.
pub open spec fn slice_offers(slice: SliceConfiguration, snssai: Snssai, plmn: PlmnId) -> bool {
    plmn_same(slice.plmn_id, plmn) && snssai_same(snssai, slice.snssai)
}

pub open spec fn slice_available(slices: Seq<SliceConfiguration>, snssai: Snssai, plmn: PlmnId) -> bool {
    exists|i: int| 0 <= i < slices.len() && slice_offers(#[trigger] slices[i], snssai, plmn)
}

/// Some slice record of the TAI's PLMN offers the S-NSSAI in the TAI.
pub open spec fn slice_available_in_tai(slices: Seq<SliceConfiguration>, snssai: Snssai, tai: Tai) -> bool {
    exists|i: int|
        0 <= i < slices.len() && slice_offers(#[trigger] slices[i], snssai, tai.plmn_id)
            && tai_list_admits(slices[i].tai_list, tai)
}

pub fn plmn_eq(a: &PlmnId, b: &PlmnId) -> (r: bool)
    ensures
        r == plmn_same(*a, *b),
{
    a.mcc == b.mcc && a.mnc == b.mnc
}

pub fn tai_eq(a: &Tai, b: &Tai) -> (r: bool)
    ensures
        r == tai_same(*a, *b),
{
    a.plmn_id.mcc == b.plmn_id.mcc && a.plmn_id.mnc == b.plmn_id.mnc && ascii_lowercase(
        a.tac.as_str(),
    ) == ascii_lowercase(b.tac.as_str())
}

/// Whether some TAI of the list is the same as `tai`.
pub fn tai_list_contains(list: &Vec<Tai>, tai: &Tai) -> (r: bool)
    ensures
        r == tai_in(list@, *tai),
{
    let mut i: usize = 0;
    while i < list.len()
        invariant
            i <= list@.len(),
            forall|j: int| 0 <= j < i ==> !tai_same(#[trigger] list@[j], *tai),
        decreases list.len() - i,
    {
        if tai_eq(&list[i], tai) {
            return true;
        }
        i = i + 1;
    }
    false
}

/// Whether a TAI restriction lets a record apply in `tai`.
pub fn tai_list_admits_tai(list: &Option<Vec<Tai>>, tai: &Tai) -> (r: bool)
    ensures
        r == tai_list_admits(*list, *tai),
{
    match list {
        None => true,
        Some(l) => l.len() == 0 || tai_list_contains(l, tai),
    }
}

pub fn check_subscription(snssai: &Snssai, subscription: &UeSubscription) -> (r: bool)
    ensures
        r == subscribed(*snssai, *subscription),
{
    let list = &subscription.subscribed_snssais;
    let mut i: usize = 0;
    while i < list.len()
        invariant
            list == &subscription.subscribed_snssais,
            i <= list@.len(),
            forall|j: int| 0 <= j < i ==> !snssai_same(*snssai, #[trigger] list@[j].subscribed_snssai),
        decreases list.len() - i,
    {
        if snssai_eq(snssai, &list[i].subscribed_snssai) {
            return true;
        }
        i = i + 1;
    }
    false
}

/// Whether some slice record of the PLMN offers the S-NSSAI.
pub fn check_slice_availability(snssai: &Snssai, plmn: &PlmnId, store: &NssfStore) -> (r: bool)
    ensures
        r == slice_available(store.slices@, *snssai, *plmn),
{
    let slices = &store.slices;
    let mut i: usize = 0;
    while i < slices.len()
        invariant
            slices == &store.slices,
            i <= slices@.len(),
            forall|j: int| 0 <= j < i ==> !slice_offers(#[trigger] slices@[j], *snssai, *plmn),
        decreases slices.len() - i,
    {
        if plmn_eq(&slices[i].plmn_id, plmn) && snssai_eq(snssai, &slices[i].snssai) {
            return true;
        }
        i = i + 1;
    }
    false
}

/// Whether some slice record of the TAI's PLMN offers the S-NSSAI in that TAI.
pub fn check_tai_availability(snssai: &Snssai, tai: &Tai, store: &NssfStore) -> (r: bool)
    ensures
        r == slice_available_in_tai(store.slices@, *snssai, *tai),
{
    let slices = &store.slices;
    let mut i: usize = 0;
    while i < slices.len()
        invariant
            slices == &store.slices,
            i <= slices@.len(),
            forall|j: int|
                0 <= j < i ==> !(slice_offers(#[trigger] slices@[j], *snssai, tai.plmn_id)
                    && tai_list_admits(slices@[j].tai_list, *tai)),
        decreases slices.len() - i,
    {
        if plmn_eq(&slices[i].plmn_id, &tai.plmn_id) && snssai_eq(snssai, &slices[i].snssai) {
            if tai_list_admits_tai(&slices[i].tai_list, tai) {
                return true;
            }
        }
        i = i + 1;
    }
    false
}

/// The instant that an RFC 3339 date-time denotes, as seconds since the Unix
/// epoch and nanoseconds past that second, or none if the text is not one.
pub uninterp spec fn rfc3339_instant(text: Seq<char>) -> Option<(i64, u32)>;

/// `chrono::DateTime::parse_from_rfc3339`, taken to the UTC instant it denotes
/// (`timestamp` and `timestamp_subsec_nanos`). The result is named, not
/// described: what RFC 3339 accepts is left to chrono.
#[verifier::external_body]
fn parse_rfc3339(text: &str) -> (r: Option<(i64, u32)>)
    ensures
        r == rfc3339_instant(text@),
{
    match chrono::DateTime::parse_from_rfc3339(text) {
        Ok(t) => Some((t.timestamp(), t.timestamp_subsec_nanos())),
        Err(_) => None,
    }
}

/// The day of the week of the UTC date of an instant, counted from Monday = 0.
pub open spec fn weekday_from_monday(secs: i64) -> int {
    (secs as int / 86400 + 3) % 7
}

/// The day of the week of an instant, counted from Monday = 0 (1970-01-01 was a Thursday).
pub fn days_from_monday(now: &Timestamp) -> (d: u8)
    ensures
        d as int == weekday_from_monday(now.secs),
{
    let secs = now.secs;
    if secs >= 0 {
        let days = secs / 86400;
        let w = (days % 7 + 3) % 7;
        assert(w == (secs as int / 86400 + 3) % 7) by (nonlinear_arith)
            requires
                secs >= 0,
                days == secs / 86400,
                w == (days % 7 + 3) % 7,
        ;
        w as u8
    } else {
        let q = (-(secs + 1)) / 86400;
        let r = q % 7;
        let w = (6 - r + 3) % 7;
        assert(w == (secs as int / 86400 + 3) % 7) by (nonlinear_arith)
            requires
                secs < 0,
                q == (-(secs + 1)) / 86400,
                r == q % 7,
                w == (6 - r + 3) % 7,
        ;
        w as u8
    }
}

pub open spec fn days_allow(days: Option<Vec<u8>>, weekday: int) -> bool {
    match days {
        None => true,
        Some(d) => exists|i: int| 0 <= i < d@.len() && d@[i] as int == weekday,
    }
}

/// Whether `now` lies in a time window: both ends parse, the weekday is one
/// of the window's days (if it names any), and start <= now < end.
pub open spec fn window_holds(
    start: Option<(i64, u32)>,
    end: Option<(i64, u32)>,
    days: Option<Vec<u8>>,
    now: Timestamp,
) -> bool {
    match (start, end) {
        (Some(s), Some(e)) => {
            &&& days_allow(days, weekday_from_monday(now.secs))
            &&& !now.before(Timestamp { secs: s.0, nanos: s.1 })
            &&& now.before(Timestamp { secs: e.0, nanos: e.1 })
        },
        _ => false,
    }
}

pub open spec fn within_window(window: TimeWindow, now: Timestamp) -> bool {
    window_holds(
        rfc3339_instant(window.start_time@),
        rfc3339_instant(window.end_time@),
        window.days_of_week,
        now,
    )
}

/// The decision on a time window once its ends are parsed.
pub fn window_contains(
    start: Option<(i64, u32)>,
    end: Option<(i64, u32)>,
    days: &Option<Vec<u8>>,
    now: &Timestamp,
) -> (b: bool)
    ensures
        b == window_holds(start, end, *days, *now),
{
    let (start_secs, start_nanos) = match start {
        Some(t) => t,
        None => return false,
    };
    let (end_secs, end_nanos) = match end {
        Some(t) => t,
        None => return false,
    };
    if let Some(d) = days {
        let day = days_from_monday(now);
        let mut found = false;
        let mut i: usize = 0;
        while i < d.len()
            invariant
                i <= d@.len(),
                found == exists|j: int| 0 <= j < i && d@[j] == day,
            decreases d.len() - i,
        {
            if d[i] == day {
                found = true;
            }
            i = i + 1;
        }
        if !found {
            return false;
        }
    }
    let start_t = Timestamp { secs: start_secs, nanos: start_nanos };
    let end_t = Timestamp { secs: end_secs, nanos: end_nanos };
    !now.is_before(&start_t) && now.is_before(&end_t)
}

fn is_within_time_window(window: &TimeWindow, now: &Timestamp) -> (b: bool)
    ensures
        b == within_window(*window, *now),
{
    let start = parse_rfc3339(window.start_time.as_str());
    let end = parse_rfc3339(window.end_time.as_str());
    window_contains(start, end, &window.days_of_week, now)
}

pub open spec fn some_window_holds(windows: Seq<TimeWindow>, now: Timestamp) -> bool {
    exists|i: int| 0 <= i < windows.len() && within_window(#[trigger] windows[i], now)
}

fn any_window_holds(windows: &Vec<TimeWindow>, now: &Timestamp) -> (b: bool)
    ensures
        b == some_window_holds(windows@, *now),
{
    let mut i: usize = 0;
    while i < windows.len()
        invariant
            i <= windows@.len(),
            forall|j: int| 0 <= j < i ==> !within_window(#[trigger] windows@[j], *now),
        decreases windows.len() - i,
    {
        if is_within_time_window(&windows[i], now) {
            return true;
        }
        i = i + 1;
    }
    false
}

/// An NSI record of the S-NSSAI in the PLMN reports a load at or above `max_load`.
pub open spec fn load_exceeded(
    nsis: Seq<NsiConfiguration>,
    snssai: Snssai,
    plmn: PlmnId,
    max_load: u32,
) -> bool {
    exists|i: int|
        0 <= i < nsis.len() && plmn_same(#[trigger] nsis[i].plmn_id, plmn) && snssai_same(
            snssai,
            nsis[i].snssai,
        ) && load_at_least(nsis[i].load_level, max_load)
}

/// A reported load at or above `max_load`.
pub open spec fn load_at_least(level: Option<u32>, max_load: u32) -> bool {
    match level {
        Some(l) => l >= max_load,
        None => false,
    }
}

fn check_load_exceeded(snssai: &Snssai, plmn: &PlmnId, max_load: u32, store: &NssfStore) -> (b: bool)
    ensures
        b == load_exceeded(store.nsis@, *snssai, *plmn, max_load),
{
    let nsis = &store.nsis;
    let mut i: usize = 0;
    while i < nsis.len()
        invariant
            nsis == &store.nsis,
            i <= nsis@.len(),
            forall|j: int|
                0 <= j < i ==> !(plmn_same(#[trigger] nsis@[j].plmn_id, *plmn) && snssai_same(
                    *snssai,
                    nsis@[j].snssai,
                ) && load_at_least(nsis@[j].load_level, max_load)),
        decreases nsis.len() - i,
    {
        if plmn_eq(&nsis[i].plmn_id, plmn) && snssai_eq(snssai, &nsis[i].snssai) {
            if let Some(load) = nsis[i].load_level {
                if load >= max_load {
                    return true;
                }
            }
        }
        i = i + 1;
    }
    false
}

/// A policy applies to the S-NSSAI in the PLMN.
pub open spec fn policy_applies(policy: SlicePolicy, snssai: Snssai, plmn: PlmnId) -> bool {
    plmn_same(policy.plmn_id, plmn) && snssai_same(snssai, policy.snssai)
}

/// Whether a policy lets the S-NSSAI be used in `tai` at `now`: it is
/// enabled; `now` lies in one of its allowed windows (if it lists any) and
/// in none of its denied windows; `tai` is one of its allowed TAIs (if it
/// lists any) and none of its denied TAIs; and no NSI of the slice is loaded
/// at or above its maximum load.
pub open spec fn policy_permits(
    policy: SlicePolicy,
    snssai: Snssai,
    plmn: PlmnId,
    tai: Tai,
    now: Timestamp,
    nsis: Seq<NsiConfiguration>,
) -> bool {
    &&& policy.enabled
    &&& match policy.allowed_time_windows {
        Some(w) => w@.len() == 0 || some_window_holds(w@, now),
        None => true,
    }
    &&& match policy.denied_time_windows {
        Some(w) => !some_window_holds(w@, now),
        None => true,
    }
    &&& match policy.allowed_tai_list {
        Some(l) => l@.len() == 0 || tai_in(l@, tai),
        None => true,
    }
    &&& match policy.denied_tai_list {
        Some(l) => !tai_in(l@, tai),
        None => true,
    }
    &&& match policy.max_load_level {
        Some(m) => !load_exceeded(nsis, snssai, plmn, m),
        None => true,
    }
}

/// Every policy that applies to the S-NSSAI in the PLMN permits it; with no
/// such policy the S-NSSAI is permitted.
pub open spec fn policies_permit(
    policies: Seq<SlicePolicy>,
    snssai: Snssai,
    plmn: PlmnId,
    tai: Tai,
    now: Timestamp,
    nsis: Seq<NsiConfiguration>,
) -> bool {
    forall|i: int|
        0 <= i < policies.len() && policy_applies(#[trigger] policies[i], snssai, plmn)
            ==> policy_permits(policies[i], snssai, plmn, tai, now, nsis)
}

fn policy_check(
    policy: &SlicePolicy,
    snssai: &Snssai,
    plmn: &PlmnId,
    tai: &Tai,
    now: &Timestamp,
    store: &NssfStore,
) -> (b: bool)
    ensures
        b == policy_permits(*policy, *snssai, *plmn, *tai, *now, store.nsis@),
{
    if !policy.enabled {
        return false;
    }
    if let Some(windows) = &policy.allowed_time_windows {
        if windows.len() != 0 && !any_window_holds(windows, now) {
            return false;
        }
    }
    if let Some(windows) = &policy.denied_time_windows {
        if any_window_holds(windows, now) {
            return false;
        }
    }
    if let Some(allowed_tais) = &policy.allowed_tai_list {
        if allowed_tais.len() != 0 && !tai_list_contains(allowed_tais, tai) {
            return false;
        }
    }
    if let Some(denied_tais) = &policy.denied_tai_list {
        if tai_list_contains(denied_tais, tai) {
            return false;
        }
    }
    if let Some(max_load) = policy.max_load_level {
        if check_load_exceeded(snssai, plmn, max_load, store) {
            return false;
        }
    }
    true
}

/// Evaluates the slice policies of the S-NSSAI in the PLMN for `tai` at `now`.
pub fn evaluate_policy_at(
    snssai: &Snssai,
    plmn: &PlmnId,
    tai: &Tai,
    store: &NssfStore,
    now: &Timestamp,
) -> (b: bool)
    ensures
        b == policies_permit(store.policies@, *snssai, *plmn, *tai, *now, store.nsis@),
{
    let policies = &store.policies;
    let mut i: usize = 0;
    while i < policies.len()
        invariant
            policies == &store.policies,
            i <= policies@.len(),
            forall|j: int|
                0 <= j < i && policy_applies(#[trigger] policies@[j], *snssai, *plmn)
                    ==> policy_permits(policies@[j], *snssai, *plmn, *tai, *now, store.nsis@),
        decreases policies.len() - i,
    {
        if plmn_eq(&policies[i].plmn_id, plmn) && snssai_eq(snssai, &policies[i].snssai) {
            if !policy_check(&policies[i], snssai, plmn, tai, now, store) {
                return false;
            }
        }
        i = i + 1;
    }
    true
}

/// Whether the S-NSSAI may be allowed for the subscriber in `tai` at `now`.
pub open spec fn snssai_allowed(
    snssai: Snssai,
    plmn: PlmnId,
    tai: Tai,
    subscription: UeSubscription,
    store: NssfStore,
    now: Timestamp,
) -> bool {
    &&& subscribed(snssai, subscription)
    &&& slice_available(store.slices@, snssai, plmn)
    &&& slice_available_in_tai(store.slices@, snssai, tai)
    &&& policies_permit(store.policies@, snssai, plmn, tai, now, store.nsis@)
}

pub fn is_snssai_allowed_at(
    snssai: &Snssai,
    plmn: &PlmnId,
    tai: &Tai,
    subscription: &UeSubscription,
    store: &NssfStore,
    now: &Timestamp,
) -> (b: bool)
    ensures
        b == snssai_allowed(*snssai, *plmn, *tai, *subscription, *store, *now),
{
    if !check_subscription(snssai, subscription) {
        return false;
    }
    if !check_slice_availability(snssai, plmn, store) {
        return false;
    }
    if !check_tai_availability(snssai, tai, store) {
        return false;
    }
    if !evaluate_policy_at(snssai, plmn, tai, store, now) {
        return false;
    }
    true
}

/// Evaluates the slice policies of the S-NSSAI in the PLMN for `tai` now.
pub fn evaluate_policy(snssai: &Snssai, plmn: &PlmnId, tai: &Tai, store: &NssfStore) -> (b: bool)
    ensures
        exists|now: Timestamp|
            now.nanos < 2_000_000_000 && b == policies_permit(store.policies@, *snssai, *plmn, *tai, now, store.nsis@),
{
    let now = current_time();
    evaluate_policy_at(snssai, plmn, tai, store, &now)
}

/// Whether the S-NSSAI may be allowed for the subscriber in `tai` now.
pub fn is_snssai_allowed(
    snssai: &Snssai,
    plmn: &PlmnId,
    tai: &Tai,
    subscription: &UeSubscription,
    store: &NssfStore,
) -> (b: bool)
    ensures
        exists|now: Timestamp|
            now.nanos < 2_000_000_000 && b == snssai_allowed(*snssai, *plmn, *tai, *subscription, *store, now),
{
    let now = current_time();
    is_snssai_allowed_at(snssai, plmn, tai, subscription, store, &now)
}

/// A policy for the S-NSSAI in the PLMN that lists the TAI among its denied
/// TAIs forbids the S-NSSAI there: the policy evaluation (`evaluate_policy_at`)
/// is false and the S-NSSAI is not allowed (`is_snssai_allowed_at`), whatever
/// else the store and the subscription hold.
pub proof fn law_denied_tai_forbids_the_snssai(
    snssai: Snssai,
    plmn: PlmnId,
    tai: Tai,
    subscription: UeSubscription,
    store: NssfStore,
    now: Timestamp,
    k: int,
    j: int,
)
    requires
        0 <= k < store.policies@.len(),
        plmn_same(store.policies@[k].plmn_id, plmn),
        snssai_same(snssai, store.policies@[k].snssai),
        store.policies@[k].denied_tai_list matches Some(l) && 0 <= j < l@.len() && l@[j] == tai,
    ensures
        !policies_permit(store.policies@, snssai, plmn, tai, now, store.nsis@),
        !snssai_allowed(snssai, plmn, tai, subscription, store, now),
{
    let l = store.policies@[k].denied_tai_list->0;
    assert(tai_same(l@[j], tai));
    assert(tai_in(l@, tai));
    assert(policy_applies(store.policies@[k], snssai, plmn));
}

/// The other restrictions of a policy for the S-NSSAI in the PLMN: a
/// disabled policy forbids the S-NSSAI; a non-empty allowed TAI list that
/// names no tracking area equal to the TAI forbids it; and with no policy
/// for the S-NSSAI in the PLMN, it is permitted.
pub proof fn law_policy_restrictions(
    snssai: Snssai,
    plmn: PlmnId,
    tai: Tai,
    store: NssfStore,
    now: Timestamp,
    k: int,
)
    ensures
        (0 <= k < store.policies@.len() && plmn_same(store.policies@[k].plmn_id, plmn) && snssai_same(
            snssai,
            store.policies@[k].snssai,
        ) && !store.policies@[k].enabled) ==> !policies_permit(store.policies@, snssai, plmn, tai, now, store.nsis@),
        (0 <= k < store.policies@.len() && plmn_same(store.policies@[k].plmn_id, plmn) && snssai_same(
            snssai,
            store.policies@[k].snssai,
        ) && (store.policies@[k].allowed_tai_list matches Some(l) && l@.len() > 0 && forall|j: int|
            0 <= j < l@.len() ==> !tai_same(#[trigger] l@[j], tai)))
            ==> !policies_permit(store.policies@, snssai, plmn, tai, now, store.nsis@),
        (forall|j: int|
            0 <= j < store.policies@.len() ==> !(plmn_same((#[trigger] store.policies@[j]).plmn_id, plmn)
                && snssai_same(snssai, store.policies@[j].snssai)))
            ==> policies_permit(store.policies@, snssai, plmn, tai, now, store.nsis@),
{
    if 0 <= k < store.policies@.len() && plmn_same(store.policies@[k].plmn_id, plmn) && snssai_same(
        snssai,
        store.policies@[k].snssai,
    ) {
        assert(policy_applies(store.policies@[k], snssai, plmn));
    }
}

} // verus!
