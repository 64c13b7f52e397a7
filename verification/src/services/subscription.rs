//! The UE subscriptions of the store and what slice selection reads of them.
use vstd::prelude::*;
use crate::services::allowed_nssai::{plmn_eq, plmn_same};
use crate::services::store::NssfStore;
use crate::types::common::{copy_strings, PlmnId, Snssai};
use crate::types::db::{SubscribedSnssai, UeSubscription};

verus! {

/// The subscription is that of the SUPI in the PLMN.
pub open spec fn subscription_of(subscription: UeSubscription, supi: Seq<char>, plmn: PlmnId) -> bool {
    subscription.supi@ == supi && plmn_same(subscription.plmn_id, plmn)
}

/// Record `i` is the first subscription of the SUPI in the PLMN.
pub open spec fn first_subscription_of(
    subscriptions: Seq<UeSubscription>,
    supi: Seq<char>,
    plmn: PlmnId,
    i: int,
) -> bool {
    &&& 0 <= i < subscriptions.len()
    &&& subscription_of(subscriptions[i], supi, plmn)
    &&& forall|j: int| 0 <= j < i ==> !subscription_of(#[trigger] subscriptions[j], supi, plmn)
}

/// At most one record is the first subscription of the SUPI in the PLMN.
pub proof fn lemma_first_subscription_unique(
    subscriptions: Seq<UeSubscription>,
    supi: Seq<char>,
    plmn: PlmnId,
    i: int,
    k: int,
)
    requires
        first_subscription_of(subscriptions, supi, plmn, i),
        first_subscription_of(subscriptions, supi, plmn, k),
    ensures
        i == k,
{
    if i < k {
        assert(subscription_of(subscriptions[i], supi, plmn));
    } else if k < i {
        assert(subscription_of(subscriptions[k], supi, plmn));
    }
}

pub open spec fn has_subscription(subscriptions: Seq<UeSubscription>, supi: Seq<char>, plmn: PlmnId) -> bool {
    exists|i: int| 0 <= i < subscriptions.len() && subscription_of(#[trigger] subscriptions[i], supi, plmn)
}

/// The position of the subscription of the SUPI in the PLMN among `subscriptions`.
pub fn find_subscription(subscriptions: &Vec<UeSubscription>, supi: &str, plmn_id: &PlmnId) -> (r: Option<usize>)
    ensures
        r is None <==> !has_subscription(subscriptions@, supi@, *plmn_id),
        r matches Some(i) ==> first_subscription_of(subscriptions@, supi@, *plmn_id, i as int),
{
    let mut i: usize = 0;
    while i < subscriptions.len()
        invariant
            i <= subscriptions@.len(),
            forall|j: int| 0 <= j < i ==> !subscription_of(#[trigger] subscriptions@[j], supi@, *plmn_id),
        decreases subscriptions.len() - i,
    {
        if crate::text::str_eq(subscriptions[i].supi.as_str(), supi) && plmn_eq(&subscriptions[i].plmn_id, plmn_id) {
            return Some(i);
        }
        i = i + 1;
    }
    None
}

/// The subscription of the SUPI in the PLMN, if the store holds one.
pub fn get_subscription<'a>(store: &'a NssfStore, supi: &str, plmn_id: &PlmnId) -> (r: Option<&'a UeSubscription>)
    ensures
        r is None <==> !has_subscription(store.subscriptions@, supi@, *plmn_id),
        r matches Some(s) ==> exists|i: int|
            first_subscription_of(store.subscriptions@, supi@, *plmn_id, i) && *s == store.subscriptions@[i],
{
    match find_subscription(&store.subscriptions, supi, plmn_id) {
        Some(i) => Some(&store.subscriptions[i]),
        None => None,
    }
}

/// The S-NSSAIs of the subscription.
pub open spec fn subscribed_snssais(subscription: UeSubscription) -> Seq<Snssai> {
    subscription.subscribed_snssais@.map_values(|s: SubscribedSnssai| s.subscribed_snssai)
}

pub fn get_subscribed_snssais(subscription: &UeSubscription) -> (r: Vec<Snssai>)
    ensures
        r@ == subscribed_snssais(*subscription),
{
    let list = &subscription.subscribed_snssais;
    let mut r: Vec<Snssai> = Vec::new();
    let mut i: usize = 0;
    while i < list.len()
        invariant
            list == &subscription.subscribed_snssais,
            i <= list@.len(),
            r@ == subscribed_snssais(*subscription).take(i as int),
        decreases list.len() - i,
    {
        r.push(list[i].subscribed_snssai.copy());
        i = i + 1;
        assert(r@ =~= subscribed_snssais(*subscription).take(i as int));
    }
    assert(subscribed_snssais(*subscription).take(i as int) =~= subscribed_snssais(*subscription));
    r
}

/// The first subscribed S-NSSAI marked as default.
pub open spec fn first_default_indicated(list: Seq<SubscribedSnssai>) -> Option<Snssai>
    decreases list.len(),
{
    if list.len() == 0 {
        None
    } else if list[0].default_indication == Some(true) {
        Some(list[0].subscribed_snssai)
    } else {
        first_default_indicated(list.drop_first())
    }
}

/// The default S-NSSAI of the subscription: the one it names, else the first
/// subscribed S-NSSAI marked as default.
pub open spec fn default_snssai(subscription: UeSubscription) -> Option<Snssai> {
    match subscription.default_snssai {
        Some(d) => Some(d),
        None => first_default_indicated(subscription.subscribed_snssais@),
    }
}

pub fn get_default_snssai(subscription: &UeSubscription) -> (r: Option<Snssai>)
    ensures
        r == default_snssai(*subscription),
{
    if let Some(d) = &subscription.default_snssai {
        return Some(d.copy());
    }
    let list = &subscription.subscribed_snssais;
    let mut i: usize = 0;
    assert(list@.skip(0) =~= list@);
    while i < list.len()
        invariant
            list == &subscription.subscribed_snssais,
            subscription.default_snssai is None,
            i <= list@.len(),
            first_default_indicated(list@) == first_default_indicated(list@.skip(i as int)),
        decreases list.len() - i,
    {
        assert(list@.skip(i as int).drop_first() =~= list@.skip(i + 1));
        if let Some(true) = list[i].default_indication {
            assert(list@.skip(i as int)[0] == list@[i as int]);
            return Some(list[i].subscribed_snssai.copy());
        }
        i = i + 1;
    }
    None
}

/// The NSSRGs that a subscribed S-NSSAI belongs to; none when it names none.
pub fn get_subscribed_nssrg_list(subscribed: &SubscribedSnssai) -> (r: Vec<String>)
    ensures
        r@ == match subscribed.subscribed_nssrg_list {
            Some(l) => l@,
            None => Seq::empty(),
        },
{
    match &subscribed.subscribed_nssrg_list {
        Some(l) => copy_strings(l),
        None => Vec::new(),
    }
}

} // verus!
