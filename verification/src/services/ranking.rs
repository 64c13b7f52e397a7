//! Stable ordering of records by a numeric rank: ascending rank, records of
//! equal rank in the order they were given. Every selection of the service
//! (NSIs, AMF sets, AMF instances, NF profiles) ranks by such a key.
use vstd::prelude::*;

verus! {

/// Position `a` comes before position `b`: lower rank, or equal rank and earlier.
pub open spec fn rank_before(ranks: Seq<u64>, a: int, b: int) -> bool {
    ranks[a] < ranks[b] || (ranks[a] == ranks[b] && a < b)
}

/// `order` lists every position of `ranks` exactly once, each position
/// before the positions it comes before.
pub open spec fn is_rank_order(ranks: Seq<u64>, order: Seq<int>) -> bool {
    &&& order.len() == ranks.len()
    &&& forall|p: int| 0 <= p < order.len() ==> 0 <= #[trigger] order[p] < ranks.len()
    &&& forall|j: int| 0 <= j < ranks.len() ==> #[trigger] order.contains(j)
    &&& forall|p: int, q: int|
        0 <= p < q < order.len() ==> rank_before(ranks, #[trigger] order[p], #[trigger] order[q])
}

/// `sorted` holds the items of `items` rearranged by `order`.
pub open spec fn arranged_by<T>(items: Seq<T>, order: Seq<int>, sorted: Seq<T>) -> bool {
    &&& sorted.len() == order.len()
    &&& forall|p: int| 0 <= p < order.len() ==> #[trigger] sorted[p] == items[order[p]]
}

/// `sorted` is `items` in the stable order of `ranks`.
pub open spec fn sorted_by_rank<T>(items: Seq<T>, ranks: Seq<u64>, sorted: Seq<T>) -> bool {
    exists|order: Seq<int>| is_rank_order(ranks, order) && arranged_by(items, order, sorted)
}

/// The first position of the ascending run `ranks` whose rank exceeds `r`.
fn insertion_point(ranks: &Vec<u64>, r: u64) -> (p: usize)
    requires
        forall|a: int, b: int| 0 <= a < b < ranks@.len() ==> ranks@[a] <= ranks@[b],
    ensures
        p <= ranks@.len(),
        forall|q: int| 0 <= q < p ==> ranks@[q] <= r,
        forall|q: int| p <= q < ranks@.len() ==> ranks@[q] > r,
{
    let mut p: usize = 0;
    while p < ranks.len() && ranks[p] <= r
        invariant
            p <= ranks@.len(),
            forall|q: int| 0 <= q < p ==> ranks@[q] <= r,
        decreases ranks.len() - p,
    {
        p = p + 1;
    }
    p
}

/// Sorts `items` by `ranks` (one rank per item), stably.
pub fn sort_by_rank<T>(items: Vec<T>, ranks: Vec<u64>) -> (r: Vec<T>)
    requires
        items@.len() == ranks@.len(),
    ensures
        sorted_by_rank(items@, ranks@, r@),
{
    let ghost orig = items@;
    let ghost keys = ranks@;
    let n = items.len();
    let mut rest = items;
    let mut rest_ranks = ranks;
    let mut out: Vec<T> = Vec::new();
    let mut out_ranks: Vec<u64> = Vec::new();
    let ghost mut order: Seq<int> = Seq::empty();
    let mut i: usize = 0;
    while i < n
        invariant
            n == orig.len(),
            keys.len() == n,
            i <= n,
            rest@ == orig.skip(i as int),
            rest_ranks@ == keys.skip(i as int),
            order.len() == i,
            out@.len() == i,
            out_ranks@.len() == i,
            forall|p: int| 0 <= p < i ==> 0 <= #[trigger] order[p] < i,
            forall|p: int| 0 <= p < i ==> #[trigger] out@[p] == orig[order[p]],
            forall|p: int| 0 <= p < i ==> #[trigger] out_ranks@[p] == keys[order[p]],
            forall|j: int| 0 <= j < i ==> #[trigger] order.contains(j),
            forall|p: int, q: int|
                0 <= p < q < i ==> rank_before(keys, #[trigger] order[p], #[trigger] order[q]),
        decreases n - i,
    {
        let item = rest.remove(0);
        let r = rest_ranks.remove(0);
        assert(rest@ =~= orig.skip(i + 1));
        assert(rest_ranks@ =~= keys.skip(i + 1));
        assert(r == keys[i as int]);
        assert forall|a: int, b: int| 0 <= a < b < out_ranks@.len() implies out_ranks@[a]
            <= out_ranks@[b] by {
            assert(rank_before(keys, order[a], order[b]));
        }
        let p = insertion_point(&out_ranks, r);
        let ghost old_order = order;
        let ghost old_out = out@;
        let ghost old_out_ranks = out_ranks@;
        out.insert(p, item);
        out_ranks.insert(p, r);
        proof {
            order = old_order.insert(p as int, i as int);
            assert forall|j: int| 0 <= j < i + 1 implies #[trigger] order.contains(j) by {
                if j == i {
                    assert(order[p as int] == j);
                } else {
                    assert(old_order.contains(j));
                    let p0 = choose|p0: int| 0 <= p0 < i && #[trigger] old_order[p0] == j;
                    if p0 < p {
                        assert(order[p0] == j);
                    } else {
                        assert(order[p0 + 1] == j);
                    }
                }
            }
            assert forall|a: int, b: int| 0 <= a < b < i + 1 implies rank_before(
                keys,
                #[trigger] order[a],
                #[trigger] order[b],
            ) by {
                if a < p && b < p {
                    assert(rank_before(keys, old_order[a], old_order[b]));
                } else if a < p && b == p {
                    assert(old_out_ranks[a] <= r);
                } else if a < p && b > p {
                    assert(rank_before(keys, old_order[a], old_order[b - 1]));
                } else if a == p {
                    assert(old_out_ranks[b - 1] > r);
                } else {
                    assert(rank_before(keys, old_order[a - 1], old_order[b - 1]));
                }
            }
            assert forall|q: int| 0 <= q < i + 1 implies #[trigger] out@[q] == orig[order[q]]
                && out_ranks@[q] == keys[order[q]] by {
                if q < p {
                } else if q == p {
                } else {
                    assert(out@[q] == old_out[q - 1]);
                }
            }
        }
        i = i + 1;
    }
    proof {
        assert(is_rank_order(keys, order));
        assert(arranged_by(orig, order, out@));
    }
    out
}


/// Position `i` is included and comes before every other included position.
pub open spec fn best_ranked(ranks: Seq<u64>, included: Seq<bool>, i: int) -> bool {
    &&& 0 <= i < ranks.len()
    &&& included[i]
    &&& forall|j: int|
        0 <= j < ranks.len() && #[trigger] included[j] && j != i ==> rank_before(ranks, i, j)
}

/// At most one position is the best ranked.
pub proof fn lemma_best_ranked_unique(ranks: Seq<u64>, included: Seq<bool>, i: int, k: int)
    requires
        best_ranked(ranks, included, i),
        best_ranked(ranks, included, k),
    ensures
        i == k,
{
    assert(included[i] && included[k]);
}

pub open spec fn any_included(included: Seq<bool>) -> bool {
    exists|i: int| 0 <= i < included.len() && #[trigger] included[i]
}

/// The included position that comes first, if any position is included.
pub fn best_by_rank(ranks: &Vec<u64>, included: &Vec<bool>) -> (r: Option<usize>)
    requires
        ranks@.len() == included@.len(),
    ensures
        r is None <==> !any_included(included@),
        r matches Some(i) ==> best_ranked(ranks@, included@, i as int),
{
    let mut best: Option<usize> = None;
    let mut i: usize = 0;
    while i < ranks.len()
        invariant
            ranks@.len() == included@.len(),
            i <= ranks@.len(),
            best is None ==> forall|j: int| 0 <= j < i ==> !#[trigger] included@[j],
            best matches Some(b) ==> {
                &&& b < i
                &&& included@[b as int]
                &&& forall|j: int|
                    0 <= j < i && #[trigger] included@[j] && j != b ==> rank_before(ranks@, b as int, j)
            },
        decreases ranks.len() - i,
    {
        if included[i] {
            match best {
                None => {
                    best = Some(i);
                },
                Some(b) => {
                    if ranks[i] < ranks[b] {
                        best = Some(i);
                    }
                },
            }
        }
        i = i + 1;
    }
    proof {
        if best is None {
            assert(!any_included(included@));
        }
    }
    best
}

} // verus!
