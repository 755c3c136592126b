//! The order in which the bundles of an application are signed: the deepest
//! first, so that every bundle is signed before the one that contains it,
//! and the application itself last.

use vstd::prelude::*;
use crate::bundle::bundles_view;
use crate::bundle::embedded_in;
use crate::bundle::found_at;
use crate::bundle::found_below;
use crate::bundle::joined;
use crate::bundle::unreadable_text;
use crate::bundle::Bundle;
use crate::bundle::BundleModel;
use crate::bundle::DirNode;
use crate::error::Error;
use crate::error::ErrorModel;

verus! {

/// How deep a bundle lies: the number of components of its path.
pub open spec fn depth_of(b: BundleModel) -> nat {
    b.dir.len()
}

/// The ordered list with one more bundle put in: behind every bundle that
/// lies deeper, before every bundle that does not.
pub open spec fn put_in_order(order: Seq<BundleModel>, b: BundleModel) -> Seq<BundleModel>
    decreases order.len(),
{
    if order.len() == 0 {
        seq![b]
    } else if depth_of(order[0]) <= depth_of(b) {
        seq![b] + order
    } else {
        seq![order[0]] + put_in_order(order.skip(1), b)
    }
}

/// The bundles in the order of signing: deepest first, and among bundles of
/// one depth the one that was found later first.
pub open spec fn signing_order(bundles: Seq<BundleModel>) -> Seq<BundleModel>
    decreases bundles.len(),
{
    if bundles.len() == 0 {
        Seq::empty()
    } else {
        put_in_order(signing_order(bundles.drop_last()), bundles.last())
    }
}

/// Whether no bundle comes before a deeper one.
pub open spec fn deepest_first(order: Seq<BundleModel>) -> bool {
    forall|i: int, j: int| 0 <= i < j < order.len() ==> depth_of(order[i]) >= depth_of(order[j])
}

/// Where the first `k` bundles lie deeper than `b` and the next does not,
/// `b` goes to position `k`.
pub proof fn lemma_put_in_order_at(order: Seq<BundleModel>, b: BundleModel, k: int)
    requires
        0 <= k <= order.len(),
        forall|j: int| 0 <= j < k ==> depth_of(order[j]) > depth_of(b),
        k < order.len() ==> depth_of(order[k]) <= depth_of(b),
    ensures
        put_in_order(order, b) == order.take(k) + seq![b] + order.skip(k),
    decreases k,
{
    if k == 0 {
        assert(order.take(0) + seq![b] + order.skip(0) =~= seq![b] + order);
        if order.len() == 0 {
            assert(seq![b] + order =~= seq![b]);
        }
    } else {
        lemma_put_in_order_at(order.skip(1), b, k - 1);
        assert(seq![order[0]] + (order.skip(1).take(k - 1) + seq![b] + order.skip(1).skip(k - 1))
            =~= order.take(k) + seq![b] + order.skip(k));
    }
}

/// Putting a bundle into an ordered list keeps the list ordered, adds that
/// bundle and nothing else, and adds it at the end where it lies less deep
/// than all the others.
pub proof fn lemma_put_in_order(order: Seq<BundleModel>, b: BundleModel)
    requires
        deepest_first(order),
    ensures
        deepest_first(put_in_order(order, b)),
        put_in_order(order, b).to_multiset() == order.to_multiset().insert(b),
        put_in_order(order, b).len() == order.len() + 1,
        (forall|j: int| 0 <= j < order.len() ==> depth_of(order[j]) > depth_of(b))
            ==> put_in_order(order, b) == order.push(b),
    decreases order.len(),
{
    broadcast use vstd::seq_lib::group_to_multiset_ensures;

    let r = put_in_order(order, b);
    if order.len() == 0 {
        assert(order.to_multiset() =~= vstd::multiset::Multiset::<BundleModel>::empty());
        assert(r =~= Seq::<BundleModel>::empty().push(b));
        assert(r =~= order.push(b));
    } else if depth_of(order[0]) <= depth_of(b) {
        assert(r =~= seq![b] + order);
        assert forall|i: int, j: int| 0 <= i < j < r.len() implies depth_of(r[i]) >= depth_of(
            r[j],
        ) by {
            if i == 0 {
                assert(r[j] == order[j - 1]);
                if j - 1 > 0 {
                    assert(depth_of(order[0]) >= depth_of(order[j - 1]));
                }
            } else {
                assert(r[i] == order[i - 1] && r[j] == order[j - 1]);
            }
        }
        lemma_multiset_of_prepend(order, b);
    } else {
        let rest = order.skip(1);
        assert forall|i: int, j: int| 0 <= i < j < rest.len() implies depth_of(rest[i])
            >= depth_of(rest[j]) by {
            assert(rest[i] == order[i + 1] && rest[j] == order[j + 1]);
        }
        lemma_put_in_order(rest, b);
        let tail = put_in_order(rest, b);
        assert(r =~= seq![order[0]] + tail);
        lemma_multiset_of_prepend(tail, order[0]);
        lemma_multiset_of_prepend(rest, order[0]);
        assert(seq![order[0]] + rest =~= order);
        assert(r.to_multiset() =~= order.to_multiset().insert(b));
        assert forall|i: int, j: int| 0 <= i < j < r.len() implies depth_of(r[i]) >= depth_of(
            r[j],
        ) by {
            if i == 0 {
                let x = tail[j - 1];
                assert(r[j] == x);
                assert(tail.to_multiset().count(x) > 0) by {
                    assert(tail.contains(x));
                }
                assert(rest.to_multiset().insert(b).count(x) > 0);
                if x != b {
                    assert(rest.to_multiset().count(x) > 0);
                    assert(rest.contains(x));
                    let m = choose|m: int| 0 <= m < rest.len() && rest[m] == x;
                    assert(order[m + 1] == x);
                    assert(depth_of(order[0]) >= depth_of(order[m + 1]));
                }
            } else {
                assert(r[i] == tail[i - 1] && r[j] == tail[j - 1]);
            }
        }
        if forall|j: int| 0 <= j < order.len() ==> depth_of(order[j]) > depth_of(b) {
            assert forall|j: int| 0 <= j < rest.len() implies depth_of(rest[j]) > depth_of(b) by {
                assert(rest[j] == order[j + 1]);
            }
            assert(r =~= order.push(b));
        }
    }
}

/// The members of a list with one more in front.
pub proof fn lemma_multiset_of_prepend(s: Seq<BundleModel>, x: BundleModel)
    ensures
        (seq![x] + s).to_multiset() == s.to_multiset().insert(x),
{
    broadcast use vstd::seq_lib::group_to_multiset_ensures;

    vstd::seq_lib::lemma_multiset_commutative(seq![x], s);
    assert(seq![x] =~= Seq::<BundleModel>::empty().push(x));
    assert(Seq::<BundleModel>::empty().to_multiset() =~= vstd::multiset::Multiset::<
        BundleModel,
    >::empty());
    assert((seq![x] + s).to_multiset() =~= s.to_multiset().insert(x));
}

/// The order of signing holds every bundle exactly as often as it was given,
/// and no bundle comes before a deeper one.
pub proof fn lemma_signing_order(bundles: Seq<BundleModel>)
    ensures
        deepest_first(signing_order(bundles)),
        signing_order(bundles).to_multiset() == bundles.to_multiset(),
        signing_order(bundles).len() == bundles.len(),
    decreases bundles.len(),
{
    broadcast use vstd::seq_lib::group_to_multiset_ensures;

    if bundles.len() == 0 {
        assert(signing_order(bundles).to_multiset() =~= bundles.to_multiset());
    } else {
        lemma_signing_order(bundles.drop_last());
        lemma_put_in_order(signing_order(bundles.drop_last()), bundles.last());
        assert(bundles.drop_last().push(bundles.last()) =~= bundles);
    }
}

/// A bundle that lies less deep than all the others and was given last is
/// signed last.
pub proof fn lemma_shallowest_signed_last(others: Seq<BundleModel>, root: BundleModel)
    requires
        forall|j: int| 0 <= j < others.len() ==> depth_of(others[j]) > depth_of(root),
    ensures
        signing_order(others.push(root)) == signing_order(others).push(root),
        signing_order(others.push(root)).last() == root,
{
    broadcast use vstd::seq_lib::group_to_multiset_ensures;

    let all = others.push(root);
    assert(all.drop_last() =~= others);
    assert(all.last() == root);
    lemma_signing_order(others);
    let order = signing_order(others);
    assert forall|j: int| 0 <= j < order.len() implies depth_of(order[j]) > depth_of(root) by {
        let x = order[j];
        assert(order.contains(x));
        assert(order.to_multiset().count(x) > 0);
        assert(others.to_multiset().count(x) > 0);
        assert(others.contains(x));
    }
    lemma_put_in_order(order, root);
}

/// Whether every bundle of a list lies deeper than `n` components.
pub open spec fn all_deeper(bundles: Seq<BundleModel>, n: nat) -> bool {
    forall|k: int| 0 <= k < bundles.len() ==> depth_of(#[trigger] bundles[k]) > n
}

/// Parts that each lie deeper than `n` do so in a row too.
pub proof fn lemma_joined_deeper(parts: Seq<Seq<BundleModel>>, n: nat)
    requires
        forall|i: int| 0 <= i < parts.len() ==> all_deeper(#[trigger] parts[i], n),
    ensures
        all_deeper(joined(parts), n),
    decreases parts.len(),
{
    if parts.len() > 0 {
        lemma_joined_deeper(parts.drop_last(), n);
        assert(all_deeper(parts.last(), n));
    }
}

/// Every bundle found at or below an entry of a directory lies deeper than
/// that directory.
pub proof fn lemma_found_deeper(parent: Seq<Seq<char>>, node: DirNode)
    ensures
        all_deeper(found_at(parent, node, found_below(parent.push(node.name@), node)), parent.len()),
        all_deeper(joined(found_below(parent.push(node.name@), node)), parent.len()),
    decreases node,
{
    let path = parent.push(node.name@);
    let below = found_below(path, node);
    match node.entries {
        Some(entries) => {
            assert forall|i: int| 0 <= i < below.len() implies all_deeper(
                #[trigger] below[i],
                path.len(),
            ) by {
                lemma_found_deeper(path, entries@[i]);
            }
            lemma_joined_deeper(below, path.len());
        },
        None => {},
    }
    assert(all_deeper(joined(below), parent.len()));
}

/// Every bundle embedded in a directory lies deeper than that directory.
pub proof fn lemma_embedded_deeper(path: Seq<Seq<char>>, node: DirNode)
    ensures
        match embedded_in(path, node) {
            Some(bundles) => all_deeper(bundles, path.len()),
            None => true,
        },
{
    match node.entries {
        Some(entries) => {
            let parts = Seq::new(
                entries@.len(),
                |i: int| found_at(path, entries@[i], found_below(path.push(entries@[i].name@), entries@[i])),
            );
            assert forall|i: int| 0 <= i < parts.len() implies all_deeper(
                #[trigger] parts[i],
                path.len(),
            ) by {
                lemma_found_deeper(path, entries@[i]);
            }
            lemma_joined_deeper(parts, path.len());
            assert(parts =~= Seq::new(
                entries@.len(),
                |i: int| crate::bundle::discovered(path, entries@[i]),
            ));
        },
        None => {},
    }
}

/// Puts the bundles into the order of signing.
pub fn sort_for_signing(bundles: &Vec<Bundle>) -> (r: Vec<Bundle>)
    ensures
        bundles_view(r@) == signing_order(bundles_view(bundles@)),
{
    let ghost input = bundles_view(bundles@);
    let mut out: Vec<Bundle> = Vec::new();
    let mut i: usize = 0;
    assert(input.take(0) =~= Seq::<BundleModel>::empty());
    assert(bundles_view(out@) =~= signing_order(input.take(0)));
    while i < bundles.len()
        invariant
            i <= bundles.len(),
            input == bundles_view(bundles@),
            bundles_view(out@) == signing_order(input.take(i as int)),
        decreases bundles.len() - i,
    {
        let b = bundles[i].duplicate();
        let depth = b.depth();
        let ghost order = bundles_view(out@);
        let mut k: usize = 0;
        while k < out.len() && out[k].depth() > depth
            invariant
                k <= out.len(),
                order == bundles_view(out@),
                depth == depth_of(b@),
                forall|j: int| 0 <= j < k ==> depth_of(order[j]) > depth_of(b@),
            decreases out.len() - k,
        {
            k = k + 1;
        }
        proof {
            lemma_put_in_order_at(order, b@, k as int);
            assert(input.take(i + 1).drop_last() =~= input.take(i as int));
            assert(input.take(i + 1).last() == b@);
        }
        out.insert(k, b);
        assert(bundles_view(out@) =~= order.take(k as int) + seq![b@] + order.skip(k as int));
        i = i + 1;
    }
    assert(input.take(bundles.len() as int) =~= input);
    out
}

impl Bundle {
    /// The bundle and all that are embedded in it, in the order of signing:
    /// deepest first, this bundle last.
    pub fn collect_bundles_sorted(&self, listing: &DirNode) -> (r: Result<Vec<Bundle>, Error>)
        ensures
            match r {
                Ok(bundles) => embedded_in(self@.dir, *listing) is Some && bundles_view(bundles@)
                    == signing_order(embedded_in(self@.dir, *listing)->0.push(self@))
                    && bundles_view(bundles@).last() == self@,
                Err(e) => embedded_in(self@.dir, *listing) is None && e@ == ErrorModel::Other(
                    unreadable_text(),
                ),
            },
    {
        let mut all = match self.get_embedded_bundles(listing) {
            Ok(found) => found,
            Err(e) => {
                return Err(e);
            },
        };
        let ghost others = bundles_view(all@);
        all.push(self.duplicate());
        assert(bundles_view(all@) =~= others.push(self@));
        proof {
            lemma_embedded_deeper(self@.dir, *listing);
            lemma_shallowest_signed_last(others, self@);
        }
        Ok(sort_for_signing(&all))
    }
}

/// Whether the bundle `inner` lies inside the bundle `outer`: its path
/// begins with that of `outer` and goes on.
pub open spec fn nested_in(inner: BundleModel, outer: BundleModel) -> bool {
    outer.dir.len() < inner.dir.len() && outer.dir.is_prefix_of(inner.dir)
}

/// A bundle that lies inside another is signed before it.
pub proof fn lemma_nested_signed_first(bundles: Seq<BundleModel>, inner: int, outer: int)
    requires
        0 <= inner < signing_order(bundles).len(),
        0 <= outer < signing_order(bundles).len(),
        nested_in(signing_order(bundles)[inner], signing_order(bundles)[outer]),
    ensures
        inner < outer,
{
    lemma_signing_order(bundles);
}

} // verus!
