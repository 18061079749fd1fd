use vstd::prelude::*;

use crate::distributor::Distributor;

verus! {

/// Each entry is strictly larger than every earlier one.
pub open spec fn strictly_increasing(s: Seq<int>) -> bool {
    forall|j: int, k: int| 0 <= j < k < s.len() ==> s[j] < s[k]
}

/// `a` is obtained from `b` by keeping some entries, in their original order.
pub open spec fn is_subsequence_of(a: Seq<Seq<u32>>, b: Seq<Seq<u32>>) -> bool {
    exists|ix: Seq<int>|
        {
            &&& #[trigger] strictly_increasing(ix)
            &&& ix.len() == a.len()
            &&& forall|j: int| 0 <= j < a.len() ==> 0 <= #[trigger] ix[j] < b.len() && a[j] == b[ix[j]]
        }
}

/// A consumer calling `next_after` repeatedly observes a subsequence of the
/// published history, in publication order and without duplicates.
///
/// Each successful call hands the consumer the snapshot `h[m - 1]` and the
/// marker `m` (the then-current version), and succeeds only when `m` is
/// strictly larger than the consumer's previous marker; so the consumer's
/// markers strictly increase, and this law turns those facts into an order-
/// preserving embedding of its observations into the history.
pub proof fn lemma_observations_form_subsequence(
    h: Seq<Seq<u32>>,
    markers: Seq<int>,
    obs: Seq<Seq<u32>>,
)
    requires
        obs.len() == markers.len(),
        forall|j: int| 0 <= j < markers.len() ==> 1 <= #[trigger] markers[j] <= h.len(),
        strictly_increasing(markers),
        forall|j: int| 0 <= j < markers.len() ==> #[trigger] obs[j] == h[markers[j] - 1],
    ensures
        is_subsequence_of(obs, h),
{
    let ix = Seq::new(markers.len(), |j: int| markers[j] - 1);
    assert(strictly_increasing(ix));
    assert(forall|j: int| 0 <= j < obs.len() ==> 0 <= #[trigger] ix[j] < h.len() && obs[j]
        == h[ix[j]]);
}

/// However many snapshots have been published, the distributor retains at
/// most one — the latest — so a subscriber that never drains its pending
/// value costs no memory beyond that single slot.
pub proof fn lemma_bounded_buffering(d: Distributor)
    requires
        d.wf(),
    ensures
        d.held_values().len() <= 1,
        d.version > 0 ==> d.held_values() == seq![d.history@.last()],
{
}

/// Two subscribers, whenever each of them subscribed, are handed the same
/// value — the latest snapshot — by their next successful `next_after`.
pub proof fn lemma_subscribers_agree(d: Distributor, m1: u64, m2: u64)
    requires
        d.wf(),
        m1 < d.version,
        m2 < d.version,
    ensures
        d.next_value(m1) == d.next_value(m2),
        d.next_value(m1) is Some,
{
}

/// Accepted publishes are spaced at least the minimum refresh interval apart:
/// consumers never see two snapshots published closer together than that.
pub proof fn lemma_publish_spacing(d: Distributor, i: int)
    requires
        d.wf(),
        0 <= i < d.times@.len() - 1,
    ensures
        d.times@[i] + d.min_interval_ms <= d.times@[i + 1],
{
}

} // verus!
