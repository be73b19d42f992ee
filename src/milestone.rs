use vstd::prelude::*;

verus! {

/// Earnings amounts are held as integers, in ten-thousandths of an HBD.
pub const UNITS_PER_HBD: i64 = 10000;

/// The cumulative-earnings thresholds, in amount units, ascending:
/// 0.01, 0.1, 1, 10 and 100 HBD.
pub open spec fn milestone_thresholds_spec() -> Seq<i64> {
    seq![100i64, 1000i64, 10000i64, 100000i64, 1000000i64]
}

/// Every threshold is strictly below every later one.
pub open spec fn strictly_ascending(t: Seq<i64>) -> bool {
    forall|i: int, j: int| 0 <= i < j < t.len() ==> t[i] < t[j]
}

/// Moving the total from `old_total` to `new_total` crosses `threshold`.
pub open spec fn crosses(threshold: i64, old_total: i64, new_total: i64) -> bool {
    old_total < threshold && threshold <= new_total
}

/// The first threshold, in the order given, that the move crosses.
pub open spec fn first_crossed(t: Seq<i64>, old_total: i64, new_total: i64) -> Option<i64>
    decreases t.len(),
{
    if t.len() == 0 {
        None
    } else if crosses(t[0], old_total, new_total) {
        Some(t[0])
    } else {
        first_crossed(t.drop_first(), old_total, new_total)
    }
}

/// The milestone thresholds, ascending.
pub fn milestone_thresholds() -> (r: Vec<i64>)
    ensures
        r@ == milestone_thresholds_spec(),
{
    let r = vec![100i64, 1000i64, 10000i64, 100000i64, 1000000i64];
    assert(r@ =~= milestone_thresholds_spec());
    r
}

/// Scans `thresholds` in order and returns the first one that moving the
/// total from `old_total` to `new_total` crosses (`old_total < t <= new_total`).
pub fn first_threshold_crossed(thresholds: &[i64], old_total: i64, new_total: i64) -> (r: Option<
    i64,
>)
    ensures
        r == first_crossed(thresholds@, old_total, new_total),
{
    let mut i: usize = 0;
    assert(thresholds@.subrange(0, thresholds@.len() as int) =~= thresholds@);
    while i < thresholds.len()
        invariant
            0 <= i <= thresholds@.len(),
            first_crossed(thresholds@, old_total, new_total) == first_crossed(
                thresholds@.subrange(i as int, thresholds@.len() as int),
                old_total,
                new_total,
            ),
        decreases thresholds@.len() - i,
    {
        let threshold = thresholds[i];
        assert(thresholds@.subrange(i as int + 1, thresholds@.len() as int)
            =~= thresholds@.subrange(i as int, thresholds@.len() as int).drop_first());
        if old_total < threshold && new_total >= threshold {
            return Some(threshold);
        }
        i = i + 1;
    }
    None
}

/// The lowest milestone threshold crossed when cumulative earnings move from
/// `old_total` to `new_total`, if any. Only one threshold is reported per
/// call, even when the move passes several.
pub fn check_milestone_crossed(old_total: i64, new_total: i64) -> (r: Option<i64>)
    ensures
        r == first_crossed(milestone_thresholds_spec(), old_total, new_total),
{
    let thresholds = milestone_thresholds();
    first_threshold_crossed(thresholds.as_slice(), old_total, new_total)
}

/// Over strictly ascending thresholds, the first threshold crossed is the
/// smallest threshold `t` with `old_total < t <= new_total`, and there is
/// none exactly when no threshold lies in that range.
pub proof fn lemma_first_crossed_is_smallest(t: Seq<i64>, old_total: i64, new_total: i64)
    requires
        strictly_ascending(t),
    ensures
        first_crossed(t, old_total, new_total) is None <==> forall|k: int|
            0 <= k < t.len() ==> !crosses(#[trigger] t[k], old_total, new_total),
        first_crossed(t, old_total, new_total) matches Some(v) ==> {
            &&& t.contains(v)
            &&& crosses(v, old_total, new_total)
            &&& forall|k: int|
                0 <= k < t.len() && crosses(#[trigger] t[k], old_total, new_total) ==> v <= t[k]
        },
    decreases t.len(),
{
    if t.len() > 0 {
        let rest = t.drop_first();
        assert(strictly_ascending(rest));
        lemma_first_crossed_is_smallest(rest, old_total, new_total);
        if crosses(t[0], old_total, new_total) {
            assert(t.contains(t[0]));
        } else {
            assert forall|k: int| 0 <= k < t.len() && crosses(#[trigger] t[k], old_total, new_total)
                implies 1 <= k && crosses(rest[k - 1], old_total, new_total) by {}
            if let Some(v) = first_crossed(rest, old_total, new_total) {
                let j = choose|j: int| 0 <= j < rest.len() && rest[j] == v;
                assert(t[j + 1] == v);
            }
        }
    }
}

/// A total that does not move crosses no threshold.
pub proof fn lemma_no_move_no_crossing(t: Seq<i64>, total: i64)
    ensures
        first_crossed(t, total, total) is None,
    decreases t.len(),
{
    if t.len() > 0 {
        lemma_no_move_no_crossing(t.drop_first(), total);
    }
}

/// The milestone thresholds are strictly ascending.
pub proof fn lemma_milestone_thresholds_ascending()
    ensures
        strictly_ascending(milestone_thresholds_spec()),
{
}

} // verus!
