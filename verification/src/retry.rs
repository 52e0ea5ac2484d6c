//! Choosing among retry attempts, and the status that a retried row gets.
//!
//! Each attempt is seen through the change in overall quality that it
//! brought, rounded to ten-thousandths and counted in ten-thousandths; an
//! attempt that failed, or whose change is not a number, has none.
use vstd::prelude::*;

use crate::text::owned;

verus! {

/// Whether attempt `i` is the first among those with a change that has the
/// largest change.
pub open spec fn is_first_best(d: Seq<Option<i64>>, i: int) -> bool {
    &&& 0 <= i < d.len()
    &&& d[i] is Some
    &&& forall|j: int| 0 <= j < d.len() && d[j] is Some ==> d[j]->0 <= d[i]->0
    &&& forall|j: int| 0 <= j < i && d[j] is Some ==> d[j]->0 < d[i]->0
}

/// Whether attempt `i` is the first among those that improved quality with
/// the largest improvement.
pub open spec fn is_first_best_gain(d: Seq<Option<i64>>, i: int) -> bool {
    &&& 0 <= i < d.len()
    &&& d[i] matches Some(v) && v > 0
    &&& forall|j: int| 0 <= j < d.len() && d[j] is Some && d[j]->0 > 0 ==> d[j]->0 <= d[i]->0
    &&& forall|j: int| 0 <= j < i && d[j] is Some && d[j]->0 > 0 ==> d[j]->0 < d[i]->0
}

/// Whether some attempt has a change.
pub open spec fn any_change(d: Seq<Option<i64>>) -> bool {
    exists|j: int| 0 <= j < d.len() && #[trigger] d[j] is Some
}

/// Whether some attempt improved quality.
pub open spec fn any_gain(d: Seq<Option<i64>>) -> bool {
    exists|j: int| 0 <= j < d.len() && #[trigger] d[j] is Some && d[j]->0 > 0
}

/// The best attempt (the first with the largest change) and the selected
/// attempt (the first with the largest improvement, if any attempt
/// improved quality).
pub fn select_retry(deltas: &Vec<Option<i64>>) -> (r: (Option<usize>, Option<usize>))
    ensures
        r.0 is None <==> !any_change(deltas@),
        r.0 matches Some(b) ==> is_first_best(deltas@, b as int),
        r.1 is None <==> !any_gain(deltas@),
        r.1 matches Some(s) ==> is_first_best_gain(deltas@, s as int),
{
    let n = deltas.len();
    let mut best: Option<usize> = None;
    let mut selected: Option<usize> = None;
    for i in 0..n
        invariant
            n == deltas@.len(),
            best is None <==> !any_change(deltas@.take(i as int)),
            best matches Some(b) ==> is_first_best(deltas@.take(i as int), b as int),
            selected is None <==> !any_gain(deltas@.take(i as int)),
            selected matches Some(s) ==> is_first_best_gain(deltas@.take(i as int), s as int),
    {
        let ghost pre = deltas@.take(i as int);
        let ghost cur = deltas@.take(i + 1);
        assert(forall|j: int| 0 <= j < i ==> cur[j] == pre[j]);
        assert(cur[i as int] == deltas@[i as int]);
        if let Some(v) = deltas[i] {
            let better = match best {
                None => true,
                Some(b) => match deltas[b] {
                    Some(bv) => bv < v,
                    None => true,
                },
            };
            if better {
                best = Some(i);
            }
            let gain_better = v > 0 && match selected {
                None => true,
                Some(s) => match deltas[s] {
                    Some(sv) => sv < v,
                    None => true,
                },
            };
            if gain_better {
                selected = Some(i);
            }
            assert(any_change(cur)) by {
                assert(cur[i as int] is Some);
            }
            if v > 0 {
                assert(any_gain(cur)) by {
                    assert(cur[i as int] is Some && cur[i as int]->0 > 0);
                }
            }
        } else {
            proof {
                if any_change(cur) {
                    let j = choose|j: int| 0 <= j < cur.len() && #[trigger] cur[j] is Some;
                    assert(pre[j] is Some);
                }
                if any_gain(cur) {
                    let j = choose|j: int|
                        0 <= j < cur.len() && #[trigger] cur[j] is Some && cur[j]->0 > 0;
                    assert(pre[j] is Some);
                }
            }
        }
        proof {
            if any_gain(pre) {
                let j = choose|j: int|
                    0 <= j < pre.len() && #[trigger] pre[j] is Some && pre[j]->0 > 0;
                assert(cur[j] is Some);
            }
            if any_change(pre) {
                let j = choose|j: int| 0 <= j < pre.len() && #[trigger] pre[j] is Some;
                assert(cur[j] is Some);
            }
        }
    }
    assert(deltas@.take(n as int) =~= deltas@);
    (best, selected)
}

/// An attempt is selected exactly when the best attempt improved quality,
/// and then the selected attempt is the best one.
pub proof fn lemma_selected_is_best_gain(d: Seq<Option<i64>>, b: int, s: int)
    requires
        is_first_best(d, b),
    ensures
        any_gain(d) <==> d[b]->0 > 0,
        is_first_best_gain(d, s) ==> s == b,
        d[b]->0 > 0 ==> is_first_best_gain(d, b),
{
    if any_gain(d) {
        let j = choose|j: int| 0 <= j < d.len() && #[trigger] d[j] is Some && d[j]->0 > 0;
        assert(d[j]->0 <= d[b]->0);
    }
    if d[b]->0 > 0 {
        assert(d[b] is Some && d[b]->0 > 0);
    }
    if is_first_best_gain(d, s) {
        assert(d[s]->0 <= d[b]->0);
        assert(d[b]->0 <= d[s]->0);
        if s < b {
            assert(d[s]->0 < d[b]->0);
        }
        if b < s {
            assert(d[b]->0 < d[s]->0);
        }
    }
}

/// The status of a retried row: `missing_source` when its source image is
/// unknown or gone; otherwise `improved` when an attempt was selected,
/// `no_gain` when some attempt gave a change but none improved, and
/// `attempt_failed` or `not_available` when no attempt gave a change, by
/// whether any attempt was made.
pub open spec fn spec_retry_status(source_known: bool, source_exists: bool, d: Seq<Option<i64>>) -> Seq<
    char,
> {
    if !source_known || !source_exists {
        "missing_source"@
    } else if any_gain(d) {
        "improved"@
    } else if any_change(d) {
        "no_gain"@
    } else if d.len() > 0 {
        "attempt_failed"@
    } else {
        "not_available"@
    }
}

/// The status of a retried row, from its source path, whether that source
/// exists, and the changes of the attempts made.
pub fn retry_status(source_relative_path: &str, source_exists: bool, deltas: &Vec<Option<i64>>) -> (r:
    String)
    ensures
        r@ == spec_retry_status(source_relative_path@.len() > 0, source_exists, deltas@),
{
    if source_relative_path.unicode_len() == 0 || !source_exists {
        return owned("missing_source");
    }
    let (best, selected) = select_retry(deltas);
    if selected.is_some() {
        owned("improved")
    } else if best.is_some() {
        owned("no_gain")
    } else if deltas.len() > 0 {
        owned("attempt_failed")
    } else {
        owned("not_available")
    }
}

/// The lengths of the status words, which tell them apart.
proof fn lemma_status_spellings()
    ensures
        "missing_source"@.len() == 14,
        "missing_source"@[0] == 'm',
        "attempt_failed"@[0] == 'a',
        "improved"@.len() == 8,
        "no_gain"@.len() == 7,
        "attempt_failed"@.len() == 14,
        "not_available"@.len() == 13,
{
    reveal_strlit("missing_source");
    reveal_strlit("improved");
    reveal_strlit("no_gain");
    reveal_strlit("attempt_failed");
    reveal_strlit("not_available");
}

/// Which status a retried row gets: `missing_source` exactly when its source
/// is unknown or gone; otherwise `improved` exactly when some attempt
/// improved quality, `no_gain` exactly when attempts gave changes but none
/// improved, `attempt_failed` exactly when attempts were made and none gave
/// a change, and `not_available` exactly when no attempt was made.
pub proof fn lemma_retry_status_rules(source_known: bool, source_exists: bool, d: Seq<Option<i64>>)
    ensures
        ({
            let st = spec_retry_status(source_known, source_exists, d);
            let ok = source_known && source_exists;
            &&& st == "missing_source"@ <==> !ok
            &&& st == "improved"@ <==> ok && any_gain(d)
            &&& st == "no_gain"@ <==> ok && !any_gain(d) && any_change(d)
            &&& st == "attempt_failed"@ <==> ok && !any_change(d) && d.len() > 0
            &&& st == "not_available"@ <==> ok && d.len() == 0
        }),
{
    lemma_status_spellings();
    if d.len() == 0 {
        assert(!any_change(d));
        assert(!any_gain(d));
    }
    if any_gain(d) {
        let j = choose|j: int| 0 <= j < d.len() && #[trigger] d[j] is Some && d[j]->0 > 0;
        assert(d[j] is Some);
        assert(any_change(d));
    }
}

} // verus!
