use vstd::prelude::*;

verus! {

/// The least index in `[i, n)` that satisfies `pred`.
pub open spec fn first_from(i: int, n: int, pred: spec_fn(int) -> bool) -> Option<int>
    decreases n - i,
{
    if i >= n {
        None
    } else if pred(i) {
        Some(i)
    } else {
        first_from(i + 1, n, pred)
    }
}

/// The greatest index in `[0, n)` that satisfies `pred`.
pub open spec fn last_below(n: int, pred: spec_fn(int) -> bool) -> Option<int>
    decreases n,
{
    if n <= 0 {
        None
    } else if pred(n - 1) {
        Some(n - 1)
    } else {
        last_below(n - 1, pred)
    }
}

/// What `last_below` finds: an index that satisfies `pred`, above which none
/// does; and it finds one whenever some index below `n` satisfies `pred`.
pub proof fn lemma_last_below(n: int, pred: spec_fn(int) -> bool)
    ensures
        match last_below(n, pred) {
            Some(k) => 0 <= k < n && pred(k) && forall|j: int| k < j < n ==> !#[trigger] pred(j),
            None => forall|j: int| 0 <= j < n ==> !#[trigger] pred(j),
        },
    decreases n,
{
    if n > 0 && !pred(n - 1) {
        lemma_last_below(n - 1, pred);
    }
}

/// What `first_from` finds: an index that satisfies `pred`, below which none
/// does; and it finds one whenever some index in `[i, n)` satisfies `pred`.
pub proof fn lemma_first_from(i: int, n: int, pred: spec_fn(int) -> bool)
    ensures
        match first_from(i, n, pred) {
            Some(k) => i <= k < n && pred(k) && forall|j: int| i <= j < k ==> !#[trigger] pred(j),
            None => forall|j: int| i <= j < n ==> !#[trigger] pred(j),
        },
    decreases n - i,
{
    if i < n && !pred(i) {
        lemma_first_from(i + 1, n, pred);
    }
}

} // verus!
