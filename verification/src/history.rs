//! Counting the changes in a sequence of observations.
use vstd::prelude::*;

verus! {

/// The number of places in `history`, after the first, whose value differs
/// from the one before it.
pub open spec fn changes<T>(history: Seq<T>) -> nat
    decreases history.len(),
{
    if history.len() <= 1 {
        0
    } else {
        let earlier = changes(history.drop_last());
        if history.last() != history[history.len() - 2] {
            earlier + 1
        } else {
            earlier
        }
    }
}

/// One more observation adds a change exactly when it differs from the last
/// one.
pub proof fn lemma_changes_push<T>(history: Seq<T>, value: T)
    requires
        history.len() > 0,
    ensures
        changes(history.push(value)) == changes(history) + if value != history.last() {
            1nat
        } else {
            0nat
        },
{
    assert(history.push(value).drop_last() =~= history);
}

/// A history that repeats one value has no change.
pub proof fn lemma_changes_constant<T>(history: Seq<T>)
    requires
        forall|i: int, j: int| 0 <= i < history.len() && 0 <= j < history.len() ==> history[i] == history[j],
    ensures
        changes(history) == 0,
    decreases history.len(),
{
    if history.len() > 1 {
        lemma_changes_constant(history.drop_last());
    }
}

} // verus!
