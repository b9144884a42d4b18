//! What holds of the count over a whole run of writes.
//!
//! A run is described by the states the wrapper passes through and by the
//! outcomes of the writes between them: each write takes the wrapper from one
//! state to the next and moves the count as the write operations promise.

use crate::{confirmed, CountWrite};
use vstd::prelude::*;

verus! {

/// The sum of the byte counts in `written`.
pub open spec fn sum(written: Seq<usize>) -> nat
    decreases written.len(),
{
    if written.len() == 0 {
        0
    } else {
        sum(written.drop_last()) + written.last() as nat
    }
}

/// The number of bytes that a run of write outcomes confirms altogether.
pub open spec fn confirmed_total<E>(outcomes: Seq<Result<usize, E>>) -> nat
    decreases outcomes.len(),
{
    if outcomes.len() == 0 {
        0
    } else {
        confirmed_total(outcomes.drop_last()) + confirmed(outcomes.last())
    }
}

/// Holds when `states` are the states of one wrapper before, between and
/// after a run of writes with the given `outcomes`, in order.
pub open spec fn is_run<W, E>(states: Seq<CountWrite<W>>, outcomes: Seq<Result<usize, E>>) -> bool {
    &&& states.len() == outcomes.len() + 1
    &&& forall|i: int|
        0 <= i < outcomes.len() ==> (#[trigger] states[i + 1]).count() == states[i].count()
            + confirmed(outcomes[i])
}

/// Over any run of writes, successful or not, the count grows by exactly the
/// bytes that the outcomes confirm.
pub proof fn lemma_count_grows_by_confirmed<W, E>(
    states: Seq<CountWrite<W>>,
    outcomes: Seq<Result<usize, E>>,
)
    requires
        is_run(states, outcomes),
    ensures
        states.last().count() == states.first().count() + confirmed_total(outcomes),
    decreases outcomes.len(),
{
    if outcomes.len() > 0 {
        let k: int = outcomes.len() - 1;
        assert(states[k + 1].count() == states[k].count() + confirmed(outcomes[k]));
        lemma_count_grows_by_confirmed(states.drop_last(), outcomes.drop_last());
    }
}

/// After a run of successful writes on a fresh wrapper, the count is the sum
/// of the byte counts that the writes returned.
pub proof fn lemma_count_is_sum_of_writes<W, E>(
    states: Seq<CountWrite<W>>,
    written: Seq<usize>,
)
    requires
        states.first().count() == 0,
        is_run(states, written.map_values(|n: usize| Ok::<usize, E>(n))),
    ensures
        states.last().count() == sum(written),
{
    let outcomes = written.map_values(|n: usize| Ok::<usize, E>(n));
    lemma_count_grows_by_confirmed(states, outcomes);
    lemma_successes_confirm_their_sum::<E>(written);
}

/// A run of successes confirms the sum of the byte counts returned.
pub proof fn lemma_successes_confirm_their_sum<E>(written: Seq<usize>)
    ensures
        confirmed_total(written.map_values(|n: usize| Ok::<usize, E>(n))) == sum(written),
    decreases written.len(),
{
    let outcomes = written.map_values(|n: usize| Ok::<usize, E>(n));
    if written.len() > 0 {
        lemma_successes_confirm_their_sum::<E>(written.drop_last());
        assert(outcomes.drop_last() == written.drop_last().map_values(
            |n: usize| Ok::<usize, E>(n),
        ));
    }
}

/// The count never decreases: at every later state of a run it is at least
/// what it was at any earlier one.
pub proof fn lemma_count_never_decreases<W, E>(
    states: Seq<CountWrite<W>>,
    outcomes: Seq<Result<usize, E>>,
    earlier: int,
    later: int,
)
    requires
        is_run(states, outcomes),
        0 <= earlier <= later < states.len(),
    ensures
        states[earlier].count() <= states[later].count(),
    decreases later - earlier,
{
    if earlier < later {
        lemma_count_never_decreases(states, outcomes, earlier, later - 1);
        assert(states[later - 1 + 1].count() == states[later - 1].count() + confirmed(
            outcomes[later - 1],
        ));
    }
}

} // verus!
