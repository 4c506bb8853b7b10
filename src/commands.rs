use vstd::prelude::*;
use crate::operation::{Operation, apply, lemma_run_ops_push, run_ops};

verus! {

/// Operations on a counter held in a `u64`.
#[derive(Clone, Copy, Debug, PartialEq, Eq, Structural)]
pub enum CounterOp {
    /// Adds one and yields the new value; fails at `u64::MAX`.
    Increment,
    /// Yields the value.
    Get,
}

impl Operation for CounterOp {
    type State = u64;

    type Output = u64;

    open spec fn succeeds(&self, s: u64) -> bool {
        match self {
            CounterOp::Increment => s < u64::MAX,
            CounterOp::Get => true,
        }
    }

    open spec fn next(&self, s: u64) -> u64 {
        match self {
            CounterOp::Increment => (s + 1) as u64,
            CounterOp::Get => s,
        }
    }

    open spec fn result(&self, s: u64) -> u64 {
        match self {
            CounterOp::Increment => (s + 1) as u64,
            CounterOp::Get => s,
        }
    }

    fn execute(self, state: &mut u64) -> (r: Option<u64>) {
        match self {
            CounterOp::Increment => {
                if *state < u64::MAX {
                    *state = *state + 1;
                    Some(*state)
                } else {
                    None
                }
            },
            CounterOp::Get => Some(*state),
        }
    }
}

/// Operations on a list of `u64` held in a `Vec`.
#[derive(Clone, Copy, Debug, PartialEq, Eq, Structural)]
pub enum ListOp {
    /// Appends a value at the end; yields an empty list.
    Append(u64),
    /// Yields a copy of the list.
    Snapshot,
}

impl Operation for ListOp {
    type State = Vec<u64>;

    type Output = Vec<u64>;

    open spec fn succeeds(&self, s: Seq<u64>) -> bool {
        true
    }

    open spec fn next(&self, s: Seq<u64>) -> Seq<u64> {
        match self {
            ListOp::Append(v) => s.push(*v),
            ListOp::Snapshot => s,
        }
    }

    open spec fn result(&self, s: Seq<u64>) -> Seq<u64> {
        match self {
            ListOp::Append(_) => Seq::empty(),
            ListOp::Snapshot => s,
        }
    }

    fn execute(self, state: &mut Vec<u64>) -> (r: Option<Vec<u64>>) {
        match self {
            ListOp::Append(v) => {
                state.push(v);
                Some(Vec::new())
            },
            ListOp::Snapshot => {
                let mut copy: Vec<u64> = Vec::new();
                let mut i: usize = 0;
                while i < state.len()
                    invariant
                        i <= state@.len(),
                        copy@ == state@.subrange(0, i as int),
                    decreases state@.len() - i,
                {
                    copy.push(state[i]);
                    i = i + 1;
                    assert(copy@ =~= state@.subrange(0, i as int));
                }
                assert(copy@ =~= state@);
                Some(copy)
            },
        }
    }
}

/// `n` increments in a row.
pub open spec fn increments(n: nat) -> Seq<CounterOp> {
    Seq::new(n, |i: int| CounterOp::Increment)
}

/// One append for each of `xs`, in the same order.
pub open spec fn appends(xs: Seq<u64>) -> Seq<ListOp> {
    xs.map_values(|x: u64| ListOp::Append(x))
}

/// Appends run in the order they were queued: after appending each of `xs`
/// to `l`, the list is `l` followed by `xs`, and a snapshot yields just that.
pub proof fn lemma_appends_in_order(l: Seq<u64>, xs: Seq<u64>)
    ensures
        run_ops::<ListOp>(l, appends(xs)) == l + xs,
        ListOp::Snapshot.result(run_ops::<ListOp>(l, appends(xs))) == l + xs,
    decreases xs.len(),
{
    if xs.len() == 0 {
        assert(appends(xs) =~= Seq::<ListOp>::empty());
        assert(l + xs =~= l);
    } else {
        let init = xs.drop_last();
        lemma_appends_in_order(l, init);
        assert(appends(xs) =~= appends(init).push(ListOp::Append(xs.last())));
        lemma_run_ops_push::<ListOp>(l, appends(init), ListOp::Append(xs.last()));
        assert((l + init).push(xs.last()) =~= l + xs);
    }
}

/// Increments serialised on one counter lose no update: `n` of them from
/// zero leave exactly `n`.
pub proof fn lemma_increments_count(n: nat)
    requires
        n <= u64::MAX,
    ensures
        run_ops::<CounterOp>(0u64, increments(n)) == n,
    decreases n,
{
    if n > 0 {
        let m = (n - 1) as nat;
        lemma_increments_count(m);
        assert(increments(n) =~= increments(m).push(CounterOp::Increment));
        lemma_run_ops_push::<CounterOp>(0u64, increments(m), CounterOp::Increment);
    } else {
        assert(increments(n) =~= Seq::<CounterOp>::empty());
    }
}

/// On a fresh counter, the increment that follows `n` others yields `n + 1`:
/// the results come out as 1, 2, 3, and so on.
pub proof fn lemma_increment_results(n: nat)
    requires
        n < u64::MAX,
    ensures
        CounterOp::Increment.succeeds(run_ops::<CounterOp>(0u64, increments(n))),
        CounterOp::Increment.result(run_ops::<CounterOp>(0u64, increments(n))) == n + 1,
{
    lemma_increments_count(n);
}

} // verus!
