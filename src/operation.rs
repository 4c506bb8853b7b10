use vstd::prelude::*;

verus! {

/// A unit of work against an actor's state.
///
/// Its meaning is given over the view of the state: an operation either
/// succeeds, moving the state to `next` and yielding `result`, or fails and
/// leaves the state exactly as it found it, so that no caller can observe a
/// half-applied change.
pub trait Operation: Sized {
    /// The state the operation works on.
    type State: View;

    /// What a successful run yields.
    type Output: View;

    /// Whether the operation succeeds on a state with view `s`.
    spec fn succeeds(&self, s: <Self::State as View>::V) -> bool;

    /// The view of the state after a successful run from `s`.
    spec fn next(&self, s: <Self::State as View>::V) -> <Self::State as View>::V;

    /// The view of the value that a successful run from `s` yields.
    spec fn result(&self, s: <Self::State as View>::V) -> <Self::Output as View>::V;

    /// Runs the operation with exclusive access to the state.
    fn execute(self, state: &mut Self::State) -> (r: Option<Self::Output>)
        ensures
            self.succeeds(old(state)@) ==> final(state)@ == self.next(old(state)@) && r is Some
                && r->Some_0@ == self.result(old(state)@),
            !self.succeeds(old(state)@) ==> final(state)@ == old(state)@ && r is None,
    ;
}

/// The view of the state after running `op` from `s`, whether it succeeds or not.
pub open spec fn apply<Op: Operation>(op: Op, s: <Op::State as View>::V) -> <Op::State as View>::V {
    if op.succeeds(s) {
        op.next(s)
    } else {
        s
    }
}

/// The view of the state after running `ops` from `s`, first to last.
pub open spec fn run_ops<Op: Operation>(s: <Op::State as View>::V, ops: Seq<Op>) -> <Op::State as View>::V
    decreases ops.len(),
{
    if ops.len() == 0 {
        s
    } else {
        apply::<Op>(ops.last(), run_ops::<Op>(s, ops.drop_last()))
    }
}

/// Running one more operation is applying it to the state the earlier ones left.
pub proof fn lemma_run_ops_push<Op: Operation>(s: <Op::State as View>::V, ops: Seq<Op>, op: Op)
    ensures
        run_ops::<Op>(s, ops.push(op)) == apply::<Op>(op, run_ops::<Op>(s, ops)),
{
    assert(ops.push(op).drop_last() =~= ops);
}

/// The owner of an actor's state.
///
/// It runs operations one at a time and keeps, as ghost data, the state it
/// started from and every operation it has run, in order. Its invariant is
/// that the state is exactly the start state with those operations applied
/// in that order: nothing else ever reaches the state.
pub struct Executor<Op: Operation> {
    state: Op::State,
    initial: Ghost<<Op::State as View>::V>,
    history: Ghost<Seq<Op>>,
}

impl<Op: Operation> Executor<Op> {
    /// The view of the state the executor was created with.
    pub closed spec fn initial(&self) -> <Op::State as View>::V {
        self.initial@
    }

    /// The operations run so far, oldest first.
    pub closed spec fn history(&self) -> Seq<Op> {
        self.history@
    }

    /// The view of the current state.
    pub closed spec fn current(&self) -> <Op::State as View>::V {
        self.state@
    }

    /// The current state is the initial one with the history applied in order.
    pub open spec fn wf(&self) -> bool {
        self.current() == run_ops::<Op>(self.initial(), self.history())
    }

    /// Takes ownership of `state`; runs nothing.
    pub fn new(state: Op::State) -> (r: Self)
        ensures
            r.wf(),
            r.initial() == state@,
            r.current() == state@,
            r.history() == Seq::<Op>::empty(),
    {
        let ghost v = state@;
        Executor { state, initial: Ghost(v), history: Ghost(Seq::empty()) }
    }

    /// Runs `op` on the state and records it.
    ///
    /// Returns `None` exactly when the operation fails, in which case the
    /// state is unchanged.
    pub fn run(&mut self, op: Op) -> (r: Option<Op::Output>)
        requires
            old(self).wf(),
        ensures
            final(self).wf(),
            final(self).initial() == old(self).initial(),
            final(self).history() == old(self).history().push(op),
            final(self).current() == apply::<Op>(op, old(self).current()),
            op.succeeds(old(self).current()) <==> r is Some,
            r is Some ==> r->Some_0@ == op.result(old(self).current()),
    {
        let ghost g = op;
        let r = op.execute(&mut self.state);
        proof {
            lemma_run_ops_push::<Op>(self.initial@, self.history@, g);
            self.history@ = self.history@.push(g);
        }
        r
    }
}

} // verus!
