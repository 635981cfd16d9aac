use vstd::prelude::*;

verus! {

/// A state key of a closed, finite state set.
///
/// Each key has a dense ordinal; the machine keeps its handlers in a table
/// indexed by that ordinal, so a lookup is a single index.
pub trait FsmKey: Sized + Copy {
    /// The position of this key in a handler table.
    spec fn ordinal_spec(&self) -> nat;

    fn ordinal(&self) -> (r: usize)
        ensures
            r as nat == self.ordinal_spec(),
    ;
}

/// The handler of one state: a transition rule and two lifecycle hooks,
/// all working on a context `D` that the caller supplies on each step.
pub trait FsmState<K, D>: Sized {
    /// The state to move to from this one, given the context; `None` for no move.
    spec fn next_spec(&self, data: D) -> Option<K>;

    /// Whether this state's enter hook may turn the context `before` into `after`.
    spec fn entered(&self, before: D, after: D) -> bool;

    /// Whether this state's exit hook may turn the context `before` into `after`.
    spec fn exited(&self, before: D, after: D) -> bool;

    fn enter(&self, data: &mut D)
        ensures
            self.entered(*old(data), *final(data)),
    ;

    fn next_state(&self, data: &D) -> (r: Option<K>)
        ensures
            r == self.next_spec(*data),
    ;

    fn exit(&self, data: &mut D)
        ensures
            self.exited(*old(data), *final(data)),
    ;
}

/// A finite state machine: the current state and a fixed table of handlers,
/// one for every state.
pub struct Fsm<K: FsmKey, H> {
    current_state: K,
    states: Vec<H>,
}

impl<K: FsmKey, H> Fsm<K, H> {
    /// The state the machine is in.
    pub closed spec fn state(&self) -> K {
        self.current_state
    }

    /// The handler table, indexed by ordinal.
    pub closed spec fn handlers(&self) -> Seq<H> {
        self.states@
    }

    /// The handler that the table holds for `k`.
    pub open spec fn handler_of(&self, k: K) -> H {
        self.handlers()[k.ordinal_spec() as int]
    }

    /// A table that covers every state.
    pub open spec fn covers_all(states: Seq<H>) -> bool {
        forall|k: K| #[trigger] k.ordinal_spec() < states.len()
    }

    #[verifier::type_invariant]
    spec fn inv(&self) -> bool {
        Self::covers_all(self.states@)
    }

    /// A machine positioned at `init_state`, with `states` as its handler table.
    pub fn new(init_state: K, states: Vec<H>) -> (r: Self)
        requires
            Self::covers_all(states@),
        ensures
            r.state() == init_state,
            r.handlers() == states@,
    {
        Fsm { current_state: init_state, states }
    }

    /// The state the machine is in.
    pub fn current_state(&self) -> (r: K)
        ensures
            r == self.state(),
    {
        self.current_state
    }

    /// The exit hook of `m`'s current state, then the enter hook of `next`,
    /// take the context from `before` to `after`.
    pub open spec fn hooks_ran<D>(m: Self, next: K, before: D, after: D) -> bool
        where
            H: FsmState<K, D>,
    {
        exists|mid: D|
            {
                &&& #[trigger] m.handler_of(m.state()).exited(before, mid)
                &&& m.handler_of(next).entered(mid, after)
            }
    }

    /// What one step does: from machine `m` and context `before` to machine
    /// `m2` and context `after`. The table never changes. Where the current
    /// state's rule gives no next state, nothing else does either; where it
    /// gives one, the hooks run and the machine moves to it.
    pub open spec fn stepped<D>(m: Self, m2: Self, before: D, after: D) -> bool
        where
            H: FsmState<K, D>,
    {
        &&& m2.handlers() == m.handlers()
        &&& match m.handler_of(m.state()).next_spec(before) {
            None => m2.state() == m.state() && after == before,
            Some(next) => m2.state() == next && Self::hooks_ran(m, next, before, after),
        }
    }

    /// Leaves the current state and enters `new_state`: the exit hook of the
    /// current state runs, then the enter hook of `new_state`.
    fn set_state<D>(&mut self, new_state: K, data: &mut D)
        where
            H: FsmState<K, D>,
        ensures
            final(self).state() == new_state,
            final(self).handlers() == old(self).handlers(),
            Self::hooks_ran(*old(self), new_state, *old(data), *final(data)),
    {
        proof {
            use_type_invariant(&*self);
        }
        self.states[self.current_state.ordinal()].exit(data);
        let ghost mid = *data;
        self.states[new_state.ordinal()].enter(data);
        self.current_state = new_state;
        assert(old(self).handler_of(old(self).state()).exited(*old(data), mid));
    }

    /// One step: asks the current state's handler for the next state and, if
    /// there is one, runs the exit hook of the current state, then the enter
    /// hook of the next, and moves to it. With no next state nothing runs and
    /// nothing changes.
    pub fn shift<D>(&mut self, data: &mut D)
        where
            H: FsmState<K, D>,
        ensures
            Self::stepped(*old(self), *final(self), *old(data), *final(data)),
    {
        proof {
            use_type_invariant(&*self);
        }
        let next = self.states[self.current_state.ordinal()].next_state(data);
        if let Some(next_state) = next {
            self.set_state(next_state, data);
        }
    }
}

} // verus!
