//! Shutdown coordination: the registry of stop actions that a termination
//! signal sets off.

use vstd::prelude::*;

verus! {

/// The signals that end the process. Each sets off the same shutdown.
#[derive(Clone, Copy, Debug, PartialEq, Eq, Structural)]
pub enum TerminationSignal {
    Hangup,
    Terminate,
    Interrupt,
    Quit,
}

/// The stop actions that the subsystems registered at startup, in the order
/// of registration. An action is a value of the caller's choosing; the
/// registry decides when it is due and hands it out to be run.
pub struct StopRegistry<A> {
    pending: Vec<A>,
}

impl<A> View for StopRegistry<A> {
    type V = Seq<A>;

    /// The actions that have not been handed out, in the order of
    /// registration.
    closed spec fn view(&self) -> Seq<A> {
        self.pending@
    }
}

impl<A> StopRegistry<A> {
    /// A registry without actions.
    pub fn new() -> (registry: StopRegistry<A>)
        ensures
            registry@ == Seq::<A>::empty(),
    {
        StopRegistry { pending: Vec::new() }
    }

    /// The number of actions that have not been handed out.
    pub fn len(&self) -> (n: usize)
        ensures
            n == self@.len(),
    {
        self.pending.len()
    }

    /// Registers `action` behind the actions registered before.
    pub fn register(&mut self, action: A)
        ensures
            final(self)@ == old(self)@.push(action),
    {
        self.pending.push(action);
    }

    /// Sets off the shutdown: hands out every registered action, in the order
    /// of registration, for the caller to run. The registry is empty
    /// afterwards, so that no action is handed out a second time.
    pub fn trigger(&mut self) -> (due: Vec<A>)
        ensures
            due@ == signalled(old(self)@).due,
            final(self)@ == signalled(old(self)@).left,
    {
        let mut due: Vec<A> = Vec::new();
        std::mem::swap(&mut self.pending, &mut due);
        due
    }

    /// Takes a termination signal. Whichever signal it is, the shutdown is
    /// set off as by [`StopRegistry::trigger`].
    pub fn on_signal(&mut self, signal: TerminationSignal) -> (due: Vec<A>)
        ensures
            due@ == signalled(old(self)@).due,
            final(self)@ == signalled(old(self)@).left,
    {
        self.trigger()
    }
}

/// What one termination signal does to a registry.
pub ghost struct Signalled<A> {
    /// The actions handed out to be run.
    pub due: Seq<A>,
    /// The actions that the registry holds afterwards.
    pub left: Seq<A>,
}

/// What a termination signal does to a registry that holds `pending`: every
/// action is handed out, in the order of registration, and none is left.
pub open spec fn signalled<A>(pending: Seq<A>) -> Signalled<A> {
    Signalled { due: pending, left: Seq::empty() }
}

/// The actions handed out, one after the other, by `signals` termination
/// signals to a registry that holds `pending`: each signal hands out what
/// [`StopRegistry::on_signal`] hands out of what the signal before it left.
pub open spec fn handed_out<A>(pending: Seq<A>, signals: nat) -> Seq<A>
    decreases signals,
{
    if signals == 0 {
        Seq::empty()
    } else {
        signalled(pending).due + handed_out(signalled(pending).left, (signals - 1) as nat)
    }
}

/// However many termination signals arrive, if any does, every registered
/// action is handed out exactly once, in the order of registration.
pub proof fn law_actions_run_once<A>(pending: Seq<A>, signals: nat)
    requires
        signals >= 1,
    ensures
        handed_out(pending, signals) == pending,
{
    lemma_nothing_left::<A>((signals - 1) as nat);
    assert(pending + Seq::<A>::empty() =~= pending);
}

proof fn lemma_nothing_left<A>(signals: nat)
    ensures
        handed_out(Seq::<A>::empty(), signals) == Seq::<A>::empty(),
    decreases signals,
{
    if signals > 0 {
        lemma_nothing_left::<A>((signals - 1) as nat);
        assert(Seq::<A>::empty() + Seq::<A>::empty() =~= Seq::<A>::empty());
    }
}

} // verus!
