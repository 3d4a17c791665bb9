use vstd::prelude::*;

verus! {

/// Where the run loop stands.
#[derive(Clone, Copy, Debug, PartialEq, Eq, Structural)]
pub enum Phase {
    /// Polling the scheduler, or about to (the initial phase).
    Polling,
    /// Halted in the idle hook until an interrupt comes.
    Waiting,
}

/// What the run loop does next.
#[derive(Clone, Copy, Debug, PartialEq, Eq, Structural)]
pub enum Action {
    /// Run every ready task once.
    Poll,
    /// Halt until an interrupt, still inside the critical section.
    WaitForInterrupt,
}

/// What the run loop learns.
#[derive(Clone, Copy, Debug, PartialEq, Eq, Structural)]
pub enum Event {
    /// A poll has finished, and the wake flag, consumed inside the critical
    /// section, reported the value held here.
    Checked(bool),
    /// The idle hook has returned: an interrupt came.
    Woken,
}

/// The phase and action that follow `event` in `phase`: only a flag found
/// clear after a poll leads to an idle; everything else leads to polling.
pub open spec fn next_spec(phase: Phase, event: Event) -> (Phase, Action) {
    if phase == Phase::Polling && event == Event::Checked(false) {
        (Phase::Waiting, Action::WaitForInterrupt)
    } else {
        (Phase::Polling, Action::Poll)
    }
}

/// The action at `i` of `trace` is an idle.
pub open spec fn idles_at(trace: Seq<Action>, i: int) -> bool {
    trace[i] == Action::WaitForInterrupt
}

/// Between any two idles in `trace` there is a poll: the action right after
/// the first of them.
pub open spec fn poll_between_idles(trace: Seq<Action>) -> bool {
    forall|i: int, j: int|
        0 <= i < j < trace.len() && #[trigger] idles_at(trace, i) && #[trigger] idles_at(
            trace,
            j,
        ) ==> i + 1 < j && trace[i + 1] == Action::Poll
}

/// The actions at `i` and `i + 1` of `trace` are both idles.
pub open spec fn idle_pair(trace: Seq<Action>, i: int) -> bool {
    trace[i] == Action::WaitForInterrupt && trace[i + 1] == Action::WaitForInterrupt
}

/// No two neighbours in `trace` are both idles.
pub open spec fn no_idle_pair(trace: Seq<Action>) -> bool {
    forall|i: int| 0 <= i && i + 1 < trace.len() ==> !#[trigger] idle_pair(trace, i)
}

/// The run loop's state machine. It has no terminal state: every event is
/// answered by an action, so the loop that drives it never ends.
pub struct RunLoop {
    phase: Phase,
    trace: Ghost<Seq<Action>>,
}

impl RunLoop {
    /// The current phase.
    pub closed spec fn phase_spec(&self) -> Phase {
        self.phase
    }

    /// Every action that the machine has asked for, in order.
    pub closed spec fn trace(&self) -> Seq<Action> {
        self.trace@
    }

    /// The machine's invariant: it is waiting exactly when its last action
    /// was an idle, and its actions never hold two idles side by side.
    pub open spec fn wf(&self) -> bool {
        &&& (self.phase_spec() == Phase::Waiting) == (self.trace().len() > 0
            && self.trace().last() == Action::WaitForInterrupt)
        &&& no_idle_pair(self.trace())
    }

    /// A machine that is about to poll and has asked for nothing yet.
    pub fn new() -> (r: RunLoop)
        ensures
            r.wf(),
            r.phase_spec() == Phase::Polling,
            r.trace() == Seq::<Action>::empty(),
    {
        RunLoop { phase: Phase::Polling, trace: Ghost(Seq::empty()) }
    }

    /// The current phase.
    pub fn phase(&self) -> (r: Phase)
        ensures
            r == self.phase_spec(),
    {
        self.phase
    }

    /// Takes `event` and answers with the next action.
    pub fn step(&mut self, event: Event) -> (r: Action)
        requires
            old(self).wf(),
        ensures
            final(self).wf(),
            (final(self).phase_spec(), r) == next_spec(old(self).phase_spec(), event),
            final(self).trace() == old(self).trace().push(r),
    {
        let (phase, action) = match (self.phase, event) {
            (Phase::Polling, Event::Checked(false)) => (Phase::Waiting, Action::WaitForInterrupt),
            _ => (Phase::Polling, Action::Poll),
        };
        let ghost before = self.trace@;
        self.phase = phase;
        self.trace = Ghost(self.trace@.push(action));
        proof {
            let after = self.trace@;
            assert forall|i: int| 0 <= i && i + 1 < after.len() implies !#[trigger] idle_pair(
                after,
                i,
            ) by {
                if i + 1 < before.len() {
                    assert(idle_pair(before, i) == idle_pair(after, i));
                }
            }
        }
        action
    }
}

/// The loop never idles twice without polling in between.
pub proof fn lemma_poll_between_idles(m: RunLoop)
    requires
        m.wf(),
    ensures
        poll_between_idles(m.trace()),
{
    let t = m.trace();
    assert forall|i: int, j: int|
        0 <= i < j < t.len() && #[trigger] idles_at(t, i) && #[trigger] idles_at(
            t,
            j,
        ) implies i + 1 < j && t[i + 1] == Action::Poll by {
        lemma_poll_follows_idle(t, i);
    }
}

proof fn lemma_poll_follows_idle(t: Seq<Action>, i: int)
    requires
        no_idle_pair(t),
        0 <= i,
        i + 1 < t.len(),
        t[i] == Action::WaitForInterrupt,
    ensures
        t[i + 1] == Action::Poll,
{
    assert(!idle_pair(t, i));
}

} // verus!
