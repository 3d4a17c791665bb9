use crate::run_loop::{Action, Event, Phase, RunLoop};
use crate::wake::WakeFlag;
use vstd::prelude::*;

verus! {

/// The scheduler that owns the ready queue and task storage.
///
/// Whenever an interrupt makes a suspended task runnable, the scheduler (or
/// the interrupt handler on its behalf) calls [`WakeFlag::signal`] on the flag
/// that the executor was built with.
pub trait Scheduler {
    /// Runs every currently ready task to its next suspension point. Never
    /// blocks.
    fn poll_once(&mut self);
}

/// The target's way to halt the processor until an interrupt comes.
///
/// An implementation that returns at once (a spin) is a permitted fallback,
/// but saves no power.
///
/// The hook is called inside the critical section, right after the wake flag
/// was found clear. No wake is lost only where the hardware defers interrupts
/// taken in the critical section until the halt instruction is reached. On a
/// target where it does not (one that cannot clear its low-power bit before
/// the halt), a signal that lands between the check and the halt waits for
/// the next interrupt: a property of the target that no software here closes.
pub trait IdleHook {
    /// Halts until any interrupt occurs, then returns. Changes nothing but
    /// the time.
    fn wait_for_interrupt(&mut self);
}

/// A cooperative executor: a scheduler, an idle hook, the wake flag that
/// interrupts set, and the run-loop state machine that decides between
/// polling again and idling.
///
/// At most one executor may run per core: the run loop takes it by `&mut`.
pub struct Executor<'a, S, H> {
    scheduler: S,
    idle: H,
    flag: &'a WakeFlag,
    run_loop: RunLoop,
}

impl<'a, S: Scheduler, H: IdleHook> Executor<'a, S, H> {
    /// Every action that the run loop has decided on, in order.
    pub closed spec fn trace(&self) -> Seq<Action> {
        self.run_loop.trace()
    }

    /// The flag that the executor consults.
    pub closed spec fn flag_spec(&self) -> &'a WakeFlag {
        self.flag
    }

    /// Between two cycles the run loop is well formed and about to poll.
    pub closed spec fn wf(&self) -> bool {
        &&& self.run_loop.wf()
        &&& self.run_loop.phase_spec() == Phase::Polling
    }

    /// An executor over `scheduler` and `idle` that consults `flag`; it has
    /// decided nothing yet.
    pub fn new(scheduler: S, idle: H, flag: &'a WakeFlag) -> (r: Self)
        ensures
            r.wf(),
            r.trace() == Seq::<Action>::empty(),
            r.flag_spec() == flag,
    {
        Executor { scheduler, idle, flag, run_loop: RunLoop::new() }
    }

    /// The scheduler, to hand out spawn capabilities before the loop starts.
    pub fn scheduler(&self) -> &S {
        &self.scheduler
    }

    /// The second half of a cycle, run inside the critical section: consume
    /// the flag; if it was clear, idle until an interrupt. Returns whether it
    /// idled.
    fn check_and_idle(&mut self) -> (idled: bool)
        requires
            old(self).wf(),
        ensures
            final(self).wf(),
            final(self).flag_spec() == old(self).flag_spec(),
            idled ==> final(self).trace() == old(self).trace().push(
                Action::WaitForInterrupt,
            ).push(Action::Poll),
            !idled ==> final(self).trace() == old(self).trace().push(Action::Poll),
    {
        let signalled = self.flag.consume_if_set();
        let action = self.run_loop.step(Event::Checked(signalled));
        match action {
            Action::WaitForInterrupt => {
                self.idle.wait_for_interrupt();
                self.run_loop.step(Event::Woken);
                true
            },
            Action::Poll => false,
        }
    }

    /// One cycle of the run loop: poll the scheduler, then, inside the
    /// critical section, consume the wake flag and idle if it was clear.
    /// Returns whether the cycle idled.
    ///
    /// The cycle records the poll that comes next, directly after a set flag
    /// or after the idle, so the record never holds two idles without a poll
    /// between them.
    pub fn run_cycle(&mut self) -> (idled: bool)
        requires
            old(self).wf(),
        ensures
            final(self).wf(),
            final(self).flag_spec() == old(self).flag_spec(),
            idled ==> final(self).trace() == old(self).trace().push(
                Action::WaitForInterrupt,
            ).push(Action::Poll),
            !idled ==> final(self).trace() == old(self).trace().push(Action::Poll),
    {
        self.scheduler.poll_once();
        in_critical_section(self)
    }
}

/// Relies on `critical_section::with`: it runs the closure exactly once,
/// inside a critical section, and returns what the closure returned.
#[verifier::external_body]
fn in_critical_section<'a, S: Scheduler, H: IdleHook>(exec: &mut Executor<'a, S, H>) -> (idled:
    bool)
    requires
        old(exec).wf(),
    ensures
        final(exec).wf(),
        final(exec).flag_spec() == old(exec).flag_spec(),
        idled ==> final(exec).trace() == old(exec).trace().push(Action::WaitForInterrupt).push(
            Action::Poll,
        ),
        !idled ==> final(exec).trace() == old(exec).trace().push(Action::Poll),
{
    critical_section::with(|_| exec.check_and_idle())
}

/// The run loop of an executor never idles twice without polling in between.
pub proof fn lemma_executor_polls_between_idles<'a, S: Scheduler, H: IdleHook>(
    exec: &Executor<'a, S, H>,
)
    requires
        exec.wf(),
    ensures
        crate::run_loop::poll_between_idles(exec.trace()),
{
    crate::run_loop::lemma_poll_between_idles(exec.run_loop);
}

} // verus!
