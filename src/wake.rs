use atomic_polyfill::{AtomicBool, Ordering};
use vstd::prelude::*;

verus! {

/// One operation on a wake flag, in the order in which the operations took
/// effect (any interleaving of interrupt and run-loop calls takes effect as
/// some such order, since each operation is one atomic step on the flag).
#[derive(Clone, Copy, Debug, PartialEq, Eq, Structural)]
pub enum FlagOp {
    /// `signal()`: sets the flag.
    Signal,
    /// `consume_if_set()`: reports the flag and clears it.
    Consume,
}

/// The flag's level after `op` is applied to a flag at `level`.
pub open spec fn level_step(level: bool, op: FlagOp) -> bool {
    match op {
        FlagOp::Signal => true,
        FlagOp::Consume => false,
    }
}

/// What `op` reports when applied to a flag at `level` (a signal reports
/// nothing, written `false`).
pub open spec fn step_report(level: bool, op: FlagOp) -> bool {
    match op {
        FlagOp::Signal => false,
        FlagOp::Consume => level,
    }
}

/// The flag's level after `ops`, applied in order to a flag at `init`.
pub open spec fn level_after(init: bool, ops: Seq<FlagOp>) -> bool
    decreases ops.len(),
{
    if ops.len() == 0 {
        init
    } else {
        level_step(level_after(init, ops.drop_last()), ops.last())
    }
}

/// What the operation at index `j` of `ops` reports, `ops` being applied in
/// order to a flag at `init`.
pub open spec fn report_at(init: bool, ops: Seq<FlagOp>, j: int) -> bool {
    step_report(level_after(init, ops.take(j)), ops[j])
}

/// A wake flag: interrupt contexts set it with [`WakeFlag::signal`], the run
/// loop tests and clears it with [`WakeFlag::consume_if_set`].
///
/// Each operation is one atomic step on the flag, with sequentially consistent
/// ordering, so every interleaving of calls takes effect as some sequence of
/// [`FlagOp`] steps, which [`level_after`] and [`report_at`] describe.
/// The flag is a level, not a counter: signals that come before one consume
/// are seen once.
///
/// What a call reports depends on interrupts that Verus does not see, so the
/// methods state nothing of it; the laws below state what holds of every
/// sequence of steps.
pub struct WakeFlag {
    cell: AtomicBool,
}

impl WakeFlag {
    /// A flag that is clear.
    pub fn new() -> (r: WakeFlag) {
        WakeFlag { cell: AtomicBool::new(false) }
    }

    /// Sets the flag. Never blocks and never fails; safe to call from any
    /// interrupt context, nested ones included.
    pub fn signal(&self) {
        self.cell.store(true, Ordering::SeqCst);
    }

    /// Reports whether the flag was set and, if it was, clears it.
    ///
    /// Meant for the run loop alone, inside its critical section: interrupts
    /// only ever set the flag, so a signal that lands between the read and the
    /// clear is one that the read has already reported.
    pub fn consume_if_set(&self) -> (r: bool) {
        let seen = self.cell.load(Ordering::SeqCst);
        if seen {
            self.cell.store(false, Ordering::SeqCst);
        }
        seen
    }
}

/// A flag stays set from a signal until the next consume: after the signal at
/// index `i`, and any further operations that are all signals (a nested
/// interrupt signalling again, say), the flag is set.
pub proof fn lemma_set_until_consumed(init: bool, ops: Seq<FlagOp>, i: int, n: int)
    requires
        0 <= i < n <= ops.len(),
        ops[i] == FlagOp::Signal,
        forall|k: int| i < k < n ==> ops[k] != FlagOp::Consume,
    ensures
        level_after(init, ops.take(n)),
    decreases n - i,
{
    assert(ops.take(n).drop_last() =~= ops.take(n - 1));
    assert(ops.take(n).last() == ops[n - 1]);
    if n - 1 > i {
        lemma_set_until_consumed(init, ops, i, n - 1);
    }
}

/// No wake is lost: the first consume after a signal reports the flag set.
pub proof fn lemma_signal_not_lost(init: bool, ops: Seq<FlagOp>, i: int, j: int)
    requires
        0 <= i < j < ops.len(),
        ops[i] == FlagOp::Signal,
        ops[j] == FlagOp::Consume,
        forall|k: int| i < k < j ==> ops[k] != FlagOp::Consume,
    ensures
        report_at(init, ops, j),
{
    lemma_set_until_consumed(init, ops, i, j);
}

/// Two consumes in a row: the first reports the flag as it stood, the second
/// reports it clear.
pub proof fn lemma_consume_twice(init: bool, ops: Seq<FlagOp>, j: int)
    requires
        0 <= j,
        j + 1 < ops.len(),
        ops[j] == FlagOp::Consume,
        ops[j + 1] == FlagOp::Consume,
    ensures
        report_at(init, ops, j) == level_after(init, ops.take(j)),
        !report_at(init, ops, j + 1),
{
    assert(ops.take(j + 1).drop_last() =~= ops.take(j));
    assert(ops.take(j + 1).last() == ops[j]);
}

} // verus!
