//! Run loop and wake signalling for a cooperative executor on targets
//! without an operating system.
//!
//! - [`wake`]: the flag that interrupt contexts set and the run loop clears,
//!   with its level-signal model and the laws of that model.
//! - [`run_loop`]: the decisions of the run loop, as a state machine whose
//!   record of actions never shows two idles without a poll between them.
//! - [`executor`]: one cycle of the loop over a scheduler and an idle hook.
pub mod executor;
pub mod run_loop;
pub mod wake;

