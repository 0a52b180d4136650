//! Reactivating a suspended GUI context at the start of a callback.
//!
//! Between callbacks the context is held suspended. A callback that finds no
//! context ignores its work. One that finds it tries to reactivate it: on
//! success it runs, and on failure (the context is still referenced elsewhere)
//! it waits briefly and tries again.
use vstd::prelude::*;

verus! {

/// How long to wait before trying to reactivate the context again.
pub const CONTEXT_RETRY_MICROS: u64 = 10;

/// What a callback does after an attempt to reactivate the context.
#[derive(Clone, Copy, Debug, PartialEq, Eq, Structural)]
pub enum ContextStep {
    /// The context is active: run the callback's work, then suspend it again.
    Run,
    /// The context is still taken: wait this many microseconds and try again.
    Retry { wait_micros: u64 },
    /// There is no context to reactivate: skip the callback's work.
    Ignore,
}

/// The next step, given whether a suspended context was there to try and
/// whether reactivating it succeeded.
pub fn reactivation_step(has_context: bool, activated: bool) -> (r: ContextStep)
    ensures
        !has_context ==> r == ContextStep::Ignore,
        has_context && activated ==> r == ContextStep::Run,
        has_context && !activated ==> r == (ContextStep::Retry { wait_micros: CONTEXT_RETRY_MICROS }),
{
    if !has_context {
        ContextStep::Ignore
    } else if activated {
        ContextStep::Run
    } else {
        ContextStep::Retry { wait_micros: CONTEXT_RETRY_MICROS }
    }
}

} // verus!
