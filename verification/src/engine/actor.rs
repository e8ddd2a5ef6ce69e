//! The decisions of the engine actor's message loop. One OS thread per model
//! owns the backend and drives a FIFO loop; each dispatch runs under a panic
//! guard, and a panic poisons the actor: the offending message and every
//! queued message fail with `internal.panic`, the state becomes `Failed`, and
//! the thread exits with no restart.

use vstd::prelude::*;

use crate::error::{DkError, DkErrorView, ErrorCode, ErrorContext, error_new, error_with_context};
use crate::error::context::{CtxVal, ctx_insert};
use crate::text::{nat_decimal, push_str, push_u64};
use crate::time::Duration;

verus! {

/// The lifecycle state of an actor.
#[derive(Clone, Copy, PartialEq, Eq, Debug, Structural)]
pub enum ActorState {
    /// Processing messages normally.
    Running,
    /// A panic poisoned the actor; the thread has exited.
    Failed,
}

impl ActorState {
    /// The state stored as a byte: 0 is running, anything else failed.
    pub fn from_u8(v: u8) -> (r: ActorState)
        ensures
            r == (if v == 0 {
                ActorState::Running
            } else {
                ActorState::Failed
            }),
    {
        if v == 0 {
            ActorState::Running
        } else {
            ActorState::Failed
        }
    }
}

/// The message failing every in-flight sequence of a poisoned actor.
pub open spec fn internal_panic_message() -> Seq<char> {
    "the engine actor panicked; every in-flight sequence for this model was aborted"@
}

/// The message for a request to an actor that is no longer running.
pub open spec fn actor_gone_message() -> Seq<char> {
    "the engine actor is not running (the model failed or was unloaded)"@
}

/// The `internal.panic` error sent to every caller of a poisoned actor.
pub fn internal_panic() -> (r: DkError)
    ensures
        r@ == error_new(ErrorCode::InternalPanic, internal_panic_message()),
{
    DkError::new(
        ErrorCode::InternalPanic,
        "the engine actor panicked; every in-flight sequence for this model was aborted".to_owned(),
    )
}

/// The `internal.invariant` error for a request to a failed or unloaded
/// actor.
pub fn actor_gone() -> (r: DkError)
    ensures
        r@ == error_new(ErrorCode::InternalInvariant, actor_gone_message()),
{
    DkError::new(
        ErrorCode::InternalInvariant,
        "the engine actor is not running (the model failed or was unloaded)".to_owned(),
    )
}

/// `n` as an `i64`, saturating at `i64::MAX`.
pub open spec fn saturate_i64(n: nat) -> i64 {
    if n > i64::MAX {
        i64::MAX
    } else {
        n as i64
    }
}

/// The `kv.pool_exhausted` error for a rejected admission, carrying the
/// largest admissible token count.
pub open spec fn rejection_view(max_admissible: usize) -> DkErrorView {
    error_with_context(
        error_new(
            ErrorCode::KvPoolExhausted,
            "KV pool cannot admit the request; max admissible is "@ + nat_decimal(
                max_admissible as nat,
            ) + " tokens"@,
        ),
        ctx_insert(
            Seq::empty(),
            "max_admissible"@,
            CtxVal::Int(saturate_i64(max_admissible as nat)),
        ),
    )
}

/// Builds the `kv.pool_exhausted` error for a rejection.
pub fn rejection_error(max_admissible: usize) -> (r: DkError)
    ensures
        r@ == rejection_view(max_admissible),
{
    let mut m = String::new();
    push_str(&mut m, "KV pool cannot admit the request; max admissible is ");
    push_u64(&mut m, max_admissible as u64);
    push_str(&mut m, " tokens");
    assert(m@ =~= "KV pool cannot admit the request; max admissible is "@ + nat_decimal(
        max_admissible as nat,
    ) + " tokens"@);
    let n: i64 = if max_admissible as u64 > i64::MAX as u64 {
        i64::MAX
    } else {
        max_admissible as i64
    };
    DkError::new(ErrorCode::KvPoolExhausted, m).with_context(
        ErrorContext::new().with_int("max_admissible", n),
    )
}

/// Whether a handler's wall time trips the stall detector: more than 500 ms.
pub fn is_stall(elapsed: Duration) -> (r: bool)
    ensures
        r == (elapsed@.0 > 0 || (elapsed@.0 == 0 && elapsed@.1 > 500_000_000)),
{
    elapsed.as_secs() > 0 || elapsed.subsec_nanos() > 500_000_000
}

/// What the loop does after a dispatch.
#[derive(Clone, Copy, PartialEq, Eq, Debug, Structural)]
pub enum LoopStep {
    /// Take the next message.
    Continue,
    /// The model was unloaded: leave the loop.
    Exit,
    /// The dispatch panicked: mark the actor failed, fail every queued
    /// message with `internal.panic`, and leave the loop.
    Poison,
}

/// The loop's decision after one dispatch: a panic poisons the actor (even
/// during an unload), an unload ends the loop, anything else continues.
pub fn after_dispatch(panicked: bool, is_unload: bool) -> (r: LoopStep)
    ensures
        r == (if panicked {
            LoopStep::Poison
        } else if is_unload {
            LoopStep::Exit
        } else {
            LoopStep::Continue
        }),
{
    if panicked {
        LoopStep::Poison
    } else if is_unload {
        LoopStep::Exit
    } else {
        LoopStep::Continue
    }
}

} // verus!
