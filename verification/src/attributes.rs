use vstd::prelude::*;

use crate::errors::AttrStep;
use crate::errors::ErrorKind;
use crate::errors::ThreadingError;
use crate::errors::ThreadingResult;

verus! {

/// The real-time scheduling classes this layer supports.
#[derive(Clone, Copy, Debug, PartialEq, Eq, Structural)]
pub enum SchedulerPolicy {
    Fifo,
    RoundRobin,
}

/// The fixed translation table from a portable policy to the native
/// scheduling-policy identifier.
pub open spec fn native_policy_of(p: SchedulerPolicy) -> int {
    match p {
        SchedulerPolicy::Fifo => 1,
        SchedulerPolicy::RoundRobin => 2,
    }
}

/// Relies on libc::SCHED_FIFO: on Linux the first-in-first-out real-time
/// scheduling policy has native identifier 1.
#[verifier::external_body]
fn native_sched_fifo() -> (r: i32)
    ensures
        r == 1,
{
    libc::SCHED_FIFO
}

/// Relies on libc::SCHED_RR: on Linux the round-robin real-time scheduling
/// policy has native identifier 2.
#[verifier::external_body]
fn native_sched_rr() -> (r: i32)
    ensures
        r == 2,
{
    libc::SCHED_RR
}

impl SchedulerPolicy {
    /// The native scheduling-policy identifier this policy maps to.
    pub fn native_value(&self) -> (r: i32)
        ensures
            r == native_policy_of(*self),
    {
        match self {
            SchedulerPolicy::Fifo => native_sched_fifo(),
            SchedulerPolicy::RoundRobin => native_sched_rr(),
        }
    }
}

/// The translation to native policy identifiers is injective: the two
/// real-time classes keep two distinct native identities, so the OS is
/// told exactly which class was requested.
pub proof fn lemma_policy_mapping_distinct(a: SchedulerPolicy, b: SchedulerPolicy)
    ensures
        native_policy_of(a) == native_policy_of(b) ==> a == b,
{
}

/// How a thread is to be scheduled: stack size in bytes, real-time
/// scheduling class, and priority. Consumed by spawning a thread.
#[derive(Clone, Copy, Debug, PartialEq, Eq, Structural)]
pub struct ThreadAttributes {
    pub stack_size: usize,
    pub scheduler_policy: SchedulerPolicy,
    pub thread_priority: i32,
}

/// The OS-level thread-creation parameters that one ThreadAttributes
/// value translates to. `explicit_sched` records that the new thread
/// must not inherit scheduling from its creator: the three requested
/// values are authoritative.
#[derive(Clone, Copy, Debug, PartialEq, Eq, Structural)]
pub struct NativeAttrPlan {
    pub stack_size: usize,
    pub policy_value: i32,
    pub thread_priority: i32,
    pub explicit_sched: bool,
}

impl ThreadAttributes {
    /// Translates the portable description into the parameters to apply
    /// to a native attribute set, exactly and without inheriting anything
    /// from the creating thread.
    pub fn native_plan(&self) -> (p: NativeAttrPlan)
        ensures
            p.stack_size == self.stack_size,
            p.policy_value == native_policy_of(self.scheduler_policy),
            p.thread_priority == self.thread_priority,
            p.explicit_sched,
    {
        NativeAttrPlan {
            stack_size: self.stack_size,
            policy_value: self.scheduler_policy.native_value(),
            thread_priority: self.thread_priority,
            explicit_sched: true,
        }
    }
}

/// Judges one step of native attribute construction from the code the OS
/// returned: success exactly when the code is 0; any other code aborts
/// construction with an error naming the failing step and preserving the
/// code, so that no partial attribute set is ever used.
pub fn attr_step_result(step: AttrStep, code: i32) -> (r: ThreadingResult<()>)
    ensures
        code == 0 <==> r is Ok,
        r matches Err(e) ==> e.kind == ErrorKind::ThreadAttrInitFailed(step) && e.code == code,
{
    if code == 0 {
        Ok(())
    } else {
        Err(ThreadingError::new(ErrorKind::ThreadAttrInitFailed(step), code))
    }
}

} // verus!
