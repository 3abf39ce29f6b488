use vstd::prelude::*;

verus! {

/// The step of native thread-attribute construction that failed.
#[derive(Clone, Copy, Debug, PartialEq, Eq, Structural)]
pub enum AttrStep {
    /// Initializing the empty native attribute set.
    Init,
    /// Applying the requested stack size.
    StackSize,
    /// Applying the requested scheduling policy.
    Policy,
    /// Forcing explicit (non-inherited) scheduling.
    InheritSched,
    /// Applying the requested priority.
    SchedParam,
}

/// The operation of this layer that failed.
#[derive(Clone, Copy, Debug, PartialEq, Eq, Structural)]
pub enum ErrorKind {
    /// The OS denied locking the process's pages into physical memory.
    MemoryLockFailed,
    /// A step of native thread-attribute construction failed.
    ThreadAttrInitFailed(AttrStep),
    /// The OS could not create the thread.
    ThreadSpawnFailed,
    /// The OS join primitive reported an error.
    ThreadJoinFailed,
    /// The OS could not supply monotonic time.
    ClockReadFailed,
    /// The OS absolute-time sleep reported an error.
    ClockSleepFailed,
}

/// An error of this layer: the failing operation (and step, where one
/// applies) together with the originating OS error code.
#[derive(Clone, Copy, Debug, PartialEq, Eq, Structural)]
pub struct ThreadingError {
    pub kind: ErrorKind,
    pub code: i32,
}

/// The wording that describes each failing operation.
pub open spec fn describe_spec(k: ErrorKind) -> Seq<char> {
    match k {
        ErrorKind::MemoryLockFailed => "could not lock memory"@,
        ErrorKind::ThreadAttrInitFailed(step) => match step {
            AttrStep::Init => "could not initialize thread attributes"@,
            AttrStep::StackSize => "could not apply the requested stack size"@,
            AttrStep::Policy => "could not apply the requested scheduling policy"@,
            AttrStep::InheritSched => "could not force explicit scheduling"@,
            AttrStep::SchedParam => "could not apply the requested priority"@,
        },
        ErrorKind::ThreadSpawnFailed => "could not start thread"@,
        ErrorKind::ThreadJoinFailed => "could not join thread"@,
        ErrorKind::ClockReadFailed => "could not get clock time"@,
        ErrorKind::ClockSleepFailed => "could not sleep thread"@,
    }
}

impl ThreadingError {
    /// Builds an error preserving the failing operation and the OS error code.
    pub fn new(kind: ErrorKind, code: i32) -> (e: ThreadingError)
        ensures
            e.kind == kind,
            e.code == code,
    {
        ThreadingError { kind, code }
    }

    /// What failed, in words; the originating OS error code stands beside
    /// it in `code`.
    pub fn describe(&self) -> (r: &'static str)
        ensures
            r@ == describe_spec(self.kind),
    {
        match self.kind {
            ErrorKind::MemoryLockFailed => "could not lock memory",
            ErrorKind::ThreadAttrInitFailed(step) => match step {
                AttrStep::Init => "could not initialize thread attributes",
                AttrStep::StackSize => "could not apply the requested stack size",
                AttrStep::Policy => "could not apply the requested scheduling policy",
                AttrStep::InheritSched => "could not force explicit scheduling",
                AttrStep::SchedParam => "could not apply the requested priority",
            },
            ErrorKind::ThreadSpawnFailed => "could not start thread",
            ErrorKind::ThreadJoinFailed => "could not join thread",
            ErrorKind::ClockReadFailed => "could not get clock time",
            ErrorKind::ClockSleepFailed => "could not sleep thread",
        }
    }
}

pub type ThreadingResult<T> = Result<T, ThreadingError>;

} // verus!
