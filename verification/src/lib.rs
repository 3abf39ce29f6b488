//! Real-time-capable thread execution primitives for POSIX systems:
//! process memory locking, explicit thread scheduling attributes,
//! and a monotonic clock for drift-free periodic sleeps.

pub mod attributes;
pub mod clock;
pub mod errors;
pub mod thread;

pub use attributes::attr_step_result;
pub use attributes::NativeAttrPlan;
pub use attributes::SchedulerPolicy;
pub use attributes::ThreadAttributes;
pub use clock::Clock;
pub use errors::AttrStep;
pub use errors::ErrorKind;
pub use errors::ThreadingError;
pub use errors::ThreadingResult;
pub use thread::join_result;
pub use thread::lock_memory;
pub use thread::spawn_result;
