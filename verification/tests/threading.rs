use std::time::Instant;

use rt_threading::attr_step_result;
use rt_threading::join_result;
use rt_threading::lock_memory;
use rt_threading::spawn_result;
use rt_threading::AttrStep;
use rt_threading::Clock;
use rt_threading::ErrorKind;
use rt_threading::SchedulerPolicy;
use rt_threading::ThreadAttributes;
use rt_threading::ThreadingError;

#[test]
fn error_new_preserves_kind_and_code() {
    let e = ThreadingError::new(ErrorKind::MemoryLockFailed, 12);
    assert_eq!(e.kind, ErrorKind::MemoryLockFailed);
    assert_eq!(e.code, 12);
    let e = ThreadingError::new(ErrorKind::ThreadAttrInitFailed(AttrStep::SchedParam), 22);
    assert_eq!(e.kind, ErrorKind::ThreadAttrInitFailed(AttrStep::SchedParam));
    assert_eq!(e.code, 22);
}

#[test]
fn error_describe_names_the_operation() {
    let e = ThreadingError::new(ErrorKind::ThreadSpawnFailed, 11);
    assert_eq!(e.describe(), "could not start thread");
    let e = ThreadingError::new(ErrorKind::ThreadAttrInitFailed(AttrStep::StackSize), 22);
    assert_eq!(e.describe(), "could not apply the requested stack size");
    let e = ThreadingError::new(ErrorKind::ClockReadFailed, 1);
    assert_eq!(e.describe(), "could not get clock time");
}

#[test]
fn policy_mapping_matches_native_identifiers() {
    assert_eq!(SchedulerPolicy::Fifo.native_value(), libc::SCHED_FIFO);
    assert_eq!(SchedulerPolicy::RoundRobin.native_value(), libc::SCHED_RR);
    assert_ne!(
        SchedulerPolicy::Fifo.native_value(),
        SchedulerPolicy::RoundRobin.native_value()
    );
}

#[test]
fn native_plan_is_exact_and_explicit() {
    let attrs = ThreadAttributes {
        stack_size: 65536,
        scheduler_policy: SchedulerPolicy::RoundRobin,
        thread_priority: 17,
    };
    let plan = attrs.native_plan();
    assert_eq!(plan.stack_size, 65536);
    assert_eq!(plan.policy_value, libc::SCHED_RR);
    assert_eq!(plan.thread_priority, 17);
    assert!(plan.explicit_sched);
}

#[test]
fn attr_step_zero_code_passes() {
    assert_eq!(attr_step_result(AttrStep::Init, 0), Ok(()));
    assert_eq!(attr_step_result(AttrStep::SchedParam, 0), Ok(()));
}

#[test]
fn attr_step_failure_names_step_and_keeps_code() {
    let steps = [
        AttrStep::Init,
        AttrStep::StackSize,
        AttrStep::Policy,
        AttrStep::InheritSched,
        AttrStep::SchedParam,
    ];
    for (i, step) in steps.iter().enumerate() {
        let code = 20 + i as i32;
        let r = attr_step_result(*step, code);
        assert_eq!(
            r,
            Err(ThreadingError::new(
                ErrorKind::ThreadAttrInitFailed(*step),
                code
            ))
        );
    }
}

#[test]
fn undersized_stack_rejection_shape() {
    // The OS rejects a stack size below the platform minimum with EINVAL
    // while the attribute set is built, before any thread exists; the
    // resulting error names the stack-size step.
    let r = attr_step_result(AttrStep::StackSize, libc::EINVAL);
    match r {
        Err(e) => {
            assert_eq!(e.kind, ErrorKind::ThreadAttrInitFailed(AttrStep::StackSize));
            assert_eq!(e.code, libc::EINVAL);
        }
        Ok(()) => panic!("a nonzero code must not pass"),
    }
}

#[test]
fn spawn_result_zero_is_success() {
    assert_eq!(spawn_result(0), Ok(()));
}

#[test]
fn invalid_priority_rejection_shape() {
    // An out-of-range priority makes the OS thread-creation call return
    // EINVAL; the resulting error is the spawn failure with that code.
    let r = spawn_result(libc::EINVAL);
    match r {
        Err(e) => {
            assert_eq!(e.kind, ErrorKind::ThreadSpawnFailed);
            assert_eq!(e.code, libc::EINVAL);
        }
        Ok(()) => panic!("a nonzero code must not pass"),
    }
}

#[test]
fn join_hands_back_the_value_unchanged() {
    assert_eq!(join_result(0, 123), Ok(123));
    assert_eq!(join_result(0, String::from("result")), Ok(String::from("result")));
}

#[test]
fn join_failure_keeps_code() {
    let r: Result<i32, ThreadingError> = join_result(libc::ESRCH, 0);
    assert_eq!(
        r,
        Err(ThreadingError::new(ErrorKind::ThreadJoinFailed, libc::ESRCH))
    );
}

#[test]
fn lock_memory_reports_the_os_outcome() {
    match lock_memory() {
        Ok(()) => {}
        Err(e) => {
            assert_eq!(e.kind, ErrorKind::MemoryLockFailed);
            assert_ne!(e.code, 0);
        }
    }
}

#[test]
fn clock_new_is_normalized() {
    let c = Clock::new().unwrap();
    assert!(c.tv_nsec >= 0);
    assert!(c.tv_nsec < 1_000_000_000);
}

fn total_ns(c: &Clock) -> i128 {
    c.tv_sec as i128 * 1_000_000_000 + c.tv_nsec as i128
}

#[test]
fn sleep_normalizes_carry() {
    // The targets lie in the past of the monotonic clock, so each call
    // returns at once and only the arithmetic is observed.
    let mut c = Clock {
        tv_sec: 5,
        tv_nsec: 999_999_999,
    };
    c.sleep(1).unwrap();
    assert_eq!(c.tv_sec, 6);
    assert_eq!(c.tv_nsec, 0);

    let mut c = Clock {
        tv_sec: 0,
        tv_nsec: 500_000_000,
    };
    c.sleep(1_700_000_000).unwrap();
    assert_eq!(c.tv_sec, 2);
    assert_eq!(c.tv_nsec, 200_000_000);
}

#[test]
fn sleep_keeps_fraction_normalized_over_many_calls() {
    let mut c = Clock { tv_sec: 0, tv_nsec: 0 };
    let mut expected: i128 = 0;
    for i in 0..50u64 {
        let d = i * 1_234_567;
        c.sleep(d).unwrap();
        expected += d as i128;
        assert!(c.tv_nsec >= 0 && c.tv_nsec < 1_000_000_000);
        assert_eq!(total_ns(&c), expected);
    }
}

#[test]
fn sleep_past_target_returns_immediately() {
    let mut c = Clock { tv_sec: 0, tv_nsec: 0 };
    let started = Instant::now();
    c.sleep(1_000_000).unwrap();
    assert!(started.elapsed().as_millis() < 250);
}

#[test]
fn ten_sleeps_keep_cadence_without_drift() {
    let started = Instant::now();
    let mut c = Clock::new().unwrap();
    let before = total_ns(&c);
    for _ in 0..10 {
        c.sleep(100_000_000).unwrap();
    }
    let elapsed = started.elapsed().as_millis();
    // The reference point advanced by exactly ten increments...
    assert_eq!(total_ns(&c) - before, 1_000_000_000);
    // ...and the wall clock followed it within a small epsilon, with no
    // cumulative per-iteration overhead.
    assert!(elapsed >= 950, "elapsed only {elapsed} ms");
    assert!(elapsed < 2500, "elapsed {elapsed} ms");
}
