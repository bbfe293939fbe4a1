use vstd::prelude::*;

verus! {

/// Period of the client-side write-idle check, in seconds: after this long
/// without a write, the client sends a heartbeat.
pub const WRITER_IDLE_TIME_SECONDS: u64 = 30;

/// Period of the client-side write-idle check, in milliseconds.
pub const WRITER_IDLE_MILLIS: u64 = WRITER_IDLE_TIME_SECONDS * 1000;

/// Period of the server-side read-idle check, in seconds: after this long
/// without a decoded message, the server reaps the connection.
pub const READER_IDLE_TIME_SECONDS: u64 = 60;

/// Period of the server-side read-idle check, in milliseconds.
pub const READER_IDLE_MILLIS: u64 = READER_IDLE_TIME_SECONDS * 1000;

/// What a firing idle task decides.  The runtime that hosts the task
/// performs the named action and reinserts the task where a delay is given;
/// the task never holds the wheel it is chained into.
#[derive(Clone, Copy, Debug, PartialEq, Eq, Structural)]
pub enum IdleOutcome {
    /// The connection is closed: the task ends, nothing is rescheduled.
    Stop,
    /// Activity happened after the task was scheduled, so the deadline
    /// moved: fire again after this many milliseconds, taking no action.
    Reschedule(u64),
    /// True write silence: send a heartbeat now and fire again after this
    /// many milliseconds.
    HeartbeatAndReschedule(u64),
    /// True read silence: shut the connection down, remove its session,
    /// and end the task.
    ShutdownAndStop,
}

/// The self-correcting decision of one idle check with period
/// `period_ms` against the given activity timestamp.
pub open spec fn idle_decision(period_ms: u64, now_ms: u64, last_activity_ms: u64) -> int {
    period_ms - (now_ms - last_activity_ms)
}

/// Fire of the client-side write-idle task: if the connection is gone the
/// task ends; if the write deadline truly elapsed a heartbeat goes out and
/// the task starts a fresh full period; otherwise a write extended the
/// deadline meanwhile and the task just moves to the remaining delay.
pub fn write_idle_fire(closed: bool, now_ms: u64, last_write_ms: u64) -> (o: IdleOutcome)
    requires
        last_write_ms <= now_ms,
    ensures
        closed ==> o == IdleOutcome::Stop,
        !closed && idle_decision(WRITER_IDLE_MILLIS, now_ms, last_write_ms) <= 0
            ==> o == IdleOutcome::HeartbeatAndReschedule(WRITER_IDLE_MILLIS),
        !closed && idle_decision(WRITER_IDLE_MILLIS, now_ms, last_write_ms) > 0
            ==> o == IdleOutcome::Reschedule(
            (idle_decision(WRITER_IDLE_MILLIS, now_ms, last_write_ms)) as u64,
        ),
{
    if closed {
        return IdleOutcome::Stop;
    }
    let period: u64 = WRITER_IDLE_MILLIS;
    let elapsed = now_ms - last_write_ms;
    if elapsed >= period {
        IdleOutcome::HeartbeatAndReschedule(period)
    } else {
        IdleOutcome::Reschedule(period - elapsed)
    }
}

/// Fire of the server-side read-idle task: same self-correction against the
/// read timestamp, but a truly elapsed deadline reaps the connection for
/// good instead of pinging it.
pub fn read_idle_fire(closed: bool, now_ms: u64, last_read_ms: u64) -> (o: IdleOutcome)
    requires
        last_read_ms <= now_ms,
    ensures
        closed ==> o == IdleOutcome::Stop,
        !closed && idle_decision(READER_IDLE_MILLIS, now_ms, last_read_ms) <= 0
            ==> o == IdleOutcome::ShutdownAndStop,
        !closed && idle_decision(READER_IDLE_MILLIS, now_ms, last_read_ms) > 0
            ==> o == IdleOutcome::Reschedule(
            (idle_decision(READER_IDLE_MILLIS, now_ms, last_read_ms)) as u64,
        ),
{
    if closed {
        return IdleOutcome::Stop;
    }
    let period: u64 = READER_IDLE_MILLIS;
    let elapsed = now_ms - last_read_ms;
    if elapsed >= period {
        IdleOutcome::ShutdownAndStop
    } else {
        IdleOutcome::Reschedule(period - elapsed)
    }
}

} // verus!
