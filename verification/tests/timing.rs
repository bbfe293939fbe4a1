use cathy::idle::IdleOutcome;
use cathy::idle::read_idle_fire;
use cathy::idle::write_idle_fire;
use cathy::idle::READER_IDLE_MILLIS;
use cathy::idle::WRITER_IDLE_MILLIS;
use cathy::wheel_timer::WheelTimer;

#[test]
fn wheel_rejects_zero_parameters() {
    assert!(WheelTimer::<u64>::new(0, 12).is_none());
    assert!(WheelTimer::<u64>::new(100, 0).is_none());
    assert!(WheelTimer::<u64>::new(100, 12).is_some());
}

#[test]
fn wheel_fires_within_span() {
    let mut wheel: WheelTimer<u64> = WheelTimer::new(100, 12).unwrap();
    // 300 ms at a 100 ms tick: due on the third tick.
    wheel.new_timeout(7, 300);
    assert_eq!(wheel.tick(), Vec::<u64>::new());
    assert_eq!(wheel.tick(), Vec::<u64>::new());
    assert_eq!(wheel.tick(), vec![7u64]);
    assert_eq!(wheel.tick(), Vec::<u64>::new());
}

#[test]
fn wheel_counts_rounds_beyond_span() {
    let mut wheel: WheelTimer<u64> = WheelTimer::new(100, 12).unwrap();
    // 6000 ms at a 100 ms tick and 12 slots: 60 ticks, five whole rounds.
    wheel.new_timeout(9, 6000);
    for _ in 0..59 {
        assert_eq!(wheel.tick(), Vec::<u64>::new());
    }
    assert_eq!(wheel.tick(), vec![9u64]);
    assert_eq!(wheel.tick(), Vec::<u64>::new());
}

#[test]
fn wheel_keeps_insertion_order_of_one_slot() {
    let mut wheel: WheelTimer<u64> = WheelTimer::new(100, 4).unwrap();
    wheel.new_timeout(1, 200);
    wheel.new_timeout(2, 200);
    assert_eq!(wheel.tick(), Vec::<u64>::new());
    assert_eq!(wheel.tick(), vec![1u64, 2u64]);
}

#[test]
fn write_idle_corrects_before_deadline() {
    // The task was installed at time 0; a send happened at 20s, so at the
    // original 30s deadline 10s of the period remain: no heartbeat yet.
    let last_write_ms: u64 = 20_000;
    let now_ms: u64 = 30_000;
    let outcome = write_idle_fire(false, now_ms, last_write_ms);
    assert_eq!(outcome, IdleOutcome::Reschedule(20_000));

    // Only once a true full period of silence elapsed does a ping go out.
    let outcome = write_idle_fire(false, last_write_ms + WRITER_IDLE_MILLIS, last_write_ms);
    assert_eq!(outcome, IdleOutcome::HeartbeatAndReschedule(WRITER_IDLE_MILLIS));
}

#[test]
fn write_idle_stops_when_closed() {
    let outcome = write_idle_fire(true, 100_000, 0);
    assert_eq!(outcome, IdleOutcome::Stop);
}

#[test]
fn read_idle_reaps_after_silence() {
    // Active connection: corrected reschedule.
    let outcome = read_idle_fire(false, 60_000, 45_000);
    assert_eq!(outcome, IdleOutcome::Reschedule(45_000));

    // One full silent period: the connection is reaped.
    let outcome = read_idle_fire(false, READER_IDLE_MILLIS, 0);
    assert_eq!(outcome, IdleOutcome::ShutdownAndStop);

    // Already closed: terminal, nothing rescheduled.
    let outcome = read_idle_fire(true, READER_IDLE_MILLIS, 0);
    assert_eq!(outcome, IdleOutcome::Stop);
}
