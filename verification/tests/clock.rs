use gameloop::utility::clock::{ClockError, SimulationClock, TickBatch};

const MS: u64 = 1_000_000;

fn clock(period: u64) -> SimulationClock {
    SimulationClock::new(period).expect("a positive period")
}

#[test]
fn zero_period_is_refused() {
    assert_eq!(SimulationClock::new(0).err(), Some(ClockError::ZeroPeriod));
    assert!(SimulationClock::new(1).is_ok());
}

#[test]
fn new_clock_is_empty() {
    let c = clock(10 * MS);
    assert_eq!(c.update_period(), 10 * MS);
    assert_eq!(c.time(), 0);
    assert_eq!(c.accumulator(), 0);
    assert_eq!(c.ticks_processed(), 0);
    assert_eq!(c.last_frame_time(), None);
    assert_eq!(c.elapsed(123), 0);
}

#[test]
fn first_tick_only_records_the_instant() {
    let mut c = clock(10 * MS);
    let batch = c.tick(5_000 * MS);
    assert_eq!(
        batch,
        TickBatch { ticks_to_run: 0, start_time: 0, lag: 0, discarded: 0 }
    );
    assert_eq!(c.time(), 0);
    assert_eq!(c.accumulator(), 0);
    assert_eq!(c.last_frame_time(), Some(5_000 * MS));
}

#[test]
fn jump_of_35ms_gives_three_ticks_and_5ms_of_lag() {
    let mut c = clock(10 * MS);
    c.tick(7);
    let batch = c.tick(7 + 35 * MS);
    assert_eq!(batch.ticks_to_run, 3);
    assert_eq!(batch.lag, 5 * MS);
    assert_eq!(batch.start_time, 0);
    assert_eq!(batch.discarded, 0);
    assert_eq!(c.time(), 30 * MS);
    assert_eq!(c.accumulator(), 5 * MS);
    assert_eq!(c.ticks_processed(), 3);
    assert_eq!(c.last_frame_time(), Some(7 + 35 * MS));
}

#[test]
fn lag_carries_over_to_the_next_tick() {
    let mut c = clock(10 * MS);
    c.tick(0);
    assert_eq!(c.tick(4 * MS).ticks_to_run, 0);
    assert_eq!(c.accumulator(), 4 * MS);
    assert_eq!(c.tick(9 * MS).ticks_to_run, 0);
    assert_eq!(c.accumulator(), 9 * MS);
    let batch = c.tick(10 * MS);
    assert_eq!(batch.ticks_to_run, 1);
    assert_eq!(batch.lag, 0);
    let batch = c.tick(35 * MS);
    assert_eq!(batch.ticks_to_run, 2);
    assert_eq!(batch.start_time, 10 * MS);
    assert_eq!(batch.lag, 5 * MS);
    assert_eq!(c.time(), 30 * MS);
}

#[test]
fn accumulator_stays_below_one_period() {
    let period = 7 * MS;
    let mut c = clock(period);
    let mut now = 0u64;
    let mut ticks = 0u64;
    let mut last_time = 0u64;
    let steps = [0u64, 1, 6_999_999, 7_000_000, 7_000_001, 13, 700 * MS, 0, 3 * MS, 21 * MS];
    for step in steps.iter().cycle().take(200) {
        now += step;
        let batch = c.tick(now);
        ticks += batch.ticks_to_run as u64;
        assert!(c.accumulator() < period);
        assert_eq!(batch.lag, c.accumulator());
        assert_eq!(c.time(), ticks * period);
        assert_eq!(c.ticks_processed(), ticks);
        assert!(c.time() >= last_time);
        assert_eq!(c.time() + c.accumulator(), now);
        last_time = c.time();
    }
}

#[test]
fn an_instant_in_the_past_adds_nothing() {
    let mut c = clock(10 * MS);
    c.tick(100 * MS);
    let batch = c.tick(40 * MS);
    assert_eq!(batch.ticks_to_run, 0);
    assert_eq!(batch.lag, 0);
    assert_eq!(c.last_frame_time(), Some(100 * MS));
    assert_eq!(c.elapsed(40 * MS), 0);
    assert_eq!(c.elapsed(130 * MS), 30 * MS);
}

#[test]
fn tick_limit_discards_the_excess() {
    let mut c = clock(10 * MS);
    c.set_max_ticks(2);
    c.tick(0);
    let batch = c.tick(57 * MS);
    assert_eq!(batch.ticks_to_run, 2);
    assert_eq!(batch.lag, 7 * MS);
    assert_eq!(batch.discarded, (30 * MS) as u128);
    assert_eq!(c.time(), 20 * MS);
    assert_eq!(c.accumulator(), 7 * MS);
    let batch = c.tick(60 * MS);
    assert_eq!(batch.ticks_to_run, 1);
    assert_eq!(batch.discarded, 0);
    assert_eq!(c.time(), 30 * MS);
    assert_eq!(c.accumulator(), 0);
}

#[test]
fn tick_limit_of_zero_freezes_simulated_time() {
    let mut c = clock(10 * MS);
    c.set_max_ticks(0);
    c.tick(0);
    let batch = c.tick(25 * MS);
    assert_eq!(batch.ticks_to_run, 0);
    assert_eq!(batch.lag, 5 * MS);
    assert_eq!(batch.discarded, (20 * MS) as u128);
    assert_eq!(c.time(), 0);
}

#[test]
fn default_limit_is_the_range_of_the_counter() {
    let mut c = clock(1);
    c.tick(0);
    let batch = c.tick(5_000_000_000);
    assert_eq!(batch.ticks_to_run, u32::MAX);
    assert_eq!(batch.lag, 0);
    assert_eq!(batch.discarded, (5_000_000_000u64 - u32::MAX as u64) as u128);
    assert_eq!(c.time(), u32::MAX as u64);
}

#[test]
fn simulated_time_stops_short_of_the_end_of_the_range() {
    let period = 1u64 << 62;
    let mut c = clock(period);
    c.tick(0);
    let batch = c.tick(u64::MAX);
    // Three periods have elapsed, but only two leave room for one more.
    assert_eq!(batch.ticks_to_run, 2);
    assert_eq!(batch.lag, period - 1);
    assert_eq!(batch.discarded, period as u128);
    assert_eq!(c.time(), 2 * period);
    let batch = c.tick(u64::MAX);
    assert_eq!(batch.ticks_to_run, 0);
    assert_eq!(c.time(), 2 * period);
}

#[test]
fn resync_drops_the_elapsed_time() {
    let mut c = clock(10 * MS);
    c.tick(0);
    c.tick(15 * MS);
    c.resync(100 * MS);
    assert_eq!(c.last_frame_time(), Some(100 * MS));
    assert_eq!(c.time(), 10 * MS);
    assert_eq!(c.accumulator(), 5 * MS);
    let batch = c.tick(105 * MS);
    assert_eq!(batch.ticks_to_run, 1);
    assert_eq!(batch.lag, 0);
}

#[test]
fn reset_starts_simulated_time_over() {
    let mut c = clock(10 * MS);
    c.tick(0);
    c.tick(35 * MS);
    c.reset();
    assert_eq!(c.time(), 0);
    assert_eq!(c.accumulator(), 0);
    assert_eq!(c.ticks_processed(), 0);
    assert_eq!(c.last_frame_time(), Some(35 * MS));
    assert_eq!(c.update_period(), 10 * MS);
}
