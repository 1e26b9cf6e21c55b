use rustednes_cosmic::pacer::Pacer;
use rustednes_cosmic::CPU_CYCLE_TIME_NS;

#[test]
fn pacer_new_initial_state() {
    let p = Pacer::new(559, 1234);
    assert_eq!(p.cycle_period_ns, 559);
    assert_eq!(p.start_time_ns, 1234);
    assert_eq!(p.paused_time_ns, None);
    assert_eq!(p.emulated_cycles, 0);
    assert_eq!(p.emulated_instructions, 0);
}

#[test]
fn pacer_target_cycles_basic() {
    let p = Pacer::new(1000, 0);
    assert_eq!(p.target_cycles(0), 0);
    assert_eq!(p.target_cycles(999), 0);
    assert_eq!(p.target_cycles(1000), 1);
    assert_eq!(p.target_cycles(4999), 4);
    assert_eq!(p.target_cycles(5000), 5);
}

#[test]
fn pacer_pause_records_first_reading_only() {
    let mut p = Pacer::new(1000, 0);
    p.pause(100);
    assert_eq!(p.paused_time_ns, Some(100));
    p.pause(500);
    assert_eq!(p.paused_time_ns, Some(100));
}

#[test]
fn pacer_pause_resume_shifts_epoch_by_paused_duration() {
    let mut p = Pacer::new(1000, 0);
    p.pause(100);
    p.resume(1100);
    assert_eq!(p.start_time_ns, 1000);
    assert_eq!(p.paused_time_ns, None);
    assert_eq!(p.emulated_cycles, 0);
    assert_eq!(p.emulated_instructions, 0);
    // The next reading yields the same target as if the pause had not
    // occurred: 1200 with the shifted epoch acts like 200 with the old one.
    let q = Pacer::new(1000, 0);
    assert_eq!(p.target_cycles(1200), q.target_cycles(200));
}

#[test]
fn pacer_effective_elapsed_excludes_paused_interval() {
    // Pause at 100, resume at 1100, read at 1200: the effective elapsed time
    // since the epoch is 200 ns, not 1200 ns. With a 1 ns cycle period the
    // target equals the effective elapsed nanoseconds.
    let mut p = Pacer::new(1, 0);
    p.pause(100);
    p.resume(1100);
    assert_eq!(p.target_cycles(1200), 200);
}

#[test]
fn pacer_resume_while_running_is_noop() {
    let mut p = Pacer::new(1000, 42);
    p.resume(5000);
    assert_eq!(p.start_time_ns, 42);
    assert_eq!(p.paused_time_ns, None);
}

#[test]
fn pacer_reset_zeroes_counters_and_reanchors_epoch() {
    let mut p = Pacer::new(1000, 0);
    p.record_step(3);
    p.record_step(4);
    p.pause(600);
    p.reset(5000);
    assert_eq!(p.start_time_ns, 5000);
    assert_eq!(p.emulated_cycles, 0);
    assert_eq!(p.emulated_instructions, 0);
    // Reset leaves the pacer running regardless of the prior state.
    assert_eq!(p.paused_time_ns, None);
    assert_eq!(p.cycle_period_ns, 1000);
}

#[test]
fn pacer_record_step_accumulates() {
    let mut p = Pacer::new(1000, 0);
    p.record_step(3);
    p.record_step(5);
    assert_eq!(p.emulated_cycles, 8);
    assert_eq!(p.emulated_instructions, 2);
}

#[test]
fn cpu_cycle_time_is_truncated_period_plus_one() {
    assert_eq!(CPU_CYCLE_TIME_NS, 1_000_000_000 / 1_789_773 + 1);
    assert_eq!(CPU_CYCLE_TIME_NS, 559);
}
