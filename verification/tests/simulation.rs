use rustarok_client::simulation::SimulationTime;
use std::time::{Duration, Instant};

#[test]
fn new_pacing_state() {
    let t = SimulationTime::new(30);
    assert_eq!(t.render_frame(), 1);
    assert!(t.can_simulation_run());
    assert_eq!(t.get_time_between_simulations(), 33);
    let t = SimulationTime::new_for_tests(Duration::from_millis(5));
    assert_eq!(t.get_time_between_simulations(), 30);
}

#[test]
fn adjust_frequency() {
    let mut t = SimulationTime::new(50);
    assert_eq!(t.get_time_between_simulations(), 20);
    t.adjust_simulation_freq(5);
    assert_eq!(t.get_time_between_simulations(), 25);
    t.adjust_simulation_freq(-10);
    assert_eq!(t.get_time_between_simulations(), 15);
    // not longer than the shortening: unchanged
    t.adjust_simulation_freq(-15);
    assert_eq!(t.get_time_between_simulations(), 15);
    t.adjust_simulation_freq(0);
    assert_eq!(t.get_time_between_simulations(), 15);
}

#[test]
fn frame_end_runs_when_due() {
    let mut t = SimulationTime::new_for_tests(Duration::from_millis(30));
    let now = Instant::now();
    t.frame_end_after(10, now);
    assert_eq!(t.render_frame(), 2);
    assert!(!t.can_simulation_run());
    t.frame_end_after(30, now);
    assert_eq!(t.render_frame(), 3);
    assert!(t.can_simulation_run());
}

#[test]
fn skip_swallows_one_step() {
    let mut t = SimulationTime::new_for_tests(Duration::from_millis(30));
    let now = Instant::now();
    t.skip_next_simulation();
    t.frame_end_after(10, now);
    assert!(!t.can_simulation_run());
    t.frame_end_after(40, now);
    assert!(!t.can_simulation_run());
    t.frame_end_after(40, now);
    assert!(t.can_simulation_run());
    t.force_simulation();
    assert!(t.can_simulation_run());
}

#[test]
fn render_frame_end_counts_frames() {
    let mut t = SimulationTime::new(1);
    t.render_frame_end(Instant::now());
    assert_eq!(t.render_frame(), 2);
    // a second has not passed
    assert!(!t.can_simulation_run());
}

#[test]
fn only_the_frame_end_clears_the_run_flag() {
    let mut t = SimulationTime::new(30);
    t.adjust_simulation_freq(7);
    t.skip_next_simulation();
    t.adjust_simulation_freq(-3);
    t.force_simulation();
    assert!(t.can_simulation_run());
    assert_eq!(t.render_frame(), 1);
}

#[test]
fn shortening_never_empties_the_period() {
    let mut t = SimulationTime::new(1000);
    assert_eq!(t.get_time_between_simulations(), 1);
    t.adjust_simulation_freq(-1);
    assert_eq!(t.get_time_between_simulations(), 1);
    t.adjust_simulation_freq(-100);
    assert_eq!(t.get_time_between_simulations(), 1);
}

#[test]
fn two_skips_still_swallow_one_step() {
    let now = Instant::now();
    let mut t = SimulationTime::new_for_tests(Duration::from_millis(30));
    t.skip_next_simulation();
    t.skip_next_simulation();
    t.frame_end_after(40, now);
    assert!(!t.can_simulation_run());
    t.frame_end_after(40, now);
    assert!(t.can_simulation_run());
}
