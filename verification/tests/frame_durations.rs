use rustarok_client::frame_durations::{SystemFrameDurations, SystemFrameDurationsFrame, SystemStopwatch};
use std::time::Instant;

#[test]
fn statistics_of_runs() {
    let mut d = SystemFrameDurations::new();
    assert_eq!(d.get("physics"), None);
    d.record("physics", 40);
    assert_eq!(d.get("physics"), Some(SystemFrameDurationsFrame { min: 40, max: 40, avg: 20 }));
    d.record("physics", 100);
    assert_eq!(d.get("physics"), Some(SystemFrameDurationsFrame { min: 40, max: 100, avg: 60 }));
    d.record("render", 200_000);
    assert_eq!(d.get("render"), Some(SystemFrameDurationsFrame { min: 100_000, max: 200_000, avg: 100_000 }));
    d.record("big", u32::MAX);
    d.record("big", u32::MAX);
    // averages are taken without wrapping: (2_147_483_647 + 4_294_967_295) / 2
    assert_eq!(d.get("big").unwrap().avg, 3_221_225_471);
}

#[test]
fn stopwatch_records_a_run() {
    let mut d = SystemFrameDurations::new();
    let w = d.start_measurement("input");
    w.stop(&mut d);
    assert!(d.get("input").is_some());
    d.system_finished(Instant::now(), "other");
    let f = d.get("other").unwrap();
    assert!(f.min <= f.max);
    let w2 = SystemStopwatch::new("x");
    w2.stop(&mut d);
    assert!(d.get("x").is_some());
}
