use rustarok_client::imgui_data::{ImguiData, SampleWindow};
use rustarok_client::skills::CharEntityId;

#[test]
fn sample_windows_slide() {
    let mut w = SampleWindow::new();
    for v in 1..=17 {
        w.push(v);
    }
    let expected: Vec<usize> = (2..=17).collect();
    assert_eq!(w.samples.to_vec(), expected);
    w.increment_last();
    assert_eq!(w.samples[15], 18);
}

#[test]
fn counters_and_rollbacks() {
    let mut d = ImguiData::new(60);
    assert_eq!(d.max_fps, 60);
    d.ping(30);
    d.fps(59);
    d.incoming_packets_per_second(3);
    d.outgoing_packets_per_second(4);
    d.incoming_bytes_per_second(500);
    d.outgoing_bytes_per_second(600);
    d.unacked_prediction_count(2);
    assert_eq!(d.pings.samples[15], 30);
    assert_eq!(d.pings.samples[14], 0);
    assert_eq!(d.fps.samples[15], 59);
    assert_eq!(d.inc_packets_per_second.samples[15], 3);
    assert_eq!(d.out_packets_per_second.samples[15], 4);
    assert_eq!(d.incoming_bytes_per_second.samples[15], 500);
    assert_eq!(d.outgoing_bytes_per_second.samples[15], 600);
    assert_eq!(d.unacked_prediction_count, 2);
    d.rollback(true);
    d.rollback(false);
    d.rollback(true);
    assert_eq!(d.rollbacks_per_second.samples[15], 2);
    d.set_rollback();
    assert_eq!(d.rollbacks_per_second.samples[14], 2);
    assert_eq!(d.rollbacks_per_second.samples[15], 0);
}

#[test]
fn inspected_entities() {
    let mut d = ImguiData::new(60);
    d.inspect_entity(CharEntityId(1));
    d.inspect_entity(CharEntityId(2));
    d.inspect_entity(CharEntityId(1));
    d.inspect_entity(CharEntityId(3));
    assert_eq!(d.inspected_entities, vec![CharEntityId(1), CharEntityId(2), CharEntityId(3)]);
    assert!(d.is_inspecting(CharEntityId(2)));
    d.stop_inspecting_entity(CharEntityId(1));
    assert_eq!(d.inspected_entities, vec![CharEntityId(3), CharEntityId(2)]);
    assert!(!d.is_inspecting(CharEntityId(1)));
}
