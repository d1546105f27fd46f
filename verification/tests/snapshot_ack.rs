use rustarok_client::snapshot_ack::{ServerAckResult, SnapshotStorage};

fn all(b: bool) -> Vec<bool> {
    vec![b; 64]
}

fn predicted(ticks: u32) -> SnapshotStorage {
    let mut s = SnapshotStorage::new();
    for cid in 1..=ticks {
        s.add_intention(cid);
        s.tick();
    }
    s
}

#[test]
fn nothing_to_acknowledge() {
    let mut s = SnapshotStorage::new();
    assert_eq!(s.get_unacked_prediction_count(), 0);
    assert_eq!(s.ack_arrived(5, 0, &all(true), &vec![]), ServerAckResult::ServerIsAheadOfClient);
    assert_eq!(s.get_last_acknowledged_index(), 0);
}

#[test]
fn matching_prediction_moves_on() {
    let mut s = predicted(3);
    assert_eq!(s.get_tail(), 4);
    assert_eq!(s.get_unacked_prediction_count(), 3);
    assert_eq!(s.ack_arrived(9, 2, &all(true), &vec![true]), ServerAckResult::NoCorrection);
    assert_eq!(s.get_last_acknowledged_index(), 1);
    assert_eq!(s.get_last_acknowledged_index_for_server_entities(), 1);
    assert_eq!(s.get_last_rollback_at(), 0);
}

#[test]
fn wrong_local_prediction_rolls_back() {
    let mut s = predicted(5);
    let r = s.ack_arrived(9, 2, &all(false), &vec![true]);
    assert_eq!(r, ServerAckResult::Rollback { repredict_this_many_frames: 4 });
    assert!(r.is_rollback());
    assert_eq!(s.get_last_acknowledged_index(), 1);
    assert_eq!(s.get_last_acknowledged_index_for_server_entities(), 5);
    assert_eq!(s.get_last_rollback_at(), 9);
}

#[test]
fn wrong_remote_prediction_is_corrected() {
    let mut s = predicted(5);
    let r = s.ack_arrived(7, 2, &all(true), &vec![true, false]);
    assert_eq!(r, ServerAckResult::RemoteEntityCorrection);
    assert!(!r.is_rollback());
    assert_eq!(s.get_last_acknowledged_index_for_server_entities(), 5);
    assert_eq!(s.get_last_rollback_at(), 7);
}

#[test]
fn older_command_waits_on_a_mismatch() {
    let mut s = predicted(5);
    assert_eq!(s.ack_arrived(7, 0, &all(false), &vec![]), ServerAckResult::NoCorrection);
    assert_eq!(s.get_last_acknowledged_index(), 0);
    assert_eq!(s.get_last_acknowledged_index_for_server_entities(), 1);
}

#[test]
fn client_ahead_jumps_to_the_acknowledged_command() {
    let mut s = predicted(6);
    // tick 1 was predicted under cid 1; the server acknowledges cid 4, predicted at tick 4
    let mut m = all(false);
    m[3] = true;
    assert_eq!(s.ack_arrived(7, 4, &m, &vec![]), ServerAckResult::NoCorrection);
    assert_eq!(s.get_last_acknowledged_index(), 4);
    assert_eq!(s.pop_intention(), 0);
}
