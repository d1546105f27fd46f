use rustarok_client::delayed_packets::DelayedPacketReceiver;

#[test]
fn split_keeps_order_on_both_sides() {
    let mut q: DelayedPacketReceiver<u32> = DelayedPacketReceiver::new(100);
    for p in 1..=5 {
        q.push(p);
    }
    let ready = q.split_due(&vec![true, false, true, false, false]);
    assert_eq!(ready, vec![1, 3]);
    let left: Vec<u32> = q.packets.iter().map(|e| e.1).collect();
    assert_eq!(left, vec![2, 4, 5]);
}

#[test]
fn no_delay_releases_everything_and_a_long_one_nothing() {
    let mut q: DelayedPacketReceiver<&str> = DelayedPacketReceiver::new(0);
    q.push("a");
    q.push("b");
    assert_eq!(q.get_packets(), vec!["a", "b"]);
    assert!(q.packets.is_empty());
    let mut slow: DelayedPacketReceiver<&str> = DelayedPacketReceiver::new(3_600_000);
    slow.push("c");
    assert!(slow.get_packets().is_empty());
    assert_eq!(slow.packets.len(), 1);
}

#[test]
fn take_due_releases_packets_that_waited_long_enough() {
    let mut q: DelayedPacketReceiver<u32> = DelayedPacketReceiver::new(100);
    for p in 1..=4 {
        q.push(p);
    }
    let ready = q.take_due(&vec![150, 99, 100, 0]);
    assert_eq!(ready, vec![1, 3]);
    let left: Vec<u32> = q.packets.iter().map(|e| e.1).collect();
    assert_eq!(left, vec![2, 4]);
    assert_eq!(q.delay_millis, 100);
}
