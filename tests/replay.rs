use toolgun::plugin::events::replay_queue::{pacing_delay, ReplayQueue};

fn payloads(q: &mut ReplayQueue<u32>, handler: u32, items: &[u8]) {
    for b in items {
        assert!(q.enqueue(Some(handler), vec![*b]).is_none());
    }
}

#[test]
fn pacing_delay_values() {
    assert_eq!(pacing_delay(0), 50);
    assert_eq!(pacing_delay(1), 49);
    assert_eq!(pacing_delay(5), 45);
    assert_eq!(pacing_delay(39), 11);
    assert_eq!(pacing_delay(40), 10);
    assert_eq!(pacing_delay(41), 10);
    assert_eq!(pacing_delay(usize::MAX), 10);
}

#[test]
fn pacing_delay_never_grows_with_backlog() {
    let mut last = pacing_delay(0);
    for n in 1..100 {
        let d = pacing_delay(n);
        assert!(d >= 10);
        assert!(d <= last);
        if last > 10 {
            assert!(d < last);
        }
        last = d;
    }
}

#[test]
fn events_come_out_in_arrival_order() {
    let mut q: ReplayQueue<u32> = ReplayQueue::new();
    payloads(&mut q, 7, &[1, 2, 3]);
    let mut now = 0u64;
    let mut seen = Vec::new();
    while q.len() > 0 {
        if let Some(t) = q.next_eligible_time() {
            now = t;
        }
        let call = q.drain_tick(now).expect("a handler was captured");
        assert_eq!(call.handler, 7);
        seen.push(call.payload[0]);
    }
    assert_eq!(seen, vec![1, 2, 3]);
}

#[test]
fn bulk_of_five_is_paced_then_reset() {
    let mut q: ReplayQueue<u32> = ReplayQueue::new();
    payloads(&mut q, 1, &[10, 11, 12, 13, 14]);
    assert_eq!(q.len(), 5);

    let first = q.drain_tick(1000).unwrap();
    assert_eq!(first.payload, vec![10]);
    assert_eq!(q.next_eligible_time(), Some(1045));

    assert!(q.drain_tick(1044).is_none());
    assert_eq!(q.len(), 4);

    let expected = [(1045u64, 11u8, Some(1091u64)), (1091, 12, Some(1138)), (1138, 13, Some(1186))];
    for (now, payload, next) in expected {
        let call = q.drain_tick(now).unwrap();
        assert_eq!(call.payload, vec![payload]);
        assert_eq!(q.next_eligible_time(), next);
    }
    let last = q.drain_tick(1186).unwrap();
    assert_eq!(last.payload, vec![14]);
    assert_eq!(q.len(), 0);
    assert_eq!(q.next_eligible_time(), None);
    assert!(q.is_eligible(0));
}

#[test]
fn empty_queue_tick_does_nothing() {
    let mut q: ReplayQueue<u32> = ReplayQueue::new();
    assert!(q.drain_tick(5).is_none());
    assert_eq!(q.next_eligible_time(), None);
}

#[test]
fn entry_without_handler_is_consumed_silently() {
    let mut q: ReplayQueue<u32> = ReplayQueue::new();
    assert!(q.enqueue(None, vec![1]).is_none());
    assert!(q.enqueue(Some(2), vec![2]).is_none());
    assert!(q.drain_tick(0).is_none());
    assert_eq!(q.len(), 1);
    assert_eq!(q.next_eligible_time(), Some(48));
    let call = q.drain_tick(48).unwrap();
    assert_eq!((call.handler, call.payload), (2, vec![2]));
}

#[test]
fn deadline_saturates() {
    let mut q: ReplayQueue<u32> = ReplayQueue::new();
    payloads(&mut q, 1, &[1, 2]);
    assert!(q.drain_tick(u64::MAX - 3).is_some());
    assert_eq!(q.next_eligible_time(), Some(u64::MAX));
}

#[test]
fn bounded_queue_drops_oldest() {
    let mut q: ReplayQueue<u32> = ReplayQueue::bounded(2);
    payloads(&mut q, 1, &[1, 2]);
    let dropped = q.enqueue(Some(1), vec![3]).expect("oldest entry dropped");
    assert_eq!(dropped.payload, vec![1]);
    assert_eq!(q.dropped_count(), 1);
    assert_eq!(q.len(), 2);
    assert_eq!(q.drain_tick(0).unwrap().payload, vec![2]);
    assert_eq!(q.drain_tick(100).unwrap().payload, vec![3]);
}

#[test]
fn clear_drops_without_forwarding() {
    let mut q: ReplayQueue<u32> = ReplayQueue::new();
    payloads(&mut q, 1, &[1, 2, 3]);
    assert!(q.drain_tick(0).is_some());
    q.clear();
    assert_eq!(q.len(), 0);
    assert_eq!(q.next_eligible_time(), None);
    assert!(q.drain_tick(1).is_none());
}
