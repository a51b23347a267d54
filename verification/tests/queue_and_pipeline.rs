use transponder::config::build_config;
use transponder::queue::HandoffQueue;
use transponder::receiver::{capture_payload, ingest_datagram, receiver_step, SocketEvent};
use transponder::worker::{worker_step, WorkerAction};

#[test]
fn empty_queue_pops_nothing() {
    let mut q = HandoffQueue::new();
    assert!(q.is_empty());
    assert_eq!(q.len(), 0);
    assert!(q.pop().is_none());
    assert_eq!(q.len(), 0);
}

#[test]
fn drain_is_lifo() {
    let oldest = vec![1u8];
    let middle = vec![2u8, 2];
    let newest = vec![3u8, 3, 3];
    let mut q = HandoffQueue::new();
    q.push(oldest.clone());
    q.push(middle.clone());
    q.push(newest.clone());
    assert_eq!(q.len(), 3);
    assert_eq!(q.pop(), Some(newest));
    assert_eq!(q.pop(), Some(middle));
    assert_eq!(q.pop(), Some(oldest));
    assert_eq!(q.pop(), None);
}

#[test]
fn no_payload_lost_or_duplicated() {
    // Push N distinct payloads, drain fully: each one comes back exactly
    // once, and nothing else does.
    let mut q = HandoffQueue::new();
    let n = 100u8;
    for i in 0..n {
        q.push(vec![i, i, i]);
    }
    assert_eq!(q.len(), n as usize);
    let mut seen = vec![false; n as usize];
    while let Some(p) = q.pop() {
        assert_eq!(p.len(), 3);
        let i = p[0] as usize;
        assert_eq!(p, vec![p[0], p[0], p[0]]);
        assert!(!seen[i], "payload delivered twice");
        seen[i] = true;
    }
    assert!(seen.iter().all(|&s| s), "payload lost");
    assert!(q.is_empty());
}

#[test]
fn producer_never_blocked_by_idle_consumers() {
    // No worker ever pops (the upstream endpoint is unreachable, say):
    // every push is still accepted and every payload stays pending.
    let mut q = HandoffQueue::new();
    for i in 0..1000u16 {
        q.push(i.to_be_bytes().to_vec());
        assert_eq!(q.len(), i as usize + 1);
    }
    assert_eq!(q.len(), 1000);
}

#[test]
fn capture_copies_exactly_the_received_bytes() {
    let buf = vec![10u8, 20, 30, 40, 50];
    assert_eq!(capture_payload(&buf, 0), Vec::<u8>::new());
    assert_eq!(capture_payload(&buf, 3), vec![10u8, 20, 30]);
    assert_eq!(capture_payload(&buf, 5), buf);
}

#[test]
fn ingest_appends_to_the_queue() {
    let mut q = HandoffQueue::new();
    let buf = vec![9u8, 8, 7, 0, 0];
    ingest_datagram(&mut q, &buf, 3);
    ingest_datagram(&mut q, &buf, 1);
    assert_eq!(q.len(), 2);
    assert_eq!(q.pop(), Some(vec![9u8]));
    assert_eq!(q.pop(), Some(vec![9u8, 8, 7]));
}

#[test]
fn receiver_continues_on_datagram_stops_on_error() {
    let mut q = HandoffQueue::new();
    let buf = vec![1u8, 2, 3];
    assert!(receiver_step(&mut q, &buf, SocketEvent::Datagram(2)));
    assert_eq!(q.len(), 1);
    assert!(!receiver_step(&mut q, &buf, SocketEvent::ReceiveError));
    assert_eq!(q.len(), 1, "a receive error must not touch pending payloads");
    assert_eq!(q.pop(), Some(vec![1u8, 2]));
}

#[test]
fn worker_takes_newest_payload_or_waits() {
    let config = build_config(None, None, None, Some(1));
    let mut q = HandoffQueue::new();
    q.push(b"older".to_vec());
    q.push(b"newer".to_vec());
    match worker_step(&mut q, &config) {
        WorkerAction::Deliver(req) => {
            assert_eq!(req.body, b"newer".to_vec());
            assert_eq!(req.url, config.receiver_url);
            assert_eq!(req.content_type, "application/json; charset=utf-8");
        }
        WorkerAction::AwaitWork => panic!("a pending payload must be delivered"),
    }
    assert_eq!(q.len(), 1);
    match worker_step(&mut q, &config) {
        WorkerAction::Deliver(req) => assert_eq!(req.body, b"older".to_vec()),
        WorkerAction::AwaitWork => panic!("a pending payload must be delivered"),
    }
    assert!(matches!(worker_step(&mut q, &config), WorkerAction::AwaitWork));
}

#[test]
fn hello_flows_from_datagram_to_post_body() {
    // The computational end-to-end path: a datagram b"hello" arrives with
    // one worker configured; the resulting POST carries exactly b"hello"
    // to the configured upstream URL.
    let config = build_config(
        None,
        None,
        Some("http://127.0.0.1:55555/v1/tracking/events".to_string()),
        Some(1),
    );
    let mut q = HandoffQueue::new();
    let mut buf = vec![0u8; config.mtu as usize];
    buf[..5].copy_from_slice(b"hello");
    assert!(receiver_step(&mut q, &buf, SocketEvent::Datagram(5)));
    match worker_step(&mut q, &config) {
        WorkerAction::Deliver(req) => {
            assert_eq!(req.body, b"hello".to_vec());
            assert_eq!(req.url, "http://127.0.0.1:55555/v1/tracking/events");
            assert_eq!(req.content_type, "application/json; charset=utf-8");
        }
        WorkerAction::AwaitWork => panic!("the received payload must be delivered"),
    }
    assert!(q.is_empty());
}
