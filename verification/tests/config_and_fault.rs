use transponder::config::{
    build_config, default_addr, default_receiver_url, effective_client_threads, effective_mtu,
    Config, DEFAULT_CLIENT_THREADS, DEFAULT_MTU,
};
use transponder::fault::{fatal_exit_code, is_fatal, Fault};
use transponder::transponder::UDPTransponder;
use transponder::worker::{json_content_type, worker_continues_after, DeliveryOutcome};

#[test]
fn defaults_match_the_documented_values() {
    assert_eq!(default_addr(), "127.0.0.1:48656");
    assert_eq!(
        default_receiver_url(),
        "http://localhost:55555/v1/tracking/events"
    );
    assert_eq!(DEFAULT_MTU, 1500);
    assert_eq!(DEFAULT_CLIENT_THREADS, 4);
    assert_eq!(json_content_type(), "application/json; charset=utf-8");
}

#[test]
fn mtu_is_clamped_to_the_minimum() {
    assert_eq!(effective_mtu(None), 1500);
    assert_eq!(effective_mtu(Some(-1)), 1500);
    assert_eq!(effective_mtu(Some(0)), 1500);
    assert_eq!(effective_mtu(Some(1400)), 1500);
    assert_eq!(effective_mtu(Some(1499)), 1500);
    assert_eq!(effective_mtu(Some(1500)), 1500);
    assert_eq!(effective_mtu(Some(1501)), 1501);
    assert_eq!(effective_mtu(Some(65536)), 65536);
}

#[test]
fn worker_count_defaults_to_four() {
    assert_eq!(effective_client_threads(None), 4);
    assert_eq!(effective_client_threads(Some(1)), 1);
    assert_eq!(effective_client_threads(Some(16)), 16);
}

#[test]
fn build_config_fills_the_gaps() {
    let c = build_config(None, None, None, None);
    assert_eq!(c.addr, "127.0.0.1:48656");
    assert_eq!(c.mtu, 1500);
    assert_eq!(c.receiver_url, "http://localhost:55555/v1/tracking/events");
    assert_eq!(c.num_client_threads, 4);

    let c = build_config(
        Some("0.0.0.0:9000".to_string()),
        Some(9000),
        Some("http://example.test/ingest".to_string()),
        Some(2),
    );
    assert_eq!(c.addr, "0.0.0.0:9000");
    assert_eq!(c.mtu, 9000);
    assert_eq!(c.receiver_url, "http://example.test/ingest");
    assert_eq!(c.num_client_threads, 2);
}

#[test]
fn duplicate_copies_every_field() {
    let c = Config {
        addr: "10.0.0.1:1234".to_string(),
        mtu: 2000,
        receiver_url: "http://upstream.test/x".to_string(),
        num_client_threads: 7,
    };
    let d = c.duplicate();
    assert_eq!(d.addr, c.addr);
    assert_eq!(d.mtu, c.mtu);
    assert_eq!(d.receiver_url, c.receiver_url);
    assert_eq!(d.num_client_threads, c.num_client_threads);
}

#[test]
fn transponder_keeps_its_configuration() {
    let c = build_config(Some("127.0.0.1:48700".to_string()), None, None, Some(3));
    let t = UDPTransponder::new(&c);
    assert_eq!(t.config().addr, "127.0.0.1:48700");
    assert_eq!(t.config().mtu, 1500);
    assert_eq!(t.config().num_client_threads, 3);
}

#[test]
fn only_setup_and_receive_loop_faults_are_fatal() {
    assert!(is_fatal(&Fault::Setup));
    assert!(is_fatal(&Fault::ReceiveLoop));
    assert!(!is_fatal(&Fault::SocketOption));
    assert!(!is_fatal(&Fault::Delivery));
    assert!(!is_fatal(&Fault::SpuriousWake));
}

#[test]
fn fatal_exit_code_prefers_the_os_code() {
    assert_eq!(fatal_exit_code(Some(98)), 98);
    assert_eq!(fatal_exit_code(Some(13)), 13);
    assert_eq!(fatal_exit_code(None), 1);
}

#[test]
fn no_delivery_outcome_stops_a_worker() {
    assert!(worker_continues_after(&DeliveryOutcome::Response(200)));
    assert!(worker_continues_after(&DeliveryOutcome::Response(500)));
    assert!(worker_continues_after(&DeliveryOutcome::TransportError));
}
