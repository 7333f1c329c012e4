//! Tests for the sender's payload state and the listener's waiting state
//! machine, including the end-to-end scenarios: what a listener does with the
//! very bytes a sender broadcasts.

use simpdiscoverylib::{bytes_equal, encode};
use simpdiscoverylib::{BeaconListener, BeaconSender, ReceiveEvent, WaitOutcome};

fn datagram(data: Vec<u8>, source_ip: &str) -> ReceiveEvent {
    ReceiveEvent::Datagram { data, source_ip: source_ip.to_string() }
}

#[test]
fn sender_payload_is_the_encoded_beacon() {
    let sender = BeaconSender::new(8080, b"svc-A", 9002);
    assert_eq!(sender.beacon_payload(), &encode(8080, b"svc-A"));
    assert_eq!(sender.broadcast_port(), 9002);
}

#[test]
fn repeated_sends_are_byte_identical() {
    // No per-send state mutation: every send reads the payload fixed at
    // construction, so resends carry identical bytes.
    let sender = BeaconSender::new(8080, b"svc-A", 9002);
    let first = sender.beacon_payload().clone();
    let second = sender.beacon_payload().clone();
    let third = sender.beacon_payload().clone();
    assert_eq!(first, second);
    assert_eq!(second, third);
}

#[test]
fn matching_beacon_is_returned() {
    let listener = BeaconListener::new(b"svc-A");
    let outcome = listener.wait_step(datagram(encode(8080, b"svc-A"), "192.168.1.9"));
    match outcome {
        WaitOutcome::Matched(beacon) => {
            assert_eq!(beacon.service_ip, "192.168.1.9");
            assert_eq!(beacon.service_port, 8080);
            assert_eq!(beacon.service_name, b"svc-A".to_vec());
        }
        _ => panic!("a beacon announcing the filtered service must match"),
    }
}

#[test]
fn beacon_for_another_service_is_ignored() {
    let listener = BeaconListener::new(b"svc-A");
    let outcome = listener.wait_step(datagram(encode(8080, b"svc-B"), "192.168.1.9"));
    assert!(matches!(outcome, WaitOutcome::KeepWaiting));
}

#[test]
fn name_prefix_does_not_match() {
    let listener = BeaconListener::new(b"svc-A");
    assert!(matches!(
        listener.wait_step(datagram(encode(8080, b"svc-"), "10.0.0.1")),
        WaitOutcome::KeepWaiting
    ));
    assert!(matches!(
        listener.wait_step(datagram(encode(8080, b"svc-AB"), "10.0.0.1")),
        WaitOutcome::KeepWaiting
    ));
}

#[test]
fn non_beacon_datagram_is_ignored() {
    let listener = BeaconListener::new(b"svc-A");
    assert!(matches!(
        listener.wait_step(datagram(vec![0x12, 0x34, 0x56, 0x78], "10.0.0.1")),
        WaitOutcome::KeepWaiting
    ));
    assert!(matches!(
        listener.wait_step(datagram(Vec::new(), "10.0.0.1")),
        WaitOutcome::KeepWaiting
    ));
}

#[test]
fn timeout_event_ends_the_wait_as_timeout() {
    let listener = BeaconListener::new(b"svc-A");
    assert!(matches!(listener.wait_step(ReceiveEvent::TimedOut), WaitOutcome::TimedOut));
}

#[test]
fn receive_failure_ends_the_wait_as_error() {
    let listener = BeaconListener::new(b"svc-A");
    assert!(matches!(listener.wait_step(ReceiveEvent::Failed), WaitOutcome::ReceiveError));
}

#[test]
fn end_to_end_matching_service() {
    // A sender for svc-A on port 8080; a listener filtering for svc-A sees
    // exactly the sender's payload and must return the beacon.
    let sender = BeaconSender::new(8080, b"svc-A", 9002);
    let listener = BeaconListener::new(b"svc-A");
    let outcome = listener.wait_step(datagram(sender.beacon_payload().clone(), "172.16.3.4"));
    match outcome {
        WaitOutcome::Matched(beacon) => {
            assert_eq!(beacon.service_port, 8080);
            assert_eq!(beacon.service_name, b"svc-A".to_vec());
            assert_eq!(beacon.service_ip, "172.16.3.4");
        }
        _ => panic!("the matching beacon must be returned"),
    }
}

#[test]
fn end_to_end_unmatched_service_keeps_waiting() {
    // The same sender, but the listener filters for svc-Z: every arriving
    // beacon is discarded, so with a timeout the wait would time out.
    let sender = BeaconSender::new(8080, b"svc-A", 9002);
    let listener = BeaconListener::new(b"svc-Z");
    for _ in 0..3 {
        let outcome = listener.wait_step(datagram(sender.beacon_payload().clone(), "172.16.3.4"));
        assert!(matches!(outcome, WaitOutcome::KeepWaiting));
    }
    assert!(matches!(listener.wait_step(ReceiveEvent::TimedOut), WaitOutcome::TimedOut));
}

#[test]
fn truncated_beacon_still_matches_on_truncated_name() {
    // The transport truncates datagrams to the receive buffer's capacity; the
    // decoder sees only what was received.
    let payload = encode(80, b"svc-A-with-a-long-tail");
    let truncated = payload[..9].to_vec(); // header plus "svc-A"
    let listener = BeaconListener::new(b"svc-A");
    match listener.wait_step(datagram(truncated, "10.0.0.2")) {
        WaitOutcome::Matched(beacon) => assert_eq!(beacon.service_name, b"svc-A".to_vec()),
        _ => panic!("the truncated name equals the filter and must match"),
    }
}

#[test]
fn empty_filter_matches_bare_header_beacon() {
    let listener = BeaconListener::new(b"");
    match listener.wait_step(datagram(encode(443, b""), "10.9.8.7")) {
        WaitOutcome::Matched(beacon) => {
            assert_eq!(beacon.service_port, 443);
            assert_eq!(beacon.service_name, Vec::<u8>::new());
        }
        _ => panic!("an empty name equals an empty filter"),
    }
}

#[test]
fn byte_string_equality() {
    assert!(bytes_equal(b"svc-A", b"svc-A"));
    assert!(bytes_equal(b"", b""));
    assert!(!bytes_equal(b"svc-A", b"svc-B"));
    assert!(!bytes_equal(b"svc-A", b"svc-"));
    assert!(!bytes_equal(b"", b"x"));
}
