use icaa_core::chains::ChainId;
use icaa_core::packets::{
    first_error_payload, has_any_timeout, verdict_of, PacketOutcome, PacketRef, PacketWaiter,
    PendingTransaction, RelayVerdict,
};

fn id(s: &str) -> ChainId {
    ChainId::new(s.to_string()).unwrap()
}

fn packet(src: &str, dst: &str, sequence: u64) -> PacketRef {
    PacketRef { source: id(src), destination: id(dst), sequence }
}

fn two_packet_tx() -> PendingTransaction {
    PendingTransaction {
        origin: id("juno-1"),
        packets: vec![packet("juno-1", "archway-1", 4), packet("juno-1", "osmosis-1", 9)],
    }
}

#[test]
fn empty_chain_id_rejected() {
    assert!(ChainId::new(String::new()).is_none());
    assert!(ChainId::new("juno-1".to_string()).is_some());
}

#[test]
fn waiter_without_packets_is_complete_at_once() {
    let tx = PendingTransaction { origin: id("juno-1"), packets: Vec::new() };
    let w = PacketWaiter::new(&tx);
    assert!(w.is_complete());
    assert_eq!(w.resolved_outcomes().len(), 0);
}

#[test]
fn waiter_is_incomplete_until_every_packet_resolves() {
    let w0 = PacketWaiter::new(&two_packet_tx());
    assert!(!w0.is_complete());
    let mut w = w0;
    w.record(0, PacketOutcome::Success { ack: vec![1] });
    assert!(!w.is_complete());
    w.record(1, PacketOutcome::Timeout);
    assert!(w.is_complete());
}

#[test]
fn waiter_reports_every_outcome() {
    let mut w = PacketWaiter::new(&two_packet_tx());
    w.record(0, PacketOutcome::Success { ack: vec![1] });
    w.record(1, PacketOutcome::Timeout);
    let outcomes = w.resolved_outcomes();
    assert_eq!(outcomes.len(), 2);
    assert!(matches!(outcomes[0], PacketOutcome::Success { .. }));
    assert!(matches!(outcomes[1], PacketOutcome::Timeout));
}

#[test]
fn find_packet_by_relay_key() {
    let w = PacketWaiter::new(&two_packet_tx());
    assert_eq!(w.find_packet(&packet("juno-1", "osmosis-1", 9)), Some(1));
    assert_eq!(w.find_packet(&packet("juno-1", "osmosis-1", 10)), None);
    assert_eq!(w.find_packet(&packet("juno-1", "neutron-1", 9)), None);
}

#[test]
fn verdict_all_success_is_delivered() {
    let outcomes = vec![
        PacketOutcome::Success { ack: vec![] },
        PacketOutcome::Success { ack: vec![2] },
    ];
    assert!(matches!(verdict_of(&outcomes), RelayVerdict::Delivered));
}

#[test]
fn verdict_of_no_outcomes_is_delivered() {
    let outcomes: Vec<PacketOutcome> = Vec::new();
    assert!(matches!(verdict_of(&outcomes), RelayVerdict::Delivered));
}

#[test]
fn verdict_timeout_fails_the_batch() {
    let outcomes = vec![PacketOutcome::Success { ack: vec![] }, PacketOutcome::Timeout];
    assert!(matches!(verdict_of(&outcomes), RelayVerdict::TimedOut));
}

#[test]
fn verdict_error_ack_dominates_timeout() {
    let outcomes = vec![
        PacketOutcome::Timeout,
        PacketOutcome::ErrorAck { payload: vec![7] },
    ];
    assert!(matches!(verdict_of(&outcomes), RelayVerdict::Rejected));
}

#[test]
fn first_error_payload_is_the_first() {
    let outcomes = vec![
        PacketOutcome::Success { ack: vec![] },
        PacketOutcome::ErrorAck { payload: vec![7] },
        PacketOutcome::ErrorAck { payload: vec![8] },
    ];
    assert_eq!(first_error_payload(&outcomes), Some(&vec![7]));
    let clean = vec![PacketOutcome::Success { ack: vec![] }];
    assert_eq!(first_error_payload(&clean), None);
}

#[test]
fn timeout_detection() {
    assert!(has_any_timeout(&vec![PacketOutcome::Timeout]));
    assert!(!has_any_timeout(&vec![PacketOutcome::Success { ack: vec![] }]));
}
