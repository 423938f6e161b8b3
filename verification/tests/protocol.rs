use icaa_core::chains::ChainName;
use icaa_core::envelope::DispatchEnvelope;
use icaa_core::errors::ProtocolError;
use icaa_core::identity::AccountIdentity;
use icaa_core::packets::PacketOutcome;
use icaa_core::protocol::{
    ProtocolAction, ProtocolEvent, RegistrationProtocol, RegistrationState,
};
use icaa_core::registry::RemoteProxyEntry;

fn cn(s: &str) -> ChainName {
    ChainName::new(s.to_string()).unwrap()
}

fn entry(chain: &str, address: Option<&str>) -> RemoteProxyEntry {
    RemoteProxyEntry { chain: cn(chain), address: address.map(|a| a.to_string()) }
}

fn listing(event_entries: Vec<RemoteProxyEntry>) -> ProtocolEvent {
    ProtocolEvent::ListingReceived { entries: event_entries }
}

/// Account seq 7 on juno, registry initially empty: the protocol issues a
/// create instruction, every packet succeeds, the re-queried registry lists
/// archway with an address, and the protocol reports Registered.
#[test]
fn fresh_registration_runs_to_registered() {
    let account = AccountIdentity::origin(7);
    let mut p = RegistrationProtocol::new(account, cn("archway"));

    // The existence check always runs first.
    assert_eq!(p.pending_action(), ProtocolAction::QueryRegistry);
    p.step(listing(Vec::new()));

    // Absent from the registry: the create instruction is owed.
    assert_eq!(p.pending_action(), ProtocolAction::IssueRegistration);
    assert!(matches!(p.state, RegistrationState::Registering));
    p.step(ProtocolEvent::CreateSubmitted);

    // Accepted on-chain: wait for all packets.
    assert_eq!(p.pending_action(), ProtocolAction::AwaitPackets);
    p.step(ProtocolEvent::PacketsResolved {
        outcomes: vec![PacketOutcome::Success { ack: vec![1] }],
    });

    // All packets succeeded: the registry must be re-queried.
    assert_eq!(p.pending_action(), ProtocolAction::QueryRegistry);
    assert!(!p.is_settled());
    p.step(listing(vec![entry("archway", Some("archway1proxyaddr"))]));

    assert_eq!(p.pending_action(), ProtocolAction::Report);
    assert!(p.is_settled());
    match &p.state {
        RegistrationState::Registered { entry } => {
            assert_eq!(entry.chain.as_text(), "archway");
            assert_eq!(entry.address.as_deref(), Some("archway1proxyaddr"));
        }
        _ => panic!("all-success relay with a confirming listing must register"),
    }
}

/// Invoking the protocol again for an already-registered hop is a no-op
/// that returns the existing entry: no create instruction is issued.
#[test]
fn second_invocation_issues_no_create() {
    let account = AccountIdentity::origin(7);
    let mut p = RegistrationProtocol::new(account, cn("archway"));
    assert_eq!(p.pending_action(), ProtocolAction::QueryRegistry);
    p.step(listing(vec![
        entry("osmosis", None),
        entry("archway", Some("archway1proxyaddr")),
    ]));
    // Settled at once, with the existing entry; the one owed operation is
    // to report, never to issue another create.
    assert!(p.is_settled());
    assert_eq!(p.pending_action(), ProtocolAction::Report);
    match &p.state {
        RegistrationState::Registered { entry } => {
            assert_eq!(entry.chain.as_text(), "archway");
            assert_eq!(entry.address.as_deref(), Some("archway1proxyaddr"));
        }
        _ => panic!("a listed hop is already registered"),
    }
}

/// One success and one timeout: the protocol fails, never registers.
#[test]
fn partial_success_is_failure() {
    let mut p = RegistrationProtocol::new(AccountIdentity::origin(1), cn("archway"));
    p.step(listing(Vec::new()));
    p.step(ProtocolEvent::CreateSubmitted);
    p.step(ProtocolEvent::PacketsResolved {
        outcomes: vec![
            PacketOutcome::Success { ack: vec![1] },
            PacketOutcome::Timeout,
        ],
    });
    assert!(matches!(
        p.state,
        RegistrationState::Failed { error: ProtocolError::RegistrationTimedOut }
    ));
    // Failed is absorbing: a later confirming listing changes nothing.
    p.step(listing(vec![entry("archway", Some("addr"))]));
    assert!(matches!(p.state, RegistrationState::Failed { .. }));
}

#[test]
fn error_ack_keeps_its_payload() {
    let mut p = RegistrationProtocol::new(AccountIdentity::origin(1), cn("archway"));
    p.step(listing(Vec::new()));
    p.step(ProtocolEvent::CreateSubmitted);
    p.step(ProtocolEvent::PacketsResolved {
        outcomes: vec![
            PacketOutcome::ErrorAck { payload: vec![9, 9] },
            PacketOutcome::ErrorAck { payload: vec![1] },
        ],
    });
    match &p.state {
        RegistrationState::Failed { error: ProtocolError::RegistrationErrorAck { payload } } => {
            assert_eq!(payload, &vec![9, 9]);
        }
        _ => panic!("an error acknowledgement is terminal failure"),
    }
}

#[test]
fn unreadable_registry_is_query_failure() {
    let mut p = RegistrationProtocol::new(AccountIdentity::origin(1), cn("archway"));
    p.step(ProtocolEvent::QueryFailed);
    assert!(matches!(
        p.state,
        RegistrationState::Failed { error: ProtocolError::ChainQueryFailed }
    ));
}

/// The relay acknowledged success but the re-queried registry still lacks
/// the hop: surfaced as the invariant violation, never swallowed.
#[test]
fn registry_disagreeing_with_ack_is_violation() {
    let mut p = RegistrationProtocol::new(AccountIdentity::origin(1), cn("archway"));
    p.step(listing(Vec::new()));
    p.step(ProtocolEvent::CreateSubmitted);
    p.step(ProtocolEvent::PacketsResolved {
        outcomes: vec![PacketOutcome::Success { ack: vec![] }],
    });
    p.step(listing(vec![entry("osmosis", Some("other"))]));
    assert!(matches!(
        p.state,
        RegistrationState::Failed { error: ProtocolError::ProtocolInvariantViolation }
    ));
}

/// The same account, already one hop out on archway, registers osmosis two
/// hops out: the create instruction travels wrapped for archway, and the
/// resulting identity is seq 7 with trace [archway, osmosis].
#[test]
fn second_leg_registration_through_archway() {
    let account = AccountIdentity::origin(7).extend(cn("archway"));
    let mut p = RegistrationProtocol::new(account, cn("osmosis"));

    // The create instruction, once encoded, is routed through archway:
    // one hop layer naming archway around the opaque payload.
    let e = p.create_instruction_envelope(vec![0xAB]);
    match e {
        DispatchEnvelope::Hop { target, inner } => {
            assert_eq!(target.as_text(), "archway");
            match *inner {
                DispatchEnvelope::Leaf { action } => assert_eq!(action, vec![0xAB]),
                _ => panic!("the register payload sits directly under the one hop"),
            }
        }
        _ => panic!("a one-hop account needs one wrapping layer"),
    }

    p.step(listing(Vec::new()));
    p.step(ProtocolEvent::CreateSubmitted);
    p.step(ProtocolEvent::PacketsResolved {
        outcomes: vec![PacketOutcome::Success { ack: vec![] }],
    });
    p.step(listing(vec![entry("osmosis", Some("osmo1proxyaddr"))]));
    assert!(p.is_settled());

    let reached = p.registered_identity();
    assert_eq!(reached.origin_sequence, 7);
    let names: Vec<String> =
        reached.trace.hops().iter().map(|c| c.as_text().clone()).collect();
    assert_eq!(names, vec!["archway".to_string(), "osmosis".to_string()]);
}

/// Unexpected events leave the state alone.
#[test]
fn mismatched_events_do_not_advance() {
    let mut p = RegistrationProtocol::new(AccountIdentity::origin(1), cn("archway"));
    p.step(ProtocolEvent::CreateSubmitted);
    assert!(matches!(p.state, RegistrationState::Unregistered));
    p.step(ProtocolEvent::PacketsResolved { outcomes: Vec::new() });
    assert!(matches!(p.state, RegistrationState::Unregistered));
}
