//! The registration protocol: the state machine that idempotently
//! establishes a remote account on a target chain.  The sequence is strict:
//! check the registry, and only if the hop is absent issue a create
//! instruction, wait for every packet of that transaction to reach a
//! terminal outcome, then re-query the registry to confirm.  Each step is a
//! pure transition on observed events; performing the queries, broadcasts
//! and waits is the surrounding program's job.

use crate::chains::ChainName;
use crate::envelope::{routed_to, wrap, DispatchEnvelope};
use crate::errors::{ErrorModel, ProtocolError};
use crate::identity::AccountIdentity;
use crate::packets::{
    all_success, first_error_ack_payload, has_error_ack, has_timeout, PacketOutcome,
};
use crate::registry::{
    entry_model, find_entry, first_entry_for, lemma_first_entry_at, lemma_first_entry_lists,
    lists_chain, EntryModel, RemoteProxyEntry,
};
use vstd::prelude::*;

verus! {

/// Where one registration attempt stands.  `Failed` is absorbing: the
/// protocol never retries by itself, since a timeout may be a transient
/// relay delay and a blind retry could double-register.
pub enum RegistrationState {
    /// The registry listing did not (yet) contain the target hop.
    Unregistered,
    /// The create instruction is being issued on the origin chain.
    Registering,
    /// The origin transaction is accepted; its packets are in flight.
    /// `relayed` turns true once every packet succeeded, while the
    /// confirming re-query of the registry is still outstanding.
    AwaitingRelay { relayed: bool },
    /// The hop is established; `entry` is the registry entry confirming it.
    Registered { entry: RemoteProxyEntry },
    /// The attempt failed; the caller decides what to do next.
    Failed { error: ProtocolError },
}

/// The mathematical value of a protocol state.
pub enum StateModel {
    Unregistered,
    Registering,
    AwaitingRelay { relayed: bool },
    Registered { entry: EntryModel },
    Failed { error: ErrorModel },
}

impl RegistrationState {
    pub open spec fn model(&self) -> StateModel {
        match self {
            RegistrationState::Unregistered => StateModel::Unregistered,
            RegistrationState::Registering => StateModel::Registering,
            RegistrationState::AwaitingRelay { relayed } => StateModel::AwaitingRelay {
                relayed: *relayed,
            },
            RegistrationState::Registered { entry } => StateModel::Registered {
                entry: entry_model(*entry),
            },
            RegistrationState::Failed { error } => StateModel::Failed { error: error.model() },
        }
    }
}

/// What the protocol observed: each event is the result of the one
/// operation the protocol asked for last.
pub enum ProtocolEvent {
    /// The registry listing for the account, freshly fetched.
    ListingReceived { entries: Vec<RemoteProxyEntry> },
    /// The registry could not be read.
    QueryFailed,
    /// The create instruction was accepted on the origin chain.
    CreateSubmitted,
    /// Every packet of the create transaction reached a terminal outcome.
    PacketsResolved { outcomes: Vec<PacketOutcome> },
}

/// The mathematical value of an event.
pub enum EventModel {
    Listing { entries: Seq<RemoteProxyEntry> },
    QueryFailed,
    CreateSubmitted,
    Packets { outcomes: Seq<PacketOutcome> },
}

impl ProtocolEvent {
    pub open spec fn model(&self) -> EventModel {
        match self {
            ProtocolEvent::ListingReceived { entries } => EventModel::Listing {
                entries: entries@,
            },
            ProtocolEvent::QueryFailed => EventModel::QueryFailed,
            ProtocolEvent::CreateSubmitted => EventModel::CreateSubmitted,
            ProtocolEvent::PacketsResolved { outcomes } => EventModel::Packets {
                outcomes: outcomes@,
            },
        }
    }
}

/// What the surrounding program must perform next for a state.
#[derive(PartialEq, Eq, Structural, Clone, Copy, Debug)]
pub enum ProtocolAction {
    /// Fetch the registry listing for the account (read-only).
    QueryRegistry,
    /// Issue the create-remote-account instruction on the origin chain.
    IssueRegistration,
    /// Wait for every packet of the accepted transaction to resolve.
    AwaitPackets,
    /// Nothing further to perform on-chain; the caller reads the state.
    Report,
}

/// The transition relation of the protocol: the state after observing
/// `event` in state `s`, registering the hop `target`.
///
/// A listing in `Unregistered` either settles the attempt at once (the hop
/// is already listed: idempotence) or opens the create path.  Packet
/// outcomes settle the relay: an error acknowledgement or a timeout is
/// terminal failure, all-success demands the confirming re-query.  A
/// confirming listing without the hop is the surfaced invariant violation.
/// Every unexpected pairing leaves the state unchanged.
pub open spec fn protocol_step(s: StateModel, target: Seq<char>, event: EventModel) -> StateModel {
    match (s, event) {
        (StateModel::Unregistered, EventModel::Listing { entries }) => match first_entry_for(
            entries,
            target,
        ) {
            Some(entry) => StateModel::Registered { entry },
            None => StateModel::Registering,
        },
        (StateModel::Unregistered, EventModel::QueryFailed) => StateModel::Failed {
            error: ErrorModel::ChainQueryFailed,
        },
        (StateModel::Registering, EventModel::CreateSubmitted) => StateModel::AwaitingRelay {
            relayed: false,
        },
        (
            StateModel::AwaitingRelay { relayed: false },
            EventModel::Packets { outcomes },
        ) => if has_error_ack(outcomes) {
            StateModel::Failed {
                error: ErrorModel::RegistrationErrorAck {
                    payload: first_error_ack_payload(outcomes),
                },
            }
        } else if has_timeout(outcomes) {
            StateModel::Failed { error: ErrorModel::RegistrationTimedOut }
        } else {
            StateModel::AwaitingRelay { relayed: true }
        },
        (
            StateModel::AwaitingRelay { relayed: true },
            EventModel::Listing { entries },
        ) => match first_entry_for(entries, target) {
            Some(entry) => StateModel::Registered { entry },
            None => StateModel::Failed { error: ErrorModel::ProtocolInvariantViolation },
        },
        (StateModel::AwaitingRelay { relayed: true }, EventModel::QueryFailed) => StateModel::Failed {
            error: ErrorModel::ChainQueryFailed,
        },
        (_, _) => s,
    }
}

/// The one operation owed in a state.
pub open spec fn action_of(s: StateModel) -> ProtocolAction {
    match s {
        StateModel::Unregistered => ProtocolAction::QueryRegistry,
        StateModel::Registering => ProtocolAction::IssueRegistration,
        StateModel::AwaitingRelay { relayed: false } => ProtocolAction::AwaitPackets,
        StateModel::AwaitingRelay { relayed: true } => ProtocolAction::QueryRegistry,
        StateModel::Registered { .. } => ProtocolAction::Report,
        StateModel::Failed { .. } => ProtocolAction::Report,
    }
}

/// One registration attempt: which account registers which target hop, and
/// where the attempt stands.
pub struct RegistrationProtocol {
    pub account: AccountIdentity,
    pub target: ChainName,
    pub state: RegistrationState,
}

impl RegistrationProtocol {
    pub open spec fn wf(&self) -> bool {
        self.account.wf() && self.target.wf()
    }

    /// A fresh attempt: nothing is known yet, so the first owed operation
    /// is the registry query — it always runs first, and a listed hop is
    /// never re-created.
    pub fn new(account: AccountIdentity, target: ChainName) -> (r: RegistrationProtocol)
        requires
            account.wf(),
            target.wf(),
        ensures
            r.account.origin_sequence == account.origin_sequence,
            r.account.trace@ == account.trace@,
            r.target@ == target@,
            r.state.model() == StateModel::Unregistered,
            r.wf(),
    {
        RegistrationProtocol { account, target, state: RegistrationState::Unregistered }
    }

    /// The operation the surrounding program must perform next.
    pub fn pending_action(&self) -> (a: ProtocolAction)
        ensures
            a == action_of(self.state.model()),
    {
        match &self.state {
            RegistrationState::Unregistered => ProtocolAction::QueryRegistry,
            RegistrationState::Registering => ProtocolAction::IssueRegistration,
            RegistrationState::AwaitingRelay { relayed } => if *relayed {
                ProtocolAction::QueryRegistry
            } else {
                ProtocolAction::AwaitPackets
            },
            RegistrationState::Registered { .. } => ProtocolAction::Report,
            RegistrationState::Failed { .. } => ProtocolAction::Report,
        }
    }

    /// Whether the attempt has reached a terminal state.
    pub fn is_settled(&self) -> (r: bool)
        ensures
            r == (self.state.model() matches StateModel::Registered { .. } || self.state.model()
                matches StateModel::Failed { .. }),
    {
        match &self.state {
            RegistrationState::Registered { .. } => true,
            RegistrationState::Failed { .. } => true,
            _ => false,
        }
    }

    /// Observes one event: the state advances exactly as the transition
    /// relation says, and nothing else about the attempt changes.
    pub fn step(&mut self, event: ProtocolEvent)
        requires
            old(self).wf(),
        ensures
            final(self).account.origin_sequence == old(self).account.origin_sequence,
            final(self).account.trace@ == old(self).account.trace@,
            final(self).target@ == old(self).target@,
            final(self).state.model() == protocol_step(
                old(self).state.model(),
                old(self).target@,
                event.model(),
            ),
            final(self).wf(),
    {
        let next = match (&self.state, event) {
            (RegistrationState::Unregistered, ProtocolEvent::ListingReceived { entries }) => {
                match find_entry(&entries, &self.target) {
                    Some(i) => {
                        proof {
                            lemma_first_entry_at(entries@, self.target@, i as int);
                        }
                        RegistrationState::Registered { entry: entries[i].clone() }
                    },
                    None => {
                        proof {
                            lemma_first_entry_lists(entries@, self.target@);
                        }
                        RegistrationState::Registering
                    },
                }
            },
            (RegistrationState::Unregistered, ProtocolEvent::QueryFailed) => {
                RegistrationState::Failed { error: ProtocolError::ChainQueryFailed }
            },
            (RegistrationState::Registering, ProtocolEvent::CreateSubmitted) => {
                RegistrationState::AwaitingRelay { relayed: false }
            },
            (
                RegistrationState::AwaitingRelay { relayed: false },
                ProtocolEvent::PacketsResolved { outcomes },
            ) => {
                match crate::packets::first_error_payload(&outcomes) {
                    Some(payload) => RegistrationState::Failed {
                        error: ProtocolError::RegistrationErrorAck { payload: payload.clone() },
                    },
                    None => {
                        if crate::packets::has_any_timeout(&outcomes) {
                            RegistrationState::Failed {
                                error: ProtocolError::RegistrationTimedOut,
                            }
                        } else {
                            RegistrationState::AwaitingRelay { relayed: true }
                        }
                    },
                }
            },
            (
                RegistrationState::AwaitingRelay { relayed: true },
                ProtocolEvent::ListingReceived { entries },
            ) => {
                match find_entry(&entries, &self.target) {
                    Some(i) => {
                        proof {
                            lemma_first_entry_at(entries@, self.target@, i as int);
                        }
                        RegistrationState::Registered { entry: entries[i].clone() }
                    },
                    None => {
                        proof {
                            lemma_first_entry_lists(entries@, self.target@);
                        }
                        RegistrationState::Failed {
                            error: ProtocolError::ProtocolInvariantViolation,
                        }
                    },
                }
            },
            (RegistrationState::AwaitingRelay { relayed: true }, ProtocolEvent::QueryFailed) => {
                RegistrationState::Failed { error: ProtocolError::ChainQueryFailed }
            },
            (_, _) => {
                return;
            },
        };
        self.state = next;
    }

    /// The envelope carrying the encoded create instruction to the chain
    /// the account lives on: one hop layer per hop of the account's trace,
    /// so that registration itself can be requested through intermediate
    /// hops.  Encoding the instruction is the caller's (opaque) concern.
    pub fn create_instruction_envelope(&self, encoded_instruction: Vec<u8>) -> (e:
        DispatchEnvelope)
        requires
            self.wf(),
        ensures
            e@ == wrap(self.account.trace@, encoded_instruction@),
            e.wf(),
    {
        routed_to(&self.account, encoded_instruction)
    }

    /// The identity of the account once the target hop is established: the
    /// account's trace grown by the target chain.
    pub fn registered_identity(&self) -> (r: AccountIdentity)
        requires
            self.wf(),
        ensures
            r.origin_sequence == self.account.origin_sequence,
            r.trace@ =~= self.account.trace@.push(self.target@),
            r.wf(),
    {
        self.account.clone().extend(self.target.clone())
    }
}

/// Idempotence: a listing that already carries the target hop settles the
/// attempt at `Registered` with the existing entry, and the owed operation
/// is only to report — no create instruction is ever issued for a hop the
/// registry lists.
pub proof fn lemma_registered_hop_not_reissued(target: Seq<char>, entries: Seq<RemoteProxyEntry>)
    requires
        lists_chain(entries, target),
    ensures
        protocol_step(StateModel::Unregistered, target, EventModel::Listing { entries })
            matches StateModel::Registered { .. },
        action_of(
            protocol_step(StateModel::Unregistered, target, EventModel::Listing { entries }),
        ) == ProtocolAction::Report,
{
    lemma_first_entry_lists(entries, target);
}

/// The create instruction is issued only for an unlisted hop: the one
/// transition whose owed operation is `IssueRegistration` is the one out of
/// `Unregistered` on a listing without the target.
pub proof fn lemma_unlisted_hop_opens_create(target: Seq<char>, entries: Seq<RemoteProxyEntry>)
    requires
        !lists_chain(entries, target),
    ensures
        protocol_step(StateModel::Unregistered, target, EventModel::Listing { entries })
            == StateModel::Registering,
{
    lemma_first_entry_lists(entries, target);
}

/// `Registered` is entered only on the strength of a registry listing that
/// carries the target hop — on the idempotent first check and on the
/// re-verification after relay alike — and the entry reported is the first
/// one listed for the hop.  No acknowledgement alone ever registers.
pub proof fn lemma_registered_needs_listing(s: StateModel, target: Seq<char>, event: EventModel)
    requires
        !(s matches StateModel::Registered { .. }),
        protocol_step(s, target, event) matches StateModel::Registered { .. },
    ensures
        event matches EventModel::Listing { entries } && lists_chain(entries, target)
            && protocol_step(s, target, event) == (StateModel::Registered {
            entry: first_entry_for(entries, target).unwrap(),
        }),
{
    match event {
        EventModel::Listing { entries } => lemma_first_entry_lists(entries, target),
        _ => (),
    }
}

/// The create path is opened only by a fresh existence check: whenever a
/// transition enters `Registering` from another state, that state was
/// `Unregistered` and the event was a listing without the target hop.
/// Together with the idempotence above, at most one create instruction is
/// issued per settled attempt, and none without re-checking the registry
/// first.
pub proof fn lemma_create_only_after_fresh_absence(
    s: StateModel,
    target: Seq<char>,
    event: EventModel,
)
    requires
        s != StateModel::Registering,
        protocol_step(s, target, event) == StateModel::Registering,
    ensures
        s == StateModel::Unregistered,
        event matches EventModel::Listing { entries } && !lists_chain(entries, target),
{
    match event {
        EventModel::Listing { entries } => lemma_first_entry_lists(entries, target),
        _ => (),
    }
}

/// A batch of outcomes with any error acknowledgement or timeout drives the
/// relay wait to `Failed`, never to `Registered`.
pub proof fn lemma_failed_relay_settles_failed(target: Seq<char>, outcomes: Seq<PacketOutcome>)
    requires
        !all_success(outcomes),
    ensures
        protocol_step(
            StateModel::AwaitingRelay { relayed: false },
            target,
            EventModel::Packets { outcomes },
        ) matches StateModel::Failed { .. },
{
    crate::packets::lemma_all_success_characterised(outcomes);
}

/// `Failed` is absorbing: no event moves the protocol out of it, so a
/// failed attempt can never silently become `Registered`.
pub proof fn lemma_failed_is_absorbing(error: ErrorModel, target: Seq<char>, event: EventModel)
    ensures
        protocol_step(StateModel::Failed { error }, target, event) == (StateModel::Failed {
            error,
        }),
{
}

/// `Registered` is stable as well: a settled attempt stays settled.
pub proof fn lemma_registered_is_stable(entry: EntryModel, target: Seq<char>, event: EventModel)
    ensures
        protocol_step(StateModel::Registered { entry }, target, event) == (StateModel::Registered {
            entry,
        }),
{
}

} // verus!
