//! Packet outcomes and the packet waiter.  A transaction on the origin
//! chain may emit any number of in-flight packets; the waiter aggregates
//! their terminal outcomes and is complete only when every packet has one,
//! so that a partial result can never silently pass for success.  The actual
//! blocking and polling of downstream chains is the surrounding program's
//! job; it reports each observed outcome here.

use crate::chains::ChainId;
use vstd::prelude::*;

verus! {

/// One relayed packet, keyed as the relay boundary keys them: by the chain
/// ids of its two ends and its sequence number on that channel.
pub struct PacketRef {
    pub source: ChainId,
    pub destination: ChainId,
    pub sequence: u64,
}

impl PacketRef {
    pub open spec fn wf(&self) -> bool {
        self.source.wf() && self.destination.wf()
    }

    /// The key this packet is known by.
    pub open spec fn key(&self) -> (Seq<char>, Seq<char>, u64) {
        (self.source@, self.destination@, self.sequence)
    }

    /// Whether two references name the same packet.
    pub fn ref_eq(&self, other: &PacketRef) -> (r: bool)
        ensures
            r == (self.key() == other.key()),
    {
        self.source.id_eq(&other.source) && self.destination.id_eq(&other.destination)
            && self.sequence == other.sequence
    }
}

impl Clone for PacketRef {
    fn clone(&self) -> (r: Self)
        ensures
            r.key() == self.key(),
            r.wf() == self.wf(),
    {
        PacketRef {
            source: self.source.clone(),
            destination: self.destination.clone(),
            sequence: self.sequence,
        }
    }
}

/// The terminal state of one relayed packet: acknowledged with success,
/// acknowledged with an error, or timed out.
pub enum PacketOutcome {
    Success { ack: Vec<u8> },
    ErrorAck { payload: Vec<u8> },
    Timeout,
}

impl Clone for PacketOutcome {
    fn clone(&self) -> (r: Self)
        ensures
            r.model() == self.model(),
    {
        match self {
            PacketOutcome::Success { ack } => PacketOutcome::Success { ack: ack.clone() },
            PacketOutcome::ErrorAck { payload } => PacketOutcome::ErrorAck {
                payload: payload.clone(),
            },
            PacketOutcome::Timeout => PacketOutcome::Timeout,
        }
    }
}

/// The mathematical value of an outcome.
pub enum OutcomeModel {
    Success { ack: Seq<u8> },
    ErrorAck { payload: Seq<u8> },
    Timeout,
}

impl PacketOutcome {
    pub open spec fn model(&self) -> OutcomeModel {
        match self {
            PacketOutcome::Success { ack } => OutcomeModel::Success { ack: ack@ },
            PacketOutcome::ErrorAck { payload } => OutcomeModel::ErrorAck { payload: payload@ },
            PacketOutcome::Timeout => OutcomeModel::Timeout,
        }
    }
}

/// Every packet of the batch was acknowledged with success.
pub open spec fn all_success(outcomes: Seq<PacketOutcome>) -> bool {
    forall|i: int| 0 <= i < outcomes.len() ==> (#[trigger] outcomes[i]) is Success
}

/// Some packet of the batch was acknowledged with an error.
pub open spec fn has_error_ack(outcomes: Seq<PacketOutcome>) -> bool {
    exists|i: int| 0 <= i < outcomes.len() && (#[trigger] outcomes[i]) is ErrorAck
}

/// Some packet of the batch timed out.
pub open spec fn has_timeout(outcomes: Seq<PacketOutcome>) -> bool {
    exists|i: int| 0 <= i < outcomes.len() && (#[trigger] outcomes[i]) is Timeout
}

/// A batch is all-success exactly when no packet errored or timed out.
pub proof fn lemma_all_success_characterised(outcomes: Seq<PacketOutcome>)
    ensures
        all_success(outcomes) <==> (!has_error_ack(outcomes) && !has_timeout(outcomes)),
{
    if !all_success(outcomes) {
        let i = choose|i: int| 0 <= i < outcomes.len() && !((#[trigger] outcomes[i]) is Success);
        assert(outcomes[i] is ErrorAck || outcomes[i] is Timeout);
    }
}

/// An origin-chain transaction and the packets it emitted; it stays pending
/// until every one of them reaches a terminal outcome.
pub struct PendingTransaction {
    pub origin: ChainId,
    pub packets: Vec<PacketRef>,
}

impl PendingTransaction {
    pub open spec fn wf(&self) -> bool {
        self.origin.wf() && forall|i: int|
            0 <= i < self.packets@.len() ==> (#[trigger] self.packets@[i]).wf()
    }
}

/// Aggregates the terminal outcomes of one pending transaction's packets.
/// `outcomes[i]`, when present, is the terminal outcome observed for
/// `expected[i]`.
pub struct PacketWaiter {
    pub expected: Vec<PacketRef>,
    pub outcomes: Vec<Option<PacketOutcome>>,
}

impl PacketWaiter {
    pub open spec fn wf(&self) -> bool {
        self.outcomes@.len() == self.expected@.len()
    }

    /// Every expected packet has reached a terminal outcome.
    pub open spec fn complete(&self) -> bool {
        forall|i: int| 0 <= i < self.outcomes@.len() ==> (#[trigger] self.outcomes@[i]) is Some
    }

    /// A waiter for the packets of `tx`, with nothing resolved yet.
    pub fn new(tx: &PendingTransaction) -> (r: PacketWaiter)
        ensures
            r.expected@.len() == tx.packets@.len(),
            forall|i: int|
                0 <= i < tx.packets@.len() ==> (#[trigger] r.expected@[i]).key()
                    == tx.packets@[i].key(),
            forall|i: int| 0 <= i < r.outcomes@.len() ==> (#[trigger] r.outcomes@[i]) is None,
            r.wf(),
    {
        let n = tx.packets.len();
        let mut expected: Vec<PacketRef> = Vec::new();
        let mut outcomes: Vec<Option<PacketOutcome>> = Vec::new();
        let mut k: usize = 0;
        while k < n
            invariant
                k <= n,
                n == tx.packets@.len(),
                expected@.len() == k,
                outcomes@.len() == k,
                forall|j: int|
                    0 <= j < k ==> (#[trigger] expected@[j]).key() == tx.packets@[j].key(),
                forall|j: int| 0 <= j < k ==> (#[trigger] outcomes@[j]) is None,
            decreases n - k,
        {
            expected.push(tx.packets[k].clone());
            outcomes.push(None);
            k += 1;
        }
        PacketWaiter { expected, outcomes }
    }

    /// The position of a packet in this waiter: the first expected packet
    /// with the same key, or `None` for a packet that does not belong to
    /// this transaction.
    pub fn find_packet(&self, packet: &PacketRef) -> (r: Option<usize>)
        ensures
            match r {
                Some(i) => i < self.expected@.len() && self.expected@[i as int].key()
                    == packet.key() && forall|j: int|
                    0 <= j < i ==> (#[trigger] self.expected@[j]).key() != packet.key(),
                None => forall|j: int|
                    0 <= j < self.expected@.len() ==> (#[trigger] self.expected@[j]).key()
                        != packet.key(),
            },
    {
        let n = self.expected.len();
        let mut k: usize = 0;
        while k < n
            invariant
                k <= n,
                n == self.expected@.len(),
                forall|j: int| 0 <= j < k ==> (#[trigger] self.expected@[j]).key() != packet.key(),
            decreases n - k,
        {
            if self.expected[k].ref_eq(packet) {
                return Some(k);
            }
            k += 1;
        }
        None
    }

    /// Records the terminal outcome of the `index`-th expected packet.
    /// Nothing else changes; recording again overwrites (the fabric delivers
    /// at least once, so a terminal outcome may be observed twice).
    pub fn record(&mut self, index: usize, outcome: PacketOutcome)
        requires
            old(self).wf(),
            index < old(self).outcomes@.len(),
        ensures
            final(self).expected@ == old(self).expected@,
            final(self).outcomes@ == old(self).outcomes@.update(
                index as int,
                Some(outcome),
            ),
            final(self).wf(),
    {
        self.outcomes.set(index, Some(outcome));
    }

    /// Whether every packet has reached a terminal outcome.  The waiter
    /// reports completion for all packets or not at all: there is no partial
    /// success.
    pub fn is_complete(&self) -> (r: bool)
        ensures
            r == self.complete(),
    {
        let n = self.outcomes.len();
        let mut k: usize = 0;
        while k < n
            invariant
                k <= n,
                n == self.outcomes@.len(),
                forall|j: int| 0 <= j < k ==> (#[trigger] self.outcomes@[j]) is Some,
            decreases n - k,
        {
            if self.outcomes[k].is_none() {
                return false;
            }
            k += 1;
        }
        true
    }

    /// The aggregated outcomes, one per expected packet and in the same
    /// order.  Only a complete waiter can hand them out.
    pub fn resolved_outcomes(&self) -> (r: Vec<PacketOutcome>)
        requires
            self.wf(),
            self.complete(),
        ensures
            r@.len() == self.expected@.len(),
            forall|i: int|
                0 <= i < r@.len() ==> (#[trigger] r@[i]).model()
                    == self.outcomes@[i].unwrap().model(),
    {
        let n = self.outcomes.len();
        let mut out: Vec<PacketOutcome> = Vec::new();
        let mut k: usize = 0;
        while k < n
            invariant
                k <= n,
                n == self.outcomes@.len(),
                self.wf(),
                self.complete(),
                out@.len() == k,
                forall|j: int|
                    0 <= j < k ==> (#[trigger] out@[j]).model() == self.outcomes@[j].unwrap().model(),
            decreases n - k,
        {
            match &self.outcomes[k] {
                Some(o) => out.push(o.clone()),
                None => {
                    proof {
                        assert(self.outcomes@[k as int] is Some);
                    }
                    unreached()
                },
            }
            k += 1;
        }
        out
    }
}

/// Whether a batch of terminal outcomes means success: an error
/// acknowledgement anywhere dominates, a timeout fails the batch as well,
/// and only a batch of nothing but success acknowledgements is delivered.
pub enum RelayVerdict {
    Delivered,
    Rejected,
    TimedOut,
}

/// The verdict of a batch of outcomes.
pub open spec fn relay_verdict(outcomes: Seq<PacketOutcome>) -> RelayVerdict {
    if has_error_ack(outcomes) {
        RelayVerdict::Rejected
    } else if has_timeout(outcomes) {
        RelayVerdict::TimedOut
    } else {
        RelayVerdict::Delivered
    }
}

/// Computes the verdict of a batch of terminal outcomes.
pub fn verdict_of(outcomes: &Vec<PacketOutcome>) -> (r: RelayVerdict)
    ensures
        r == relay_verdict(outcomes@),
        r is Delivered <==> all_success(outcomes@),
{
    proof {
        lemma_all_success_characterised(outcomes@);
    }
    let n = outcomes.len();
    let mut seen_timeout = false;
    let mut k: usize = 0;
    while k < n
        invariant
            k <= n,
            n == outcomes@.len(),
            forall|j: int| 0 <= j < k ==> !((#[trigger] outcomes@[j]) is ErrorAck),
            seen_timeout == exists|j: int| 0 <= j < k && (#[trigger] outcomes@[j]) is Timeout,
        decreases n - k,
    {
        match &outcomes[k] {
            PacketOutcome::ErrorAck { .. } => {
                return RelayVerdict::Rejected;
            },
            PacketOutcome::Timeout => {
                seen_timeout = true;
            },
            PacketOutcome::Success { .. } => {},
        }
        k += 1;
    }
    if seen_timeout {
        RelayVerdict::TimedOut
    } else {
        RelayVerdict::Delivered
    }
}

/// Whether any packet of the batch timed out.
pub fn has_any_timeout(outcomes: &Vec<PacketOutcome>) -> (r: bool)
    ensures
        r == has_timeout(outcomes@),
{
    let n = outcomes.len();
    let mut k: usize = 0;
    while k < n
        invariant
            k <= n,
            n == outcomes@.len(),
            forall|j: int| 0 <= j < k ==> !((#[trigger] outcomes@[j]) is Timeout),
        decreases n - k,
    {
        match &outcomes[k] {
            PacketOutcome::Timeout => {
                return true;
            },
            _ => {},
        }
        k += 1;
    }
    false
}

/// The payload of the first error acknowledgement in a batch; the empty
/// payload for a batch with none.
pub open spec fn first_error_ack_payload(outcomes: Seq<PacketOutcome>) -> Seq<u8>
    decreases outcomes.len(),
{
    if outcomes.len() == 0 {
        Seq::empty()
    } else if outcomes[0] is ErrorAck {
        outcomes[0]->payload@
    } else {
        first_error_ack_payload(outcomes.drop_first())
    }
}

/// `first_error_ack_payload` is the payload at the first erroring index.
pub proof fn lemma_first_error_payload_at(outcomes: Seq<PacketOutcome>, i: int)
    requires
        0 <= i < outcomes.len(),
        outcomes[i] is ErrorAck,
        forall|j: int| 0 <= j < i ==> !((#[trigger] outcomes[j]) is ErrorAck),
    ensures
        first_error_ack_payload(outcomes) == outcomes[i]->payload@,
    decreases i,
{
    if i > 0 {
        lemma_first_error_payload_at(outcomes.drop_first(), i - 1);
    }
}

/// The payload of the first error acknowledgement in a batch, when any.
pub fn first_error_payload(outcomes: &Vec<PacketOutcome>) -> (r: Option<&Vec<u8>>)
    ensures
        match r {
            Some(p) => has_error_ack(outcomes@) && p@ == first_error_ack_payload(outcomes@),
            None => !has_error_ack(outcomes@),
        },
{
    let n = outcomes.len();
    let mut k: usize = 0;
    while k < n
        invariant
            k <= n,
            n == outcomes@.len(),
            forall|j: int| 0 <= j < k ==> !((#[trigger] outcomes@[j]) is ErrorAck),
        decreases n - k,
    {
        match &outcomes[k] {
            PacketOutcome::ErrorAck { payload } => {
                proof {
                    lemma_first_error_payload_at(outcomes@, k as int);
                }
                return Some(payload);
            },
            _ => {},
        }
        k += 1;
    }
    None
}

} // verus!
