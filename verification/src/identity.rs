//! The account-identity model: how many hops, through which named chains, an
//! account lies from its chain of origin, and the pure derivation of the
//! identity one hop further out.

use crate::chains::ChainName;
use vstd::prelude::*;

verus! {

/// How an account is reached from its chain of origin: `Local` for the
/// account living on its origin chain, `Remote` for an account reached
/// through the listed chains, in hop order from the origin outward (hop 1
/// first).  A `Remote` trace is never empty; only `Local` stands for zero
/// hops.
pub enum ChainHopTrace {
    Local,
    Remote(Vec<ChainName>),
}

impl View for ChainHopTrace {
    type V = Seq<Seq<char>>;

    open spec fn view(&self) -> Seq<Seq<char>> {
        match self {
            ChainHopTrace::Local => Seq::empty(),
            ChainHopTrace::Remote(hops) => hops@.map_values(|c: ChainName| c@),
        }
    }
}

impl ChainHopTrace {
    /// A remote trace holds at least one hop, and every hop name is valid.
    pub open spec fn wf(&self) -> bool {
        match self {
            ChainHopTrace::Local => true,
            ChainHopTrace::Remote(hops) => hops@.len() > 0 && forall|i: int|
                0 <= i < hops@.len() ==> (#[trigger] hops@[i]).wf(),
        }
    }

    /// The zero-hop trace.
    pub fn local() -> (r: ChainHopTrace)
        ensures
            r@ =~= Seq::<Seq<char>>::empty(),
            r.wf(),
    {
        ChainHopTrace::Local
    }

    /// A trace through the given chains, hop 1 first.  Accepts exactly the
    /// non-empty sequences of valid names: `Remote([])` is not a trace.
    pub fn remote(hops: Vec<ChainName>) -> (r: Option<ChainHopTrace>)
        ensures
            match r {
                Some(t) => hops@.len() > 0 && (forall|i: int|
                    0 <= i < hops@.len() ==> (#[trigger] hops@[i]).wf()) && t@
                    == hops@.map_values(|c: ChainName| c@) && t.wf(),
                None => hops@.len() == 0 || exists|i: int|
                    0 <= i < hops@.len() && !(#[trigger] hops@[i]).wf(),
            },
    {
        if hops.is_empty() {
            return None;
        }
        let n = hops.len();
        let mut k: usize = 0;
        while k < n
            invariant
                k <= n,
                n == hops@.len(),
                forall|j: int| 0 <= j < k ==> (#[trigger] hops@[j]).wf(),
            decreases n - k,
        {
            if hops[k].as_text().as_str().is_empty() {
                assert(!hops@[k as int].wf());
                return None;
            }
            k += 1;
        }
        Some(ChainHopTrace::Remote(hops))
    }

    /// The number of hops: zero exactly for `Local`.
    pub fn hop_count(&self) -> (r: usize)
        requires
            self.wf(),
        ensures
            r == self@.len(),
    {
        match self {
            ChainHopTrace::Local => 0,
            ChainHopTrace::Remote(hops) => hops.len(),
        }
    }

    /// The hop names as a vector, hop 1 first (empty for `Local`), for
    /// feeding the envelope builder.
    pub fn hops(&self) -> (r: Vec<ChainName>)
        requires
            self.wf(),
        ensures
            r@.map_values(|c: ChainName| c@) =~= self@,
            forall|i: int| 0 <= i < r@.len() ==> (#[trigger] r@[i]).wf(),
    {
        match self {
            ChainHopTrace::Local => Vec::new(),
            ChainHopTrace::Remote(hops) => {
                let n = hops.len();
                let mut out: Vec<ChainName> = Vec::new();
                let mut k: usize = 0;
                while k < n
                    invariant
                        k <= n,
                        n == hops@.len(),
                        out@.len() == k,
                        forall|j: int| 0 <= j < hops@.len() ==> (#[trigger] hops@[j]).wf(),
                        forall|j: int| 0 <= j < k ==> (#[trigger] out@[j]) == hops@[j],
                    decreases n - k,
                {
                    out.push(hops[k].clone());
                    k += 1;
                }
                assert(out@ =~= hops@);
                out
            },
        }
    }
}

impl Clone for ChainHopTrace {
    fn clone(&self) -> (r: Self)
        ensures
            r@ == self@,
            r.wf() == self.wf(),
    {
        match self {
            ChainHopTrace::Local => ChainHopTrace::Local,
            ChainHopTrace::Remote(hops) => {
                let copy = hops.clone();
                proof {
                    assert forall|i: int| 0 <= i < copy@.len() implies copy@[i] == hops@[i] by {
                        assert(cloned::<ChainName>(hops@[i], copy@[i]));
                    }
                    assert(copy@ =~= hops@);
                }
                ChainHopTrace::Remote(copy)
            },
        }
    }
}

/// The identity of a logical account: the sequence number it was created
/// with on its origin chain, and the hop trace from that origin.  Identities
/// are descriptive keys: two identities name the same account exactly when
/// both fields match, hop order included.
pub struct AccountIdentity {
    pub origin_sequence: u32,
    pub trace: ChainHopTrace,
}

impl AccountIdentity {
    pub open spec fn wf(&self) -> bool {
        self.trace.wf()
    }

    pub fn new(origin_sequence: u32, trace: ChainHopTrace) -> (r: AccountIdentity)
        requires
            trace.wf(),
        ensures
            r.origin_sequence == origin_sequence,
            r.trace@ == trace@,
            r.wf(),
    {
        AccountIdentity { origin_sequence, trace }
    }

    /// The identity of the account on its origin chain.
    pub fn origin(origin_sequence: u32) -> (r: AccountIdentity)
        ensures
            r.origin_sequence == origin_sequence,
            r.trace@ =~= Seq::<Seq<char>>::empty(),
            r.wf(),
    {
        AccountIdentity { origin_sequence, trace: ChainHopTrace::local() }
    }

    /// Derives the identity one hop further out: the trace grows by
    /// `next_hop`, the origin sequence is unchanged.  Pure and total on valid
    /// inputs; nothing is mutated, since each remote chain hosts its own
    /// account instance correlated only by this identity.
    pub fn extend(self, next_hop: ChainName) -> (r: AccountIdentity)
        requires
            self.wf(),
            next_hop.wf(),
        ensures
            r.origin_sequence == self.origin_sequence,
            r.trace@ =~= self.trace@.push(next_hop@),
            r.wf(),
    {
        let trace = match self.trace {
            ChainHopTrace::Local => {
                let mut hops: Vec<ChainName> = Vec::new();
                hops.push(next_hop);
                ChainHopTrace::Remote(hops)
            },
            ChainHopTrace::Remote(mut hops) => {
                hops.push(next_hop);
                ChainHopTrace::Remote(hops)
            },
        };
        AccountIdentity { origin_sequence: self.origin_sequence, trace }
    }

    /// The first chain to ask about this account: hop 1 of the trace, or the
    /// caller's local chain when the account is local.
    pub fn origin_chain<'a>(&'a self, local_chain: &'a ChainName) -> (r: &'a ChainName)
        requires
            self.wf(),
        ensures
            self.trace@.len() > 0 ==> r@ == self.trace@[0],
            self.trace@.len() == 0 ==> r@ == local_chain@,
    {
        match &self.trace {
            ChainHopTrace::Local => local_chain,
            ChainHopTrace::Remote(hops) => &hops[0],
        }
    }
}

impl Clone for AccountIdentity {
    fn clone(&self) -> (r: Self)
        ensures
            r.origin_sequence == self.origin_sequence,
            r.trace@ == self.trace@,
            r.wf() == self.wf(),
    {
        AccountIdentity { origin_sequence: self.origin_sequence, trace: self.trace.clone() }
    }
}

/// The trace reached by extending `trace` with the chains of `hops`, one at
/// a time and in order: the model of a chain of [`AccountIdentity::extend`]
/// calls.
pub open spec fn extend_all(trace: Seq<Seq<char>>, hops: Seq<Seq<char>>) -> Seq<Seq<char>>
    decreases hops.len(),
{
    if hops.len() == 0 {
        trace
    } else {
        extend_all(trace.push(hops[0]), hops.drop_first())
    }
}

/// Extension is associative in effect: extending a trace one chain at a time
/// yields exactly the trace with all those chains appended, so extending
/// `Local` by a sequence of hops equals building the remote trace directly.
pub proof fn lemma_extend_all_appends(trace: Seq<Seq<char>>, hops: Seq<Seq<char>>)
    ensures
        extend_all(trace, hops) =~= trace + hops,
    decreases hops.len(),
{
    if hops.len() == 0 {
        assert(extend_all(trace, hops) =~= trace + hops);
    } else {
        lemma_extend_all_appends(trace.push(hops[0]), hops.drop_first());
        assert(trace.push(hops[0]) + hops.drop_first() =~= trace + hops);
    }
}

/// Hop order is significant: two identities with the same origin sequence
/// but with the same chains visited in a different order are different
/// accounts.  Witnessed here for a pair of distinct chains: the trace
/// `[a, b]` never equals the trace `[b, a]`.
pub proof fn lemma_hop_order_significant(a: Seq<char>, b: Seq<char>)
    requires
        a != b,
    ensures
        seq![a, b] != seq![b, a],
{
    assert(seq![a, b][0] == a);
    assert(seq![b, a][0] == b);
}

} // verus!
