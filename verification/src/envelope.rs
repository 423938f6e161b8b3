//! The multi-hop dispatch envelope: a recursively nested message that makes
//! a chain several hops away execute a payload.  The outermost layer names
//! hop 1 (the chain the origin account directly sends to); each intermediate
//! chain strips its own layer and forwards the rest; the innermost leaf
//! carries the payload for the final destination.  The payload itself is an
//! opaque, serializable blob whose meaning belongs to the destination.

use crate::chains::ChainName;
use crate::identity::AccountIdentity;
use vstd::prelude::*;

verus! {

/// The mathematical shape of an envelope: a leaf payload wrapped in zero or
/// more hop layers.
pub enum EnvelopeModel {
    Leaf { action: Seq<u8> },
    Hop { target: Seq<char>, inner: Box<EnvelopeModel> },
}

/// The envelope wrapping `action` in one `Hop` layer per chain of `hops`,
/// outermost layer first: `wrap([A, B], p)` is `Hop(A, Hop(B, Leaf(p)))`,
/// and `wrap([], p)` collapses to the bare `Leaf(p)`.
pub open spec fn wrap(hops: Seq<Seq<char>>, action: Seq<u8>) -> EnvelopeModel
    decreases hops.len(),
{
    if hops.len() == 0 {
        EnvelopeModel::Leaf { action }
    } else {
        EnvelopeModel::Hop { target: hops[0], inner: Box::new(wrap(hops.drop_first(), action)) }
    }
}

/// One step of unwinding: the chain `at`, on receiving `e`, strips its own
/// layer when the outermost layer is addressed to it; anything else is not
/// for `at` to open.
pub open spec fn peel(e: EnvelopeModel, at: Seq<char>) -> Option<EnvelopeModel> {
    match e {
        EnvelopeModel::Hop { target, inner } => if target == at {
            Some(*inner)
        } else {
            None
        },
        EnvelopeModel::Leaf { .. } => None,
    }
}

/// Unwinding an envelope along a route: each chain of `route` in turn
/// strips its layer, and the payload is reached exactly when the route
/// matches the nesting.
pub open spec fn peel_route(e: EnvelopeModel, route: Seq<Seq<char>>) -> Option<Seq<u8>>
    decreases route.len(),
{
    if route.len() == 0 {
        match e {
            EnvelopeModel::Leaf { action } => Some(action),
            EnvelopeModel::Hop { .. } => None,
        }
    } else {
        match peel(e, route[0]) {
            Some(inner) => peel_route(inner, route.drop_first()),
            None => None,
        }
    }
}

/// Round trip: an envelope built for a route unwinds along that same route
/// back to its payload, unchanged.
pub proof fn lemma_wrap_peel_route(hops: Seq<Seq<char>>, action: Seq<u8>)
    ensures
        peel_route(wrap(hops, action), hops) == Some(action),
    decreases hops.len(),
{
    if hops.len() > 0 {
        lemma_wrap_peel_route(hops.drop_first(), action);
    }
}

/// Zero-hop collapse: an envelope built for an empty route is the bare
/// leaf, with no wrapping at all.
pub proof fn lemma_zero_hop_collapse(action: Seq<u8>)
    ensures
        wrap(Seq::<Seq<char>>::empty(), action) == (EnvelopeModel::Leaf { action }),
{
}

/// A dispatch envelope as constructed and shipped: either the bare payload,
/// or a layer naming the next chain around an inner envelope.
pub enum DispatchEnvelope {
    Leaf { action: Vec<u8> },
    Hop { target: ChainName, inner: Box<DispatchEnvelope> },
}

/// The shape of an envelope, layer for layer.
pub open spec fn model_of(e: DispatchEnvelope) -> EnvelopeModel
    decreases e,
{
    match e {
        DispatchEnvelope::Leaf { action } => EnvelopeModel::Leaf { action: action@ },
        DispatchEnvelope::Hop { target, inner } => EnvelopeModel::Hop {
            target: target@,
            inner: Box::new(model_of(*inner)),
        },
    }
}

impl View for DispatchEnvelope {
    type V = EnvelopeModel;

    open spec fn view(&self) -> EnvelopeModel {
        model_of(*self)
    }
}

impl DispatchEnvelope {
    /// Every hop layer names a valid chain.
    pub open spec fn wf(&self) -> bool
        decreases self,
    {
        match self {
            DispatchEnvelope::Leaf { .. } => true,
            DispatchEnvelope::Hop { target, inner } => target.wf() && inner.wf(),
        }
    }

    /// Builds the envelope that reaches a target `hops.len()` hops away:
    /// `action` is wrapped right-to-left, so that the outermost layer names
    /// the first hop and a zero-hop build collapses to the bare leaf.
    pub fn build(hops: Vec<ChainName>, action: Vec<u8>) -> (e: DispatchEnvelope)
        requires
            forall|i: int| 0 <= i < hops@.len() ==> (#[trigger] hops@[i]).wf(),
        ensures
            e@ == wrap(hops@.map_values(|c: ChainName| c@), action@),
            e.wf(),
    {
        let ghost all = hops@.map_values(|c: ChainName| c@);
        let mut rest = hops;
        let mut e = DispatchEnvelope::Leaf { action };
        proof {
            assert(all.subrange(rest@.len() as int, all.len() as int) =~= Seq::<
                Seq<char>,
            >::empty());
        }
        while rest.len() > 0
            invariant
                rest@.len() <= all.len(),
                rest@ =~= hops@.subrange(0, rest@.len() as int),
                all == hops@.map_values(|c: ChainName| c@),
                forall|i: int| 0 <= i < hops@.len() ==> (#[trigger] hops@[i]).wf(),
                e@ == wrap(all.subrange(rest@.len() as int, all.len() as int), action@),
                e.wf(),
            decreases rest@.len(),
        {
            let ghost k = rest@.len() as int;
            let last = rest.pop().unwrap();
            proof {
                assert(last == hops@[k - 1]);
                let tail = all.subrange(k, all.len() as int);
                let grown = all.subrange(k - 1, all.len() as int);
                assert(grown[0] == all[k - 1]);
                assert(grown.drop_first() =~= tail);
                assert(all[k - 1] == last@);
            }
            e = DispatchEnvelope::Hop { target: last, inner: Box::new(e) };
        }
        proof {
            assert(all.subrange(0, all.len() as int) =~= all);
        }
        e
    }

    /// One step of unwinding, as the chain `at` performs it: strips the
    /// outermost layer exactly when that layer is addressed to `at`.
    pub fn unwrap_hop(self, at: &ChainName) -> (r: Option<DispatchEnvelope>)
        ensures
            match r {
                Some(inner) => peel(self@, at@) == Some(inner@) && (self.wf() ==> inner.wf()),
                None => peel(self@, at@) is None,
            },
    {
        match self {
            DispatchEnvelope::Leaf { .. } => None,
            DispatchEnvelope::Hop { target, inner } => if target.name_eq(at) {
                Some(*inner)
            } else {
                None
            },
        }
    }

    /// Unwinds an envelope along a route, one chain at a time, and returns
    /// the payload exactly when the route matches the nesting.
    pub fn unwind(self, route: &Vec<ChainName>) -> (r: Option<Vec<u8>>)
        ensures
            match r {
                Some(action) => peel_route(self@, route@.map_values(|c: ChainName| c@)) == Some(
                    action@,
                ),
                None => peel_route(self@, route@.map_values(|c: ChainName| c@)) is None,
            },
    {
        let ghost full = route@.map_values(|c: ChainName| c@);
        let n = route.len();
        let mut e = self;
        let mut k: usize = 0;
        proof {
            assert(full.subrange(0, n as int) =~= full);
        }
        while k < n
            invariant
                k <= n,
                n == route@.len(),
                full == route@.map_values(|c: ChainName| c@),
                peel_route(e@, full.subrange(k as int, n as int)) == peel_route(self@, full),
            decreases n - k,
        {
            let ghost before = full.subrange(k as int, n as int);
            proof {
                assert(before[0] == full[k as int]);
                assert(before.drop_first() =~= full.subrange(k as int + 1, n as int));
            }
            match e.unwrap_hop(&route[k]) {
                Some(inner) => {
                    e = inner;
                },
                None => {
                    return None;
                },
            }
            k += 1;
        }
        proof {
            assert(full.subrange(n as int, n as int) =~= Seq::<Seq<char>>::empty());
        }
        match e {
            DispatchEnvelope::Leaf { action } => Some(action),
            DispatchEnvelope::Hop { .. } => None,
        }
    }
}

/// The envelope that routes `payload` to the chain an account lives on: one
/// layer per hop of the account's trace, outermost naming hop 1.  An account
/// on its origin chain takes the payload bare.
pub fn routed_to(account: &AccountIdentity, payload: Vec<u8>) -> (e: DispatchEnvelope)
    requires
        account.wf(),
    ensures
        e@ == wrap(account.trace@, payload@),
        e.wf(),
{
    let hops = account.trace.hops();
    DispatchEnvelope::build(hops, payload)
}

} // verus!
