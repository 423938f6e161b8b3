//! The remote-proxy registry as seen by the protocol: the listing a chain
//! returns of the remote accounts ("proxies") already registered for a local
//! account, and the pure queries the protocol asks of such a listing.  The
//! listing itself is re-fetched from the chain by the surrounding program on
//! every query — there is no cache to go stale — and handed in as a plain
//! vector.

use crate::chains::ChainName;
use vstd::prelude::*;

verus! {

/// One registered next-hop target: the chain it lives on and, once the
/// fabric has finished creating it remotely, its resolved contract address.
/// An entry whose address is still `None` is in flight; the entry with
/// `Some(address)` is the definitive "created and confirmed" signal.
pub struct RemoteProxyEntry {
    pub chain: ChainName,
    pub address: Option<String>,
}

impl RemoteProxyEntry {
    pub open spec fn wf(&self) -> bool {
        self.chain.wf()
    }

    /// Whether the remote account is created and confirmed.
    pub open spec fn is_confirmed(&self) -> bool {
        self.address is Some
    }
}

impl Clone for RemoteProxyEntry {
    fn clone(&self) -> (r: Self)
        ensures
            r.chain@ == self.chain@,
            r.address matches Some(a) ==> (self.address matches Some(b) && a@ == b@),
            r.address is Some == self.address is Some,
            r.wf() == self.wf(),
            r.is_confirmed() == self.is_confirmed(),
    {
        let address = match &self.address {
            Some(a) => Some(a.clone()),
            None => None,
        };
        RemoteProxyEntry { chain: self.chain.clone(), address }
    }
}

/// The mathematical value of a registry entry.
pub struct EntryModel {
    pub chain: Seq<char>,
    pub address: Option<Seq<char>>,
}

/// The model of one entry.
pub open spec fn entry_model(e: RemoteProxyEntry) -> EntryModel {
    EntryModel {
        chain: e.chain@,
        address: match e.address {
            Some(a) => Some(a@),
            None => None,
        },
    }
}

/// The first entry of `entries` for the chain `target`, or `None` when the
/// listing does not mention that chain.
pub open spec fn first_entry_for(entries: Seq<RemoteProxyEntry>, target: Seq<char>) -> Option<
    EntryModel,
>
    decreases entries.len(),
{
    if entries.len() == 0 {
        None
    } else if entries[0].chain@ == target {
        Some(entry_model(entries[0]))
    } else {
        first_entry_for(entries.drop_first(), target)
    }
}

/// `first_entry_for` finds an entry exactly when the listing mentions the
/// chain.
pub proof fn lemma_first_entry_lists(entries: Seq<RemoteProxyEntry>, target: Seq<char>)
    ensures
        first_entry_for(entries, target) is Some <==> lists_chain(entries, target),
    decreases entries.len(),
{
    if entries.len() > 0 {
        lemma_first_entry_lists(entries.drop_first(), target);
        if entries[0].chain@ == target {
            assert(lists_chain(entries, target));
        } else {
            if lists_chain(entries.drop_first(), target) {
                let i = choose|i: int|
                    0 <= i < entries.drop_first().len() && (#[trigger] entries.drop_first()[i]).chain@
                        == target;
                assert(entries[i + 1].chain@ == target);
            }
            if lists_chain(entries, target) {
                let i = choose|i: int|
                    0 <= i < entries.len() && (#[trigger] entries[i]).chain@ == target;
                assert(entries.drop_first()[i - 1].chain@ == target);
            }
        }
    }
}

/// `first_entry_for` is the entry at the first index carrying `target`.
pub proof fn lemma_first_entry_at(entries: Seq<RemoteProxyEntry>, target: Seq<char>, i: int)
    requires
        0 <= i < entries.len(),
        entries[i].chain@ == target,
        forall|j: int| 0 <= j < i ==> (#[trigger] entries[j]).chain@ != target,
    ensures
        first_entry_for(entries, target) == Some(entry_model(entries[i])),
    decreases i,
{
    if i > 0 {
        lemma_first_entry_at(entries.drop_first(), target, i - 1);
    }
}

/// Whether `entries` lists the chain `target` at all.
pub open spec fn lists_chain(entries: Seq<RemoteProxyEntry>, target: Seq<char>) -> bool {
    exists|i: int| 0 <= i < entries.len() && (#[trigger] entries[i]).chain@ == target
}

/// Whether `entries` lists the chain `target` with a confirmed address.
pub open spec fn lists_confirmed(entries: Seq<RemoteProxyEntry>, target: Seq<char>) -> bool {
    exists|i: int|
        0 <= i < entries.len() && (#[trigger] entries[i]).chain@ == target
            && entries[i].is_confirmed()
}

/// The index of the first entry for `target`, or `None` when the listing
/// does not mention that chain.
pub fn find_entry(entries: &Vec<RemoteProxyEntry>, target: &ChainName) -> (r: Option<usize>)
    ensures
        match r {
            Some(i) => i < entries@.len() && entries@[i as int].chain@ == target@ && forall|j: int|
                0 <= j < i ==> (#[trigger] entries@[j]).chain@ != target@,
            None => !lists_chain(entries@, target@),
        },
{
    let n = entries.len();
    let mut k: usize = 0;
    while k < n
        invariant
            k <= n,
            n == entries@.len(),
            forall|j: int| 0 <= j < k ==> (#[trigger] entries@[j]).chain@ != target@,
        decreases n - k,
    {
        if entries[k].chain.name_eq(target) {
            return Some(k);
        }
        k += 1;
    }
    None
}

/// Whether the listing mentions `target` at all; a listing that does not is
/// what makes a hop unregistered.
pub fn is_listed(entries: &Vec<RemoteProxyEntry>, target: &ChainName) -> (r: bool)
    ensures
        r == lists_chain(entries@, target@),
{
    find_entry(entries, target).is_some()
}

/// The resolved address of the remote account on `target`, when the listing
/// confirms one.  `None` both for an absent entry and for one still in
/// flight.
pub fn confirmed_address<'a>(entries: &'a Vec<RemoteProxyEntry>, target: &ChainName) -> (r: Option<
    &'a String,
>)
    ensures
        match r {
            Some(a) => exists|i: int|
                0 <= i < entries@.len() && (#[trigger] entries@[i]).chain@ == target@ && (
                entries@[i].address matches Some(b) && b@ == a@),
            None => !lists_confirmed(entries@, target@),
        },
{
    let n = entries.len();
    let mut k: usize = 0;
    while k < n
        invariant
            k <= n,
            n == entries@.len(),
            forall|j: int|
                0 <= j < k ==> !((#[trigger] entries@[j]).chain@ == target@
                    && entries@[j].is_confirmed()),
        decreases n - k,
    {
        if entries[k].chain.name_eq(target) {
            match &entries[k].address {
                Some(a) => {
                    return Some(a);
                },
                None => {},
            }
        }
        k += 1;
    }
    None
}

} // verus!
