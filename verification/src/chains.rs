//! Chain naming: the interned chain name used for identity traces and
//! registry keys, the chain id used at the relay boundary, and the one
//! table that maps a name to an id.

use vstd::prelude::*;

verus! {

/// Interned name of a chain (for example "juno" or "archway").  Equality is
/// value equality; names key identity traces and registry entries.
pub struct ChainName {
    name: String,
}

impl View for ChainName {
    type V = Seq<char>;

    closed spec fn view(&self) -> Seq<char> {
        self.name@
    }
}

impl ChainName {
    /// A chain name is never empty.
    pub open spec fn wf(&self) -> bool {
        self@.len() > 0
    }

    /// Accepts exactly the non-empty names.
    pub fn new(name: String) -> (r: Option<ChainName>)
        ensures
            name@.len() > 0 ==> (r matches Some(c) && c@ == name@ && c.wf()),
            name@.len() == 0 ==> r is None,
    {
        if name.as_str().is_empty() {
            None
        } else {
            Some(ChainName { name })
        }
    }

    /// Value equality of two names.
    pub fn name_eq(&self, other: &ChainName) -> (r: bool)
        ensures
            r == (self@ == other@),
    {
        self.name == other.name
    }

    /// The name as a string, for display and for hand-off to unverified code.
    pub fn as_text(&self) -> (r: &String)
        ensures
            r@ == self@,
    {
        &self.name
    }
}

impl Clone for ChainName {
    fn clone(&self) -> (r: Self)
        ensures
            r == *self,
    {
        ChainName { name: self.name.clone() }
    }
}

/// Identifier of a concrete chain deployment (for example "juno-1").  The
/// relay boundary is keyed by chain ids, while identities and registries are
/// keyed by chain names; ids are looked up only through [`ChainDirectory`].
pub struct ChainId {
    id: String,
}

impl View for ChainId {
    type V = Seq<char>;

    closed spec fn view(&self) -> Seq<char> {
        self.id@
    }
}

impl ChainId {
    /// A chain id is never empty.
    pub open spec fn wf(&self) -> bool {
        self@.len() > 0
    }

    /// Accepts exactly the non-empty ids.
    pub fn new(id: String) -> (r: Option<ChainId>)
        ensures
            id@.len() > 0 ==> (r matches Some(c) && c@ == id@ && c.wf()),
            id@.len() == 0 ==> r is None,
    {
        if id.as_str().is_empty() {
            None
        } else {
            Some(ChainId { id })
        }
    }

    /// Value equality of two ids.
    pub fn id_eq(&self, other: &ChainId) -> (r: bool)
        ensures
            r == (self@ == other@),
    {
        self.id == other.id
    }

    /// The id as a string, for display and for hand-off to unverified code.
    pub fn as_text(&self) -> (r: &String)
        ensures
            r@ == self@,
    {
        &self.id
    }
}

impl Clone for ChainId {
    fn clone(&self) -> (r: Self)
        ensures
            r == *self,
    {
        ChainId { id: self.id.clone() }
    }
}

/// One known chain: its name together with the id of its deployment.
pub struct ChainEndpoint {
    pub name: ChainName,
    pub id: ChainId,
}

impl ChainEndpoint {
    pub open spec fn wf(&self) -> bool {
        self.name.wf() && self.id.wf()
    }
}

/// The table of known chains.  A chain name is mapped to a chain id here
/// and nowhere else, so that the relay boundary (keyed by ids) and the
/// identity model (keyed by names) never guess at each other's keys.
pub struct ChainDirectory {
    entries: Vec<ChainEndpoint>,
}

impl View for ChainDirectory {
    type V = Seq<ChainEndpoint>;

    closed spec fn view(&self) -> Seq<ChainEndpoint> {
        self.entries@
    }
}

/// Whether some entry of `entries` carries the chain name `name`.
pub open spec fn directory_has_name(entries: Seq<ChainEndpoint>, name: Seq<char>) -> bool {
    exists|i: int| 0 <= i < entries.len() && entries[i].name@ == name
}

impl ChainDirectory {
    pub open spec fn wf(&self) -> bool {
        forall|i: int| 0 <= i < self@.len() ==> (#[trigger] self@[i]).wf()
    }

    pub fn empty() -> (r: ChainDirectory)
        ensures
            r@.len() == 0,
            r.wf(),
    {
        ChainDirectory { entries: Vec::new() }
    }

    /// Records one more chain.
    pub fn add(&mut self, endpoint: ChainEndpoint)
        requires
            old(self).wf(),
            endpoint.wf(),
        ensures
            final(self)@ == old(self)@.push(endpoint),
            final(self).wf(),
    {
        self.entries.push(endpoint);
        proof {
            assert forall|i: int| 0 <= i < self@.len() implies (#[trigger] self@[i]).wf() by {
                if i < old(self)@.len() {
                    assert(self@[i] == old(self)@[i]);
                } else {
                    assert(self@[i] == endpoint);
                }
            }
        }
    }

    /// Looks up the id of the deployment a chain name stands for: the id of the
    /// first entry carrying `name`, or `None` when the chain is unknown.
    pub fn id_of(&self, name: &ChainName) -> (r: Option<&ChainId>)
        ensures
            match r {
                Some(id) => exists|i: int|
                    0 <= i < self@.len() && #[trigger] self@[i].name@ == name@ && self@[i].id@
                        == id@ && forall|j: int| 0 <= j < i ==> (#[trigger] self@[j].name@) != name@,
                None => !directory_has_name(self@, name@),
            },
    {
        let n = self.entries.len();
        let mut k: usize = 0;
        while k < n
            invariant
                k <= n,
                n == self@.len(),
                forall|j: int| 0 <= j < k ==> (#[trigger] self@[j].name@) != name@,
            decreases n - k,
        {
            if self.entries[k].name.name_eq(name) {
                return Some(&self.entries[k].id);
            }
            k += 1;
        }
        None
    }
}

} // verus!
