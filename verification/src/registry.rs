//! The client registry: a dense index allocator mapping each connected
//! client's id to its kind.
//!
//! Identifiers are slots of a `slab::Slab`; insertion hands out a vacant
//! slot, removal frees it for reuse.  The registry's mathematical value is a
//! finite map from slot to `ClientKind`; only the network actor mutates it.

use vstd::prelude::*;

use slab::Slab;

verus! {

/// A per-connection handle, unique among the currently connected clients
/// and reused only after its holder is fully torn down.
#[derive(Debug, Copy, Clone, PartialEq, Eq, Structural, Hash)]
pub struct ClientId(pub usize);

/// Which socket family a client came in on.
#[derive(Debug, Copy, Clone, PartialEq, Eq, Structural)]
pub enum ClientKind {
    Unix,
    Tcp,
}

impl ClientKind {
    /// A short name for logs.
    pub fn label(&self) -> (r: &'static str)
        ensures
            self is Unix ==> r@ == "unix"@,
            self is Tcp ==> r@ == "tcp"@,
    {
        match self {
            ClientKind::Unix => "unix",
            ClientKind::Tcp => "tcp",
        }
    }

    /// A short name for the underlying stream, for logs.
    pub fn stream_label(&self) -> (r: &'static str)
        ensures
            self is Unix ==> r@ == "unix stream"@,
            self is Tcp ==> r@ == "tcp stream"@,
    {
        match self {
            ClientKind::Unix => "unix stream",
            ClientKind::Tcp => "tcp stream",
        }
    }
}

#[verifier::external_type_specification]
#[verifier::external_body]
#[verifier::reject_recursive_types(T)]
pub struct ExSlab<T>(Slab<T>);

/// What a slab of client kinds holds: the occupied slots and their values.
pub uninterp spec fn slab_entries(s: Slab<ClientKind>) -> Map<int, ClientKind>;

/// Relies on `slab::Slab::new`: an empty slab.
#[verifier::external_body]
fn slab_new() -> (r: Slab<ClientKind>)
    ensures
        slab_entries(r).dom() == Set::<int>::empty(),
{
    Slab::new()
}

/// Relies on `slab::Slab::insert`: stores the value in a vacant slot and
/// returns that slot's key.
#[verifier::external_body]
fn slab_insert(s: &mut Slab<ClientKind>, v: ClientKind) -> (k: usize)
    ensures
        !slab_entries(*old(s)).dom().contains(k as int),
        slab_entries(*final(s)) == slab_entries(*old(s)).insert(k as int, v),
{
    s.insert(v)
}

/// Relies on `slab::Slab::try_remove`: takes the value at the key out, if
/// the slot is occupied, releasing the slot.
#[verifier::external_body]
fn slab_try_remove(s: &mut Slab<ClientKind>, k: usize) -> (r: Option<ClientKind>)
    ensures
        slab_entries(*old(s)).dom().contains(k as int) ==> r == Some(
            slab_entries(*old(s))[k as int],
        ) && slab_entries(*final(s)) == slab_entries(*old(s)).remove(k as int),
        !slab_entries(*old(s)).dom().contains(k as int) ==> r is None && slab_entries(*final(s))
            == slab_entries(*old(s)),
{
    s.try_remove(k)
}

/// Relies on `slab::Slab::get`: the value at the key, if the slot is
/// occupied.
#[verifier::external_body]
fn slab_get(s: &Slab<ClientKind>, k: usize) -> (r: Option<&ClientKind>)
    ensures
        r is Some <==> slab_entries(*s).dom().contains(k as int),
        r matches Some(v) ==> *v == slab_entries(*s)[k as int],
{
    s.get(k)
}

/// Relies on `slab::Slab::len`: the number of occupied slots.
#[verifier::external_body]
fn slab_len(s: &Slab<ClientKind>) -> (n: usize)
    ensures
        n == slab_entries(*s).dom().len(),
{
    s.len()
}

/// Relies on `slab::Slab::iter`: the occupied entries, visited in
/// increasing key order.
#[verifier::external_body]
fn slab_pairs(s: &Slab<ClientKind>) -> (v: Vec<(usize, ClientKind)>)
    ensures
        forall|i: int|
            0 <= i < v@.len() ==> slab_entries(*s).dom().contains(#[trigger] v@[i].0 as int)
                && slab_entries(*s)[v@[i].0 as int] == v@[i].1,
        forall|k: int|
            slab_entries(*s).dom().contains(k) ==> exists|i: int|
                0 <= i < v@.len() && #[trigger] v@[i].0 as int == k,
        forall|i: int, j: int| 0 <= i < j < v@.len() ==> v@[i].0 < v@[j].0,
{
    s.iter().map(|(k, c)| (k, *c)).collect()
}

/// The registry of connected clients.
pub struct ClientRegistry {
    slab: Slab<ClientKind>,
}

impl View for ClientRegistry {
    type V = Map<int, ClientKind>;

    closed spec fn view(&self) -> Map<int, ClientKind> {
        slab_entries(self.slab)
    }
}

impl ClientRegistry {
    /// The registry's ids form a finite set of machine-sized slots.
    pub open spec fn wf(self) -> bool {
        self@.dom().finite() && forall|k: int| self@.dom().contains(k) ==> 0 <= k <= usize::MAX
    }

    /// An empty registry.
    pub fn new() -> (r: Self)
        ensures
            r@ == Map::<int, ClientKind>::empty(),
            r.wf(),
    {
        let r = ClientRegistry { slab: slab_new() };
        proof {
            assert(r@ =~= Map::<int, ClientKind>::empty());
        }
        r
    }

    /// Registers a client, handing out an id no currently connected client
    /// holds.
    pub fn insert(&mut self, kind: ClientKind) -> (id: ClientId)
        requires
            old(self).wf(),
        ensures
            final(self).wf(),
            !old(self)@.dom().contains(id.0 as int),
            final(self)@ == old(self)@.insert(id.0 as int, kind),
    {
        let k = slab_insert(&mut self.slab, kind);
        ClientId(k)
    }

    /// Removes a client, returning its kind if it was registered; its id may
    /// be handed out again later.
    pub fn remove(&mut self, id: ClientId) -> (r: Option<ClientKind>)
        requires
            old(self).wf(),
        ensures
            final(self).wf(),
            old(self)@.dom().contains(id.0 as int) ==> r == Some(old(self)@[id.0 as int])
                && final(self)@ == old(self)@.remove(id.0 as int),
            !old(self)@.dom().contains(id.0 as int) ==> r is None && final(self)@ == old(self)@,
    {
        slab_try_remove(&mut self.slab, id.0)
    }

    /// The kind of a registered client.
    pub fn get(&self, id: ClientId) -> (r: Option<ClientKind>)
        ensures
            self@.dom().contains(id.0 as int) ==> r == Some(self@[id.0 as int]),
            !self@.dom().contains(id.0 as int) ==> r is None,
    {
        match slab_get(&self.slab, id.0) {
            Some(k) => Some(*k),
            None => None,
        }
    }

    /// Whether a client is registered.
    pub fn contains(&self, id: ClientId) -> (r: bool)
        ensures
            r == self@.dom().contains(id.0 as int),
    {
        self.get(id).is_some()
    }

    /// How many clients are connected.
    pub fn len(&self) -> (n: usize)
        ensures
            n == self@.dom().len(),
    {
        slab_len(&self.slab)
    }

    /// A snapshot of the connected clients, in increasing id order.
    pub fn snapshot(&self) -> (v: Vec<(ClientId, ClientKind)>)
        ensures
            forall|i: int|
                0 <= i < v@.len() ==> self@.dom().contains(#[trigger] v@[i].0.0 as int) && self@[
                    v@[i].0.0 as int
                ] == v@[i].1,
            forall|k: int|
                self@.dom().contains(k) ==> exists|i: int|
                    0 <= i < v@.len() && #[trigger] v@[i].0.0 as int == k,
            forall|i: int, j: int| 0 <= i < j < v@.len() ==> v@[i].0.0 < v@[j].0.0,
    {
        let pairs = slab_pairs(&self.slab);
        let mut v: Vec<(ClientId, ClientKind)> = Vec::new();
        let mut i: usize = 0;
        while i < pairs.len()
            invariant
                i <= pairs@.len(),
                v@.len() == i,
                forall|j: int| 0 <= j < i ==> #[trigger] v@[j] == (ClientId(pairs@[j].0), pairs@[j].1),
                forall|j: int|
                    0 <= j < pairs@.len() ==> slab_entries(self.slab).dom().contains(
                        #[trigger] pairs@[j].0 as int,
                    ) && slab_entries(self.slab)[pairs@[j].0 as int] == pairs@[j].1,
                forall|k: int|
                    slab_entries(self.slab).dom().contains(k) ==> exists|j: int|
                        0 <= j < pairs@.len() && #[trigger] pairs@[j].0 as int == k,
                forall|j1: int, j2: int|
                    0 <= j1 < j2 < pairs@.len() ==> pairs@[j1].0 < pairs@[j2].0,
            decreases pairs@.len() - i,
        {
            let p = pairs[i];
            v.push((ClientId(p.0), p.1));
            i = i + 1;
        }
        proof {
            assert forall|k: int| self@.dom().contains(k) implies exists|j: int|
                0 <= j < v@.len() && #[trigger] v@[j].0.0 as int == k by {
                let j = choose|j: int| 0 <= j < pairs@.len() && #[trigger] pairs@[j].0 as int == k;
                assert(v@[j].0.0 as int == k);
            }
        }
        v
    }
}

} // verus!
