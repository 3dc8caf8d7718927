//! The keysets of an account as the client remembers them, brought together
//! with those that the server knows.

use vstd::prelude::*;

verus! {

/// The network that a keyset belongs to.
#[derive(Clone, Copy, Debug, PartialEq, Eq, Structural)]
pub enum Network {
    Bitcoin,
    Testnet,
    Signet,
    Regtest,
}

/// The three descriptor public keys of a keyset.
#[derive(Debug, PartialEq, Eq)]
pub struct DescriptorKeyset {
    pub application: String,
    pub hardware: String,
    pub server: String,
}

/// A keyset of an account.
#[derive(Debug, PartialEq, Eq)]
pub struct Keyset {
    pub id: String,
    pub network: Network,
    pub keys: DescriptorKeyset,
}

/// A keyset as a value of specifications.
pub struct KeysetView {
    pub id: Seq<char>,
    pub network: Network,
    pub application: Seq<char>,
    pub hardware: Seq<char>,
    pub server: Seq<char>,
}

impl View for Keyset {
    type V = KeysetView;

    open spec fn view(&self) -> KeysetView {
        KeysetView {
            id: self.id@,
            network: self.network,
            application: self.keys.application@,
            hardware: self.keys.hardware@,
            server: self.keys.server@,
        }
    }
}

impl Keyset {
    /// Whether the two keysets are the same in every field.
    pub fn same(&self, other: &Keyset) -> (r: bool)
        ensures
            r == (self@ == other@),
    {
        self.id == other.id && self.network == other.network && self.keys.application
            == other.keys.application && self.keys.hardware == other.keys.hardware
            && self.keys.server == other.keys.server
    }

    /// A copy of the keyset.
    pub fn duplicate(&self) -> (copy: Keyset)
        ensures
            copy@ == self@,
    {
        Keyset {
            id: self.id.clone(),
            network: self.network,
            keys: DescriptorKeyset {
                application: self.keys.application.clone(),
                hardware: self.keys.hardware.clone(),
                server: self.keys.server.clone(),
            },
        }
    }
}

/// Whether `keysets` holds a keyset that is the same as `keyset`.
pub open spec fn holds(keysets: Seq<Keyset>, keyset: KeysetView) -> bool {
    exists|i: int| 0 <= i < keysets.len() && (#[trigger] keysets[i])@ == keyset
}

/// Whether no two of `keysets` are the same.
pub open spec fn distinct(keysets: Seq<Keyset>) -> bool {
    forall|i: int, j: int| 0 <= i < j < keysets.len() ==> (#[trigger] keysets[i])@ != (
    #[trigger] keysets[j])@
}

/// Whether `merged` is the union of `client` and `server`: every keyset of
/// either is in it once, and nothing else is.
pub open spec fn is_union(merged: Seq<Keyset>, client: Seq<Keyset>, server: Seq<Keyset>) -> bool {
    &&& distinct(merged)
    &&& forall|i: int| 0 <= i < client.len() ==> holds(merged, (#[trigger] client[i])@)
    &&& forall|i: int| 0 <= i < server.len() ==> holds(merged, (#[trigger] server[i])@)
    &&& forall|i: int|
        0 <= i < merged.len() ==> holds(client, (#[trigger] merged[i])@) || holds(
            server,
            merged[i]@,
        )
}

fn contains(keysets: &Vec<Keyset>, keyset: &Keyset) -> (found: bool)
    ensures
        found == holds(keysets@, keyset@),
{
    let mut i: usize = 0;
    while i < keysets.len()
        invariant
            i <= keysets.len(),
            forall|j: int| 0 <= j < i ==> (#[trigger] keysets@[j])@ != keyset@,
        decreases keysets.len() - i,
    {
        if keysets[i].same(keyset) {
            return true;
        }
        i = i + 1;
    }
    false
}

fn add_new(merged: &mut Vec<Keyset>, incoming: &Vec<Keyset>)
    requires
        distinct(old(merged)@),
    ensures
        distinct(final(merged)@),
        final(merged)@.len() >= old(merged)@.len(),
        forall|i: int| 0 <= i < old(merged)@.len() ==> (#[trigger] final(merged)@[i]) == old(merged)@[i],
        forall|i: int| 0 <= i < incoming@.len() ==> holds(final(merged)@, (#[trigger] incoming@[i])@),
        forall|i: int|
            old(merged)@.len() <= i < final(merged)@.len() ==> holds(
                incoming@,
                (#[trigger] final(merged)@[i])@,
            ),
{
    let mut k: usize = 0;
    while k < incoming.len()
        invariant
            k <= incoming.len(),
            distinct(merged@),
            merged@.len() >= old(merged)@.len(),
            forall|i: int| 0 <= i < old(merged)@.len() ==> (#[trigger] merged@[i]) == old(merged)@[i],
            forall|i: int| 0 <= i < k ==> holds(merged@, (#[trigger] incoming@[i])@),
            forall|i: int|
                old(merged)@.len() <= i < merged@.len() ==> holds(incoming@, (#[trigger] merged@[i])@),
        decreases incoming.len() - k,
    {
        let ghost before = merged@;
        if !contains(merged, &incoming[k]) {
            merged.push(incoming[k].duplicate());
            assert(merged@[before.len() as int]@ == incoming@[k as int]@);
        }
        assert forall|i: int| 0 <= i < k + 1 implies holds(merged@, (#[trigger] incoming@[i])@) by {
            if i < k {
                let at = choose|at: int| 0 <= at < before.len() && (#[trigger] before[at])@ == incoming@[i]@;
                assert(merged@[at] == before[at]);
            }
        }
        k = k + 1;
    }
}

/// The keysets of the client and of the server together, each one once: those
/// of the client first, in their order, then those that only the server has.
pub fn merge_keysets(client: &Vec<Keyset>, server: &Vec<Keyset>) -> (merged: Vec<Keyset>)
    ensures
        is_union(merged@, client@, server@),
{
    let mut merged: Vec<Keyset> = Vec::new();
    add_new(&mut merged, client);
    let ghost first = merged@;
    add_new(&mut merged, server);
    assert forall|i: int| 0 <= i < client@.len() implies holds(merged@, (#[trigger] client@[i])@) by {
        let at = choose|at: int| 0 <= at < first.len() && (#[trigger] first[at])@ == client@[i]@;
        assert(merged@[at] == first[at]);
    }
    assert forall|i: int| 0 <= i < merged@.len() implies holds(client@, (#[trigger] merged@[i])@)
        || holds(server@, merged@[i]@) by {
        if i < first.len() {
            assert(merged@[i] == first[i]);
        }
    }
    merged
}

} // verus!
