//! Storage of the pending table: correlation-token words → (completion
//! token, peer handle), backed by a hash map of an outside crate.

use vstd::prelude::*;
use vstd::map::*;

verus! {

/// What the pending map holds: the associations stored so far, keyed by
/// the correlation token's words.
pub uninterp spec fn conn_map_contents(m: ConnMap) -> Map<(u64, u64), (u64, u64)>;

/// Pending-table storage.  The struct is opaque to the verifier; the
/// trusted methods below state what each call does to
/// [`conn_map_contents`].
#[verifier::external_body]
pub struct ConnMap {
    map: hashbrown::HashMap<(u64, u64), (u64, u64)>,
}

impl View for ConnMap {
    type V = Map<(u64, u64), (u64, u64)>;

    /// The associations stored so far.
    open spec fn view(&self) -> Map<(u64, u64), (u64, u64)> {
        conn_map_contents(*self)
    }
}

impl ConnMap {
    /// Relies on `hashbrown::HashMap::new`: an empty map.
    #[verifier::external_body]
    pub(crate) fn new() -> (r: ConnMap)
        ensures
            forall|k: (u64, u64)| !r@.dom().contains(k),
    {
        ConnMap { map: hashbrown::HashMap::new() }
    }

    /// Relies on `hashbrown::HashMap::insert`: maps the key to the value,
    /// replacing any earlier association.
    #[verifier::external_body]
    pub(crate) fn insert(&mut self, k: (u64, u64), v: (u64, u64))
        ensures
            conn_map_contents(*final(self)) == conn_map_contents(*old(self)).insert(k, v),
    {
        self.map.insert(k, v);
    }

    /// Relies on `hashbrown::HashMap::remove`: takes the key's association
    /// out of the map and returns its value, if the key was present.
    #[verifier::external_body]
    pub(crate) fn remove(&mut self, k: (u64, u64)) -> (r: Option<(u64, u64)>)
        ensures
            r == if old(self)@.dom().contains(k) {
                Some(old(self)@[k])
            } else {
                None::<(u64, u64)>
            },
            final(self)@ == old(self)@.remove(k),
    {
        self.map.remove(&k)
    }

    /// Relies on `hashbrown::HashMap::drain`: empties the map and hands
    /// out every stored pair exactly once, in no promised order.
    #[verifier::external_body]
    pub(crate) fn drain(&mut self) -> (r: Vec<((u64, u64), (u64, u64))>)
        ensures
            forall|k: (u64, u64)| !final(self)@.dom().contains(k),
            forall|i: int|
                0 <= i < r@.len() ==> old(self)@.contains_pair((#[trigger] r@[i]).0, r@[i].1),
            forall|i: int, j: int|
                0 <= i < j < r@.len() ==> (#[trigger] r@[i]).0 != (#[trigger] r@[j]).0,
            forall|k: (u64, u64)| #[trigger]
                old(self)@.dom().contains(k) ==> exists|i: int|
                    0 <= i < r@.len() && r@[i] == (k, old(self)@[k]),
    {
        self.map.drain().collect()
    }
}

} // verus!
