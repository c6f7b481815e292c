//! The service registry: a type-erased mapping from service-message type
//! identity to a typed delivery handle.
//!
//! The host derives a process-local tag (`u64`) from each concrete message
//! type; the registry maps tags to entries.  At most one entry may exist
//! per tag: a second registration for the same tag is a fatal
//! initialization error, reported as [`RegisterOutcome::FatalDuplicate`]
//! for the host to log at critical level and abort on.

use vstd::prelude::*;
use vstd::map::*;

verus! {

/// What the tag map holds: the tag → slot associations stored so far.
pub uninterp spec fn tag_map_contents(m: TagMap) -> Map<u64, u64>;

/// Tag-indexed storage, backed by a hash map of an outside crate.  The
/// struct is opaque to the verifier; the trusted methods below state what
/// each call does to [`tag_map_contents`].
#[verifier::external_body]
pub struct TagMap {
    map: hashbrown::HashMap<u64, u64>,
}

impl View for TagMap {
    type V = Map<u64, u64>;

    /// The tag → slot associations stored so far.
    closed spec fn view(&self) -> Map<u64, u64> {
        tag_map_contents(*self)
    }
}

impl TagMap {
    /// Relies on `hashbrown::HashMap::new`: an empty map.
    #[verifier::external_body]
    pub(crate) fn new() -> (r: TagMap)
        ensures
            forall|k: u64| !r@.dom().contains(k),
    {
        TagMap { map: hashbrown::HashMap::new() }
    }

    /// Relies on `hashbrown::HashMap::get`: the value the key maps to, if
    /// the key is present.
    #[verifier::external_body]
    pub(crate) fn get(&self, k: u64) -> (r: Option<u64>)
        ensures
            r == if self@.dom().contains(k) {
                Some(self@[k])
            } else {
                None::<u64>
            },
    {
        self.map.get(&k).copied()
    }

    /// Relies on `hashbrown::HashMap::insert`: maps the key to the value,
    /// replacing any earlier association.
    #[verifier::external_body]
    pub(crate) fn insert(&mut self, k: u64, v: u64)
        ensures
            tag_map_contents(*final(self)) == tag_map_contents(*old(self)).insert(k, v),
    {
        self.map.insert(k, v);
    }
}

/// One registered service: its service and actor names (kept for
/// diagnostics) and the type-erased delivery handle by which the host
/// reaches the handler's mailbox.
pub struct RegistryEntry {
    /// The service name the entry was registered under.
    pub service: String,
    /// The name of the actor that registered it.
    pub actor: String,
    /// Host-side handle of the handler's mailbox.
    pub recipient: u64,
}

/// Mathematical model of one registry entry.
#[verifier::ext_equal]
pub struct RegistryEntryView {
    /// The service name the entry was registered under.
    pub service: Seq<char>,
    /// The name of the actor that registered it.
    pub actor: Seq<char>,
    /// Host-side handle of the handler's mailbox.
    pub recipient: u64,
}

impl View for RegistryEntry {
    type V = RegistryEntryView;

    open spec fn view(&self) -> RegistryEntryView {
        RegistryEntryView { service: self.service@, actor: self.actor@, recipient: self.recipient }
    }
}

/// The outcome of a registration.
#[derive(Debug, PartialEq, Eq, Structural)]
pub enum RegisterOutcome {
    /// The mapping was installed.
    Registered,
    /// An entry for this tag already exists.  Two actors claim the same
    /// service: a fatal initialization error.  The registry is unchanged;
    /// the host must log at critical level and abort the process rather
    /// than let a silent last-writer-wins make the bug undiagnosable.
    FatalDuplicate,
}

/// The registry proper: tags resolve through the hash map to slots of
/// `entries`.
pub struct Registry {
    tags: TagMap,
    entries: Vec<RegistryEntry>,
}

impl View for Registry {
    type V = Map<u64, RegistryEntryView>;

    /// The mapping the registry represents.
    closed spec fn view(&self) -> Map<u64, RegistryEntryView> {
        Map::new(
            |t: u64| self.tags@.dom().contains(t),
            |t: u64| self.entries@[self.tags@[t] as int]@,
        )
    }
}

impl Registry {
    /// Every stored slot points into `entries`.
    pub closed spec fn wf(self) -> bool {
        forall|t: u64|
            self.tags@.dom().contains(t) ==> (#[trigger] self.tags@[t] as int)
                < self.entries@.len()
    }

    /// An empty registry.
    pub fn new() -> (r: Registry)
        ensures
            r.wf(),
            r@ == Map::<u64, RegistryEntryView>::empty(),
    {
        let r = Registry { tags: TagMap::new(), entries: Vec::new() };
        proof {
            assert(r@ =~= Map::<u64, RegistryEntryView>::empty());
        }
        r
    }

    /// Installs a mapping from `tag` to the entry, unless the tag is
    /// already claimed; a duplicate leaves the registry unchanged and is
    /// fatal for the host.
    pub fn register(&mut self, tag: u64, service: String, actor: String, recipient: u64) -> (r:
        RegisterOutcome)
        requires
            old(self).wf(),
        ensures
            final(self).wf(),
            old(self)@.dom().contains(tag) ==> r is FatalDuplicate && final(self)@ == old(self)@,
            !old(self)@.dom().contains(tag) ==> r is Registered && final(self)@ == old(
                self,
            )@.insert(tag, RegistryEntryView { service: service@, actor: actor@, recipient }),
    {
        match self.tags.get(tag) {
            Some(_) => RegisterOutcome::FatalDuplicate,
            None => {
                let idx = self.entries.len();
                self.entries.push(RegistryEntry { service, actor, recipient });
                self.tags.insert(tag, idx as u64);
                proof {
                    assert(self@ =~= old(self)@.insert(
                        tag,
                        RegistryEntryView { service: service@, actor: actor@, recipient },
                    ));
                }
                RegisterOutcome::Registered
            },
        }
    }

    /// The entry registered under `tag`, if any.
    pub fn lookup(&self, tag: u64) -> (r: Option<&RegistryEntry>)
        requires
            self.wf(),
        ensures
            match r {
                Some(e) => self@.dom().contains(tag) && e@ == self@[tag],
                None => !self@.dom().contains(tag),
            },
    {
        match self.tags.get(tag) {
            Some(idx) => {
                let n = self.entries.len();
                proof {
                    assert((idx as int) < n as int);
                }
                let e = &self.entries[idx as usize];
                Some(e)
            },
            None => None,
        }
    }
}

} // verus!
