//! The registry of loaded plugins: one handle per effective prefix.
use vstd::prelude::*;

verus! {

/// A loaded plugin, as the registry keeps it.
pub struct PluginHandle {
    /// The name under which the plugin was declared.
    pub name: String,
    /// The prefix it answers to.
    pub prefix: String,
    /// Whether its initializer reported success.
    pub initialized: bool,
}

/// A loaded plugin as plain values.
pub struct HandleModel {
    pub name: Seq<char>,
    pub prefix: Seq<char>,
    pub initialized: bool,
}

impl View for PluginHandle {
    type V = HandleModel;

    open spec fn view(&self) -> HandleModel {
        HandleModel { name: self.name@, prefix: self.prefix@, initialized: self.initialized }
    }
}

/// A map from prefix to handle, kept as a list with distinct prefixes.
pub struct Registry {
    entries: Vec<(String, PluginHandle)>,
    model: Ghost<Map<Seq<char>, HandleModel>>,
}

impl View for Registry {
    type V = Map<Seq<char>, HandleModel>;

    closed spec fn view(&self) -> Map<Seq<char>, HandleModel> {
        self.model@
    }
}

impl Registry {
    /// The list has distinct prefixes and holds exactly the map.
    pub closed spec fn wf(&self) -> bool {
        let e = self.entries@;
        let m = self.model@;
        &&& forall|i: int| 0 <= i < e.len() ==> #[trigger] m.contains_key(e[i].0@)
            && m[e[i].0@] == e[i].1@
        &&& forall|k: Seq<char>| #[trigger] m.contains_key(k) ==> exists|i: int|
            0 <= i < e.len() && e[i].0@ == k
        &&& forall|i: int, j: int| 0 <= i < j < e.len() ==> e[i].0@ != e[j].0@
    }

    /// An empty registry.
    pub fn new() -> (r: Registry)
        ensures
            r.wf(),
            r@ == Map::<Seq<char>, HandleModel>::empty(),
    {
        Registry { entries: Vec::new(), model: Ghost(Map::empty()) }
    }

    /// Number of prefixes that have a handle.
    pub fn len(&self) -> (r: usize)
        requires
            self.wf(),
        ensures
            r == self@.len(),
    {
        proof { self.lemma_len(); }
        self.entries.len()
    }

    proof fn lemma_len(&self)
        requires
            self.wf(),
        ensures
            self@.dom().finite(),
            self@.len() == self.entries@.len(),
        decreases self.entries@.len(),
    {
        let e = self.entries@;
        let keys = e.map_values(|p: (String, PluginHandle)| p.0@);
        assert(self@.dom() =~= keys.to_set()) by {
            assert forall|k: Seq<char>| self@.dom().contains(k) implies keys.to_set().contains(k) by {
                let i = choose|i: int| 0 <= i < e.len() && e[i].0@ == k;
                assert(keys[i] == k);
            }
            assert forall|k: Seq<char>| keys.to_set().contains(k) implies self@.dom().contains(k) by {
                let i = choose|i: int| 0 <= i < keys.len() && keys[i] == k;
                assert(self@.contains_key(e[i].0@));
            }
        }
        assert(keys.no_duplicates()) by {
            assert forall|i: int, j: int| 0 <= i < keys.len() && 0 <= j < keys.len() && i != j
                implies keys[i] != keys[j] by {
                if i < j {
                    assert(e[i].0@ != e[j].0@);
                } else {
                    assert(e[j].0@ != e[i].0@);
                }
            }
        }
        keys.unique_seq_to_set();
    }

    fn position(&self, prefix: &String) -> (r: Option<usize>)
        requires
            self.wf(),
        ensures
            match r {
                None => !self@.contains_key(prefix@),
                Some(i) => i < self.entries@.len() && self.entries@[i as int].0@ == prefix@
                    && self@.contains_key(prefix@) && self@[prefix@] == self.entries@[i as int].1@,
            },
    {
        let mut i: usize = 0;
        while i < self.entries.len()
            invariant
                self.wf(),
                i <= self.entries@.len(),
                forall|j: int| 0 <= j < i ==> self.entries@[j].0@ != prefix@,
            decreases self.entries@.len() - i,
        {
            if self.entries[i].0 == *prefix {
                proof { assert(self@.contains_key(self.entries@[i as int].0@)); }
                return Some(i);
            }
            i = i + 1;
        }
        None
    }

    /// The handle registered under `prefix`.
    pub fn get(&self, prefix: &String) -> (r: Option<&PluginHandle>)
        requires
            self.wf(),
        ensures
            match r {
                None => !self@.contains_key(prefix@),
                Some(h) => self@.contains_key(prefix@) && self@[prefix@] == h@,
            },
    {
        match self.position(prefix) {
            None => None,
            Some(i) => Some(&self.entries[i].1),
        }
    }

    /// Registers `handle` under `prefix`, replacing any handle that held it.
    pub fn insert(&mut self, prefix: String, handle: PluginHandle)
        requires
            old(self).wf(),
        ensures
            final(self).wf(),
            final(self)@ == old(self)@.insert(prefix@, handle@),
    {
        let ghost m = self.model@.insert(prefix@, handle@);
        let ghost key = prefix@;
        let ghost at: int;
        match self.position(&prefix) {
            Some(i) => {
                self.entries.set(i, (prefix, handle));
                proof { at = i as int; }
            },
            None => {
                self.entries.push((prefix, handle));
                proof { at = self.entries@.len() - 1; }
            },
        }
        self.model = Ghost(m);
        proof {
            let e = self.entries@;
            assert forall|k: Seq<char>| #[trigger] m.contains_key(k) implies exists|i: int|
                0 <= i < e.len() && e[i].0@ == k by {
                if k != prefix@ {
                    let i = choose|i: int| 0 <= i < old(self).entries@.len()
                        && old(self).entries@[i].0@ == k;
                    assert(e[i].0@ == k);
                } else {
                    assert(e[at].0@ == key);
                }
            }
            assert forall|i: int| 0 <= i < e.len() implies #[trigger] m.contains_key(e[i].0@)
                && m[e[i].0@] == e[i].1@ by {
                if i != at {
                    assert(old(self).model@.contains_key(old(self).entries@[i].0@));
                }
            }
        }
    }
}

} // verus!
