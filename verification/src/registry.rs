//! The window registry: an ordered, indexable collection of windows plus a
//! stable-id-to-index map.
//!
//! Invariant: the id-to-index mapping is injective and exactly reflects live
//! positions at all times. Removing the entry at index `i` shifts every entry
//! at an index greater than `i` down by one and remaps its id accordingly:
//! no gaps, no stale ids. All operations are linear in the window count,
//! which is acceptable at the small counts this shell targets.

use crate::window::Window;
use std::collections::HashMap;
use vstd::prelude::*;

verus! {

broadcast use vstd::std_specs::hash::group_hash_axioms;

/// Whether some window in the sequence carries the given id.
pub open spec fn spec_has_window(windows: Seq<Window>, id: u64) -> bool {
    exists|i: int| 0 <= i < windows.len() && windows[i].id == id
}

/// The position in the sequence of a window carrying the given id.
pub open spec fn spec_window_index(windows: Seq<Window>, id: u64) -> int {
    choose|i: int| 0 <= i < windows.len() && windows[i].id == id
}

/// Whether no two windows in the sequence share an id.
pub open spec fn spec_distinct_ids(windows: Seq<Window>) -> bool {
    forall|i: int, j: int|
        0 <= i < windows.len() && 0 <= j < windows.len() && i != j
            ==> windows[i].id != windows[j].id
}

/// The ids of the windows, in sequence order.
pub open spec fn spec_ids_of(windows: Seq<Window>) -> Seq<u64> {
    windows.map(|i: int, w: Window| w.id)
}

/// The ordered collection of live windows and the map from each window's
/// stable id to its current position.
pub struct WindowRegistry {
    /// The live windows, in registration order (compacted on removal).
    pub windows: Vec<Window>,
    /// The id-to-index map over exactly the live windows.
    pub indices: HashMap<u64, usize>,
}

impl WindowRegistry {
    /// Well-formedness: the id-to-index map exactly reflects live positions.
    /// Every window's id is mapped to the position it occupies, and every
    /// mapped id belongs to the window at its mapped position. Injectivity
    /// of the mapping follows: two distinct mapped ids sit at distinct
    /// positions.
    pub open spec fn wf(self) -> bool {
        &&& forall|i: int|
            0 <= i < self.windows@.len() ==> {
                &&& self.indices@.contains_key(#[trigger] self.windows@[i].id)
                &&& self.indices@[self.windows@[i].id] == i
            }
        &&& forall|id: u64|
            #[trigger] self.indices@.contains_key(id) ==> {
                &&& self.indices@[id] < self.windows@.len()
                &&& self.windows@[self.indices@[id] as int].id == id
            }
    }

    /// Whether some live window carries the given id.
    pub open spec fn spec_has(self, id: u64) -> bool {
        spec_has_window(self.windows@, id)
    }

    /// The position of the live window carrying the given id.
    pub open spec fn spec_index_of(self, id: u64) -> int {
        spec_window_index(self.windows@, id)
    }

    /// The ids of the live windows, in registry order.
    pub open spec fn spec_ids(self) -> Seq<u64> {
        spec_ids_of(self.windows@)
    }

    /// In a well-formed registry, an id is mapped exactly when a live
    /// window carries it, and then to that window's unique position.
    pub proof fn lemma_wf_index(self, id: u64)
        requires
            self.wf(),
        ensures
            self.indices@.contains_key(id) <==> self.spec_has(id),
            self.spec_has(id) ==> {
                &&& 0 <= self.spec_index_of(id) < self.windows@.len()
                &&& self.windows@[self.spec_index_of(id)].id == id
                &&& self.indices@[id] == self.spec_index_of(id)
                &&& forall|i: int|
                    0 <= i < self.windows@.len() && self.windows@[i].id == id
                        ==> i == self.spec_index_of(id)
            },
    {
        if self.indices@.contains_key(id) {
            assert(self.windows@[self.indices@[id] as int].id == id);
        }
        if self.spec_has(id) {
            let i = self.spec_index_of(id);
            assert(self.indices@[self.windows@[i].id] == i);
        }
    }

    /// In a well-formed registry no two positions hold the same id, so the
    /// id-to-index mapping is injective: distinct mapped ids are mapped to
    /// distinct positions.
    pub proof fn lemma_wf_injective(self)
        requires
            self.wf(),
        ensures
            forall|i: int, j: int|
                0 <= i < self.windows@.len() && 0 <= j < self.windows@.len() && i != j
                    ==> self.windows@[i].id != self.windows@[j].id,
            forall|id1: u64, id2: u64|
                self.indices@.contains_key(id1) && self.indices@.contains_key(id2) && id1 != id2
                    ==> self.indices@[id1] != self.indices@[id2],
    {
        assert forall|i: int, j: int|
            0 <= i < self.windows@.len() && 0 <= j < self.windows@.len() && i != j
                implies self.windows@[i].id != self.windows@[j].id by {
            assert(self.indices@[self.windows@[i].id] == i);
            assert(self.indices@[self.windows@[j].id] == j);
        }
        assert forall|id1: u64, id2: u64|
            self.indices@.contains_key(id1) && self.indices@.contains_key(id2) && id1 != id2
                implies self.indices@[id1] != self.indices@[id2] by {
            assert(self.windows@[self.indices@[id1] as int].id == id1);
            assert(self.windows@[self.indices@[id2] as int].id == id2);
        }
    }

    /// Creates an empty registry.
    pub fn new() -> (registry: WindowRegistry)
        ensures
            registry.wf(),
            registry.windows@ =~= Seq::<Window>::empty(),
            registry.indices@ =~= Map::<u64, usize>::empty(),
    {
        WindowRegistry { windows: Vec::new(), indices: HashMap::new() }
    }

    /// The number of live windows.
    pub fn len(&self) -> (n: usize)
        ensures
            n == self.windows@.len(),
    {
        self.windows.len()
    }

    /// Whether no window is live.
    pub fn is_empty(&self) -> (empty: bool)
        ensures
            empty <==> self.windows@.len() == 0,
    {
        self.windows.is_empty()
    }

    /// Appends a window and records its id at the new last position.
    /// The id must be unique among currently registered windows, which the
    /// windowing layer guarantees for live handles.
    pub fn open(&mut self, window: Window) -> (index: usize)
        requires
            old(self).wf(),
            !old(self).spec_has(window.id),
        ensures
            final(self).wf(),
            index == old(self).windows@.len(),
            final(self).windows@ == old(self).windows@.push(window),
            final(self).indices@ == old(self).indices@.insert(window.id, index),
    {
        proof {
            old(self).lemma_wf_index(window.id);
        }
        let index = self.windows.len();
        self.indices.insert(window.id, index);
        self.windows.push(window);
        proof {
            assert forall|i: int| 0 <= i < self.windows@.len() implies {
                &&& self.indices@.contains_key(#[trigger] self.windows@[i].id)
                &&& self.indices@[self.windows@[i].id] == i
            } by {
                if i < index {
                    assert(self.windows@[i] == old(self).windows@[i]);
                    assert(old(self).windows@[i].id != window.id);
                }
            }
        }
        index
    }

    /// Looks a window's current position up by id.
    pub fn index_of(&self, id: u64) -> (index: Option<usize>)
        requires
            self.wf(),
        ensures
            match index {
                Some(i) => self.spec_has(id) && i == self.spec_index_of(id),
                None => !self.spec_has(id),
            },
    {
        proof {
            self.lemma_wf_index(id);
        }
        match self.indices.get(&id) {
            Some(i) => Some(*i),
            None => None,
        }
    }

    /// Looks a window up by id.
    pub fn get(&self, id: u64) -> (window: Option<&Window>)
        requires
            self.wf(),
        ensures
            match window {
                Some(w) => self.spec_has(id) && *w == self.windows@[self.spec_index_of(id)],
                None => !self.spec_has(id),
            },
    {
        match self.index_of(id) {
            Some(i) => Some(&self.windows[i]),
            None => None,
        }
    }

    /// Reads the window at a position.
    pub fn window_at(&self, index: usize) -> (window: Window)
        requires
            index < self.windows@.len(),
        ensures
            window == self.windows@[index as int],
    {
        self.windows[index]
    }

    /// Replaces the window at a position with an updated window carrying
    /// the same id. The mapping is untouched: positions do not move.
    pub fn update_at(&mut self, index: usize, window: Window)
        requires
            old(self).wf(),
            index < old(self).windows@.len(),
            window.id == old(self).windows@[index as int].id,
        ensures
            final(self).wf(),
            final(self).windows@ == old(self).windows@.update(index as int, window),
            final(self).indices@ == old(self).indices@,
    {
        self.windows[index] = window;
        proof {
            assert forall|i: int| 0 <= i < self.windows@.len() implies {
                &&& self.indices@.contains_key(#[trigger] self.windows@[i].id)
                &&& self.indices@[self.windows@[i].id] == i
            } by {
                if i != index {
                    assert(self.windows@[i] == old(self).windows@[i]);
                }
            }
        }
    }

    /// Removes the window with the given id, if it is live, and remaps
    /// every window that stood at a higher position down by exactly one.
    /// An unknown id is a no-op, not an error: a close may race with
    /// in-flight events for an already-removed window.
    pub fn close(&mut self, id: u64) -> (removed: bool)
        requires
            old(self).wf(),
        ensures
            final(self).wf(),
            removed == old(self).spec_has(id),
            !removed ==> {
                &&& final(self).windows@ == old(self).windows@
                &&& final(self).indices@ == old(self).indices@
            },
            removed ==> {
                let i = old(self).spec_index_of(id);
                &&& final(self).windows@ == old(self).windows@.remove(i)
                &&& forall|j: int|
                    i < j < old(self).windows@.len()
                        ==> final(self).indices@[#[trigger] old(self).windows@[j].id] == j - 1
                &&& forall|j: int|
                    0 <= j < i
                        ==> final(self).indices@[#[trigger] old(self).windows@[j].id] == j
                &&& !final(self).spec_has(id)
            },
    {
        proof {
            old(self).lemma_wf_index(id);
            old(self).lemma_wf_injective();
        }
        let found = self.indices.remove(&id);
        let index: usize = match found {
            Some(i) => i,
            None => {
                proof {
                    assert(self.indices@ =~= old(self).indices@);
                }
                return false;
            },
        };
        let ghost prior = old(self).windows@;
        let ghost shrunk = prior.remove(index as int);
        self.windows.remove(index);
        proof {
            assert forall|key: u64| #[trigger] self.indices@.contains_key(key)
                implies exists|k: int| 0 <= k < shrunk.len() && shrunk[k].id == key by {
                assert(old(self).indices@.contains_key(key));
                let i0 = old(self).indices@[key] as int;
                assert(old(self).windows@[i0].id == key);
                if i0 < index {
                    assert(shrunk[i0].id == key);
                } else {
                    assert(shrunk[i0 - 1].id == key);
                }
            }
        }
        let mut j: usize = index;
        while j < self.windows.len()
            invariant
                self.windows@ == shrunk,
                shrunk == prior.remove(index as int),
                index <= j <= shrunk.len(),
                shrunk.len() == prior.len() - 1,
                index < prior.len(),
                prior[index as int].id == id,
                forall|k: int|
                    0 <= k < index ==> shrunk[k] == prior[k],
                forall|k: int|
                    index <= k < shrunk.len() ==> shrunk[k] == prior[k + 1],
                forall|k: int, l: int|
                    0 <= k < prior.len() && 0 <= l < prior.len() && k != l
                        ==> prior[k].id != prior[l].id,
                forall|k: int|
                    0 <= k < j ==> {
                        &&& self.indices@.contains_key(#[trigger] shrunk[k].id)
                        &&& self.indices@[shrunk[k].id] == k
                    },
                forall|k: int|
                    j <= k < shrunk.len() ==> {
                        &&& self.indices@.contains_key(#[trigger] shrunk[k].id)
                        &&& self.indices@[shrunk[k].id] == k + 1
                    },
                forall|key: u64|
                    #[trigger] self.indices@.contains_key(key)
                        ==> exists|k: int| 0 <= k < shrunk.len() && shrunk[k].id == key,
            decreases self.windows@.len() - j,
        {
            let moved = self.windows[j];
            proof {
                assert(shrunk[j as int] == prior[j + 1]);
            }
            self.indices.insert(moved.id, j);
            proof {
                assert forall|k: int|
                    j + 1 <= k < shrunk.len() implies {
                        &&& self.indices@.contains_key(#[trigger] shrunk[k].id)
                        &&& self.indices@[shrunk[k].id] == k + 1
                    } by {
                    assert(shrunk[k] == prior[k + 1]);
                    assert(prior[k + 1].id != prior[j + 1].id);
                }
            }
            j = j + 1;
        }
        proof {
            assert forall|key: u64| #[trigger] self.indices@.contains_key(key) implies {
                &&& self.indices@[key] < self.windows@.len()
                &&& self.windows@[self.indices@[key] as int].id == key
            } by {
                let k = choose|k: int| 0 <= k < shrunk.len() && shrunk[k].id == key;
                assert(self.indices@[shrunk[k].id] == k);
            }
            assert forall|jj: int|
                index < jj < prior.len()
                    implies self.indices@[#[trigger] prior[jj].id] == jj - 1 by {
                assert(shrunk[jj - 1] == prior[jj]);
            }
            assert(!self.spec_has(id)) by {
                assert forall|k: int|
                    0 <= k < shrunk.len() implies shrunk[k].id != id by {
                    if k < index {
                        assert(shrunk[k] == prior[k]);
                        assert(prior[k].id != prior[index as int].id);
                    } else {
                        assert(shrunk[k] == prior[k + 1]);
                        assert(prior[k + 1].id != prior[index as int].id);
                    }
                }
            }
        }
        true
    }
}

} // verus!
