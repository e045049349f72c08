//! The set of live windows.
use crate::window::WindowId;
use vstd::prelude::*;

verus! {

/// The identifiers of the live windows, each held once.
pub struct WindowRegistry {
    ids: Vec<WindowId>,
}

impl View for WindowRegistry {
    type V = Set<WindowId>;

    closed spec fn view(&self) -> Set<WindowId> {
        Set::new(|id: WindowId| self.ids@.contains(id))
    }
}

impl WindowRegistry {
    /// An empty registry.
    pub fn new() -> (r: WindowRegistry)
        ensures
            r@ == Set::<WindowId>::empty(),
    {
        let r = WindowRegistry { ids: Vec::new() };
        assert(r@ =~= Set::<WindowId>::empty());
        r
    }

    /// Whether `id` is a live window.
    pub fn contains(&self, id: WindowId) -> (r: bool)
        ensures
            r == self@.contains(id),
    {
        let mut i: usize = 0;
        while i < self.ids.len()
            invariant
                i <= self.ids@.len(),
                forall|j: int| 0 <= j < i ==> self.ids@[j] != id,
            decreases self.ids@.len() - i,
        {
            if self.ids[i] == id {
                assert(self.ids@.contains(id));
                return true;
            }
            i = i + 1;
        }
        false
    }

    /// Adds `id`; returns whether it was new.
    pub fn insert(&mut self, id: WindowId) -> (r: bool)
        ensures
            final(self)@ == old(self)@.insert(id),
            r == !old(self)@.contains(id),
    {
        if self.contains(id) {
            assert(old(self)@.insert(id) =~= old(self)@);
            false
        } else {
            let ghost before = self.ids@;
            self.ids.push(id);
            proof {
                assert forall|x: WindowId| #[trigger] self.ids@.contains(x) <==> (before.contains(x) || x == id) by {
                    if self.ids@.contains(x) {
                        let j = choose|j: int| 0 <= j < self.ids@.len() && self.ids@[j] == x;
                        if j < before.len() {
                            assert(before[j] == x);
                        }
                    }
                    if before.contains(x) {
                        let j = choose|j: int| 0 <= j < before.len() && before[j] == x;
                        assert(self.ids@[j] == x);
                    }
                    if x == id {
                        assert(self.ids@[before.len() as int] == x);
                    }
                }
                assert(self@ =~= old(self)@.insert(id));
            }
            true
        }
    }

    /// Removes `id`; returns whether it was there.
    pub fn remove(&mut self, id: WindowId) -> (r: bool)
        ensures
            final(self)@ == old(self)@.remove(id),
            r == old(self)@.contains(id),
    {
        let ghost before = self.ids@;
        let mut kept: Vec<WindowId> = Vec::new();
        let mut found = false;
        let mut i: usize = 0;
        while i < self.ids.len()
            invariant
                self.ids@ == before,
                i <= before.len(),
                found == (exists|j: int| 0 <= j < i && before[j] == id),
                forall|x: WindowId| #[trigger] kept@.contains(x) <==> (x != id && exists|j: int| 0 <= j < i && before[j] == x),
            decreases before.len() - i,
        {
            let x = self.ids[i];
            if x == id {
                found = true;
            } else {
                let ghost prev = kept@;
                kept.push(x);
                proof {
                    assert forall|y: WindowId| #[trigger] kept@.contains(y) <==> (prev.contains(y) || y == x) by {
                        if kept@.contains(y) {
                            let j = choose|j: int| 0 <= j < kept@.len() && kept@[j] == y;
                            if j < prev.len() {
                                assert(prev[j] == y);
                            }
                        }
                        if prev.contains(y) {
                            let j = choose|j: int| 0 <= j < prev.len() && prev[j] == y;
                            assert(kept@[j] == y);
                        }
                        if y == x {
                            assert(kept@[prev.len() as int] == y);
                        }
                    }
                }
            }
            i = i + 1;
            assert(before[i - 1] == x);
        }
        self.ids = kept;
        proof {
            assert forall|x: WindowId| #[trigger] before.contains(x) <==> (exists|j: int| 0 <= j < before.len() && before[j] == x) by {}
            assert(self@ =~= old(self)@.remove(id));
        }
        found
    }

    /// The live windows.
    pub fn snapshot(&self) -> (r: Vec<WindowId>)
        ensures
            forall|id: WindowId| r@.contains(id) <==> self@.contains(id),
    {
        self.ids.clone()
    }
}

} // verus!
