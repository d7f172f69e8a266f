use vstd::prelude::*;

verus! {

/// What the wrapper of a materialized item must do with the platform's
/// resize observation after it was rendered.
#[derive(Clone, Copy, Debug, PartialEq, Eq, Structural)]
pub enum BindStep {
    /// The element is observed already: nothing to do.
    Keep,
    /// Observe the element.
    Observe,
    /// Stop observing the element `released`, then observe the new one.
    Replace { released: u64 },
}

/// The link between the wrapper of one materialized item and the element it
/// rendered: unbound, or bound to an element (by its identity) that stands
/// at a position of the list.
#[derive(Clone, Copy, Debug, PartialEq, Eq, Structural)]
pub enum Binding {
    Unbound,
    Bound { element: u64, position: usize },
}

impl Binding {
    /// A binding to no element.
    pub fn new() -> (b: Binding)
        ensures
            b == Binding::Unbound,
    {
        Binding::Unbound
    }

    /// The wrapper rendered `element` at `position`: binds it, and says
    /// whether the element must be observed and whether an element observed
    /// before must be released first.
    pub fn rebind(&mut self, element: u64, position: usize) -> (r: BindStep)
        ensures
            *final(self) == (Binding::Bound { element, position }),
            r == match *old(self) {
                Binding::Unbound => BindStep::Observe,
                Binding::Bound { element: e, position: _ } => if e == element {
                    BindStep::Keep
                } else {
                    BindStep::Replace { released: e }
                },
            },
    {
        let r = match *self {
            Binding::Unbound => BindStep::Observe,
            Binding::Bound { element: e, position: _ } => if e == element {
                BindStep::Keep
            } else {
                BindStep::Replace { released: e }
            },
        };
        *self = Binding::Bound { element, position };
        r
    }

    /// The wrapper is taken down: returns the element to release, if one is
    /// bound.
    pub fn unbind(&mut self) -> (r: Option<u64>)
        ensures
            *final(self) == Binding::Unbound,
            r == match *old(self) {
                Binding::Unbound => None,
                Binding::Bound { element: e, position: _ } => Some(e),
            },
    {
        let r = match *self {
            Binding::Unbound => None,
            Binding::Bound { element: e, position: _ } => Some(e),
        };
        *self = Binding::Unbound;
        r
    }
}

/// The bookkeeping of one list's resize observation: which elements are
/// observed, and whether the observation is still connected. Each method
/// says whether the platform call it stands for must be made, so that every
/// element is observed at most once and released exactly once.
#[derive(Debug)]
pub struct ResizeObserver {
    observed: Vec<u64>,
    connected: bool,
}

impl ResizeObserver {
    /// The elements observed.
    pub closed spec fn observed_set(&self) -> Set<u64> {
        self.observed@.to_set()
    }

    /// Whether the observation is connected.
    pub closed spec fn is_connected(&self) -> bool {
        self.connected
    }

    /// Each element is held once, and none while disconnected.
    pub closed spec fn wf(&self) -> bool {
        &&& self.observed@.no_duplicates()
        &&& !self.connected ==> self.observed@.len() == 0
    }

    /// A connected observation of no element.
    pub fn new() -> (o: ResizeObserver)
        ensures
            o.wf(),
            o.is_connected(),
            o.observed_set() == Set::<u64>::empty(),
    {
        let o = ResizeObserver { observed: Vec::new(), connected: true };
        assert(o.observed@.to_set() =~= Set::<u64>::empty());
        o
    }

    /// Whether `element` is observed.
    pub fn is_observed(&self, element: u64) -> (r: bool)
        ensures
            r == self.observed_set().contains(element),
    {
        let mut i: usize = 0;
        while i < self.observed.len()
            invariant
                i <= self.observed@.len(),
                forall|k: int| 0 <= k < i ==> self.observed@[k] != element,
            decreases self.observed@.len() - i,
        {
            if self.observed[i] == element {
                assert(self.observed@.to_set().contains(self.observed@[i as int]));
                return true;
            }
            i = i + 1;
        }
        proof {
            if self.observed@.to_set().contains(element) {
                assert(self.observed@.contains(element));
                let k = choose|k: int| 0 <= k < self.observed@.len() && self.observed@[k] == element;
            }
        }
        false
    }

    /// Number of elements observed.
    pub fn len(&self) -> (r: usize)
        requires
            self.wf(),
        ensures
            r == self.observed_set().len(),
    {
        proof {
            self.observed@.unique_seq_to_set();
        }
        self.observed.len()
    }

    /// Starts observing `element`. Returns whether the platform must be
    /// asked to observe it: only while connected, and only for an element
    /// not observed yet.
    pub fn observe(&mut self, element: u64) -> (r: bool)
        requires
            old(self).wf(),
        ensures
            final(self).wf(),
            final(self).is_connected() == old(self).is_connected(),
            r == (old(self).is_connected() && !old(self).observed_set().contains(element)),
            r ==> final(self).observed_set() == old(self).observed_set().insert(element),
            !r ==> final(self).observed_set() == old(self).observed_set(),
    {
        if !self.connected || self.is_observed(element) {
            return false;
        }
        let ghost before = self.observed@;
        self.observed.push(element);
        proof {
            assert(self.observed@ == before.push(element));
            before.lemma_push_to_set_commute(element);
            assert(self.observed@.no_duplicates()) by {
                assert forall|a: int, b: int|
                    0 <= a < self.observed@.len() && 0 <= b < self.observed@.len() && a != b
                        implies self.observed@[a] != self.observed@[b] by {
                    if a == before.len() as int {
                        assert(before.to_set().contains(before[b]));
                    } else if b == before.len() as int {
                        assert(before.to_set().contains(before[a]));
                    }
                }
            }
        }
        true
    }

    /// Stops observing `element`. Returns whether the platform must be asked
    /// to release it: only where it was observed, so that it is released
    /// once.
    pub fn unobserve(&mut self, element: u64) -> (r: bool)
        requires
            old(self).wf(),
        ensures
            final(self).wf(),
            final(self).is_connected() == old(self).is_connected(),
            r == old(self).observed_set().contains(element),
            final(self).observed_set() == old(self).observed_set().remove(element),
    {
        let ghost before = self.observed@;
        let mut i: usize = 0;
        while i < self.observed.len()
            invariant
                self.observed@ == before,
                self.connected == old(self).connected,
                before.no_duplicates(),
                before == old(self).observed@,
                !self.connected ==> before.len() == 0,
                i <= before.len(),
                forall|k: int| 0 <= k < i ==> before[k] != element,
            decreases before.len() - i,
        {
            if self.observed[i] == element {
                self.observed.remove(i);
                proof {
                    let after = self.observed@;
                    assert(after == before.remove(i as int));
                    assert(before[i as int] == element);
                    assert forall|x: u64| after.to_set().contains(x) == before.to_set().remove(
                        element,
                    ).contains(x) by {
                        if after.to_set().contains(x) {
                            assert(after.contains(x));
                            let k = choose|k: int| 0 <= k < after.len() && after[k] == x;
                            if k < i {
                                assert(before[k] == x);
                            } else {
                                assert(before[k + 1] == x);
                            }
                            assert(before.contains(x));
                        }
                        if before.to_set().remove(element).contains(x) {
                            assert(before.contains(x));
                            let k = choose|k: int| 0 <= k < before.len() && before[k] == x;
                            assert(k != i);
                            if k < i {
                                assert(after[k] == x);
                            } else {
                                assert(after[k - 1] == x);
                            }
                            assert(after.contains(x));
                        }
                    }
                    assert(after.to_set() =~= before.to_set().remove(element));
                    assert(before.contains(before[i as int]));
                    assert(after.no_duplicates()) by {
                        assert forall|a: int, b: int|
                            0 <= a < after.len() && 0 <= b < after.len() && a != b implies after[a]
                            != after[b] by {
                            let a1 = if a < i { a } else { a + 1 };
                            let b1 = if b < i { b } else { b + 1 };
                            assert(after[a] == before[a1]);
                            assert(after[b] == before[b1]);
                        }
                    }
                }
                return true;
            }
            i = i + 1;
        }
        proof {
            assert(!before.to_set().contains(element)) by {
                if before.to_set().contains(element) {
                    assert(before.contains(element));
                    let k = choose|k: int| 0 <= k < before.len() && before[k] == element;
                }
            }
            assert(before.to_set().remove(element) =~= before.to_set());
        }
        false
    }

    /// Ends the observation of every element. Returns whether the platform
    /// must be asked to disconnect: only the first time.
    pub fn disconnect(&mut self) -> (r: bool)
        requires
            old(self).wf(),
        ensures
            final(self).wf(),
            !final(self).is_connected(),
            final(self).observed_set() == Set::<u64>::empty(),
            r == old(self).is_connected(),
    {
        let r = self.connected;
        self.observed.clear();
        self.connected = false;
        assert(self.observed@.to_set() =~= Set::<u64>::empty());
        r
    }
}

} // verus!
