//! The plugin's record of the buffers it has handed to the host and not yet
//! had back. Every buffer is released through the plugin exactly once: a
//! release of an address that is not outstanding (null, static metadata,
//! never handed out, or released already) frees nothing.
use vstd::prelude::*;

verus! {

/// The addresses of outstanding buffers.
pub struct AllocationLedger {
    pub live: Vec<usize>,
}

/// The outstanding set after `a` is handed out.
pub open spec fn recorded(s: Set<usize>, a: usize) -> Set<usize> {
    if a != 0 {
        s.insert(a)
    } else {
        s
    }
}

/// Whether a release of `a` frees a buffer, and the outstanding set after it.
pub open spec fn released(s: Set<usize>, a: usize) -> (bool, Set<usize>) {
    (a != 0 && s.contains(a), s.remove(a))
}

impl AllocationLedger {
    /// No address twice, and never null.
    pub open spec fn wf(&self) -> bool {
        self.live@.no_duplicates() && !self.live@.contains(0)
    }

    /// The outstanding addresses.
    pub open spec fn view(&self) -> Set<usize> {
        self.live@.to_set()
    }

    /// A ledger with nothing outstanding.
    pub fn new() -> (r: AllocationLedger)
        ensures
            r.wf(),
            r.view() == Set::<usize>::empty(),
    {
        let r = AllocationLedger { live: Vec::new() };
        assert(r.view() =~= Set::<usize>::empty());
        r
    }

    /// How many buffers are outstanding.
    pub fn outstanding(&self) -> (r: usize)
        requires
            self.wf(),
        ensures
            r == self.view().len(),
    {
        proof {
            self.live@.unique_seq_to_set();
        }
        self.live.len()
    }

    fn find(&self, a: usize) -> (r: Option<usize>)
        ensures
            r matches Some(i) ==> i < self.live@.len() && self.live@[i as int] == a,
            r is None ==> !self.live@.contains(a),
    {
        let mut i: usize = 0;
        while i < self.live.len()
            invariant
                i <= self.live@.len(),
                forall|j: int| 0 <= j < i ==> self.live@[j] != a,
            decreases self.live@.len() - i,
        {
            if self.live[i] == a {
                return Some(i);
            }
            i = i + 1;
        }
        None
    }

    /// Notes that the buffer at `a` was handed to the host. A null address
    /// is never outstanding.
    pub fn record(&mut self, a: usize)
        requires
            old(self).wf(),
        ensures
            final(self).wf(),
            final(self).view() == recorded(old(self).view(), a),
    {
        if a == 0 {
            return;
        }
        match self.find(a) {
            Some(_) => {
                assert(self.view() =~= self.view().insert(a));
            },
            None => {
                let ghost s0 = self.live@;
                self.live.push(a);
                assert(self.live@ == s0.push(a));
                assert forall|x: usize| self.live@.contains(x) <==> (s0.contains(x) || x == a) by {
                    if self.live@.contains(x) && x != a {
                        let j = choose|j: int| 0 <= j < self.live@.len() && self.live@[j] == x;
                        assert(s0[j] == x);
                    }
                    if s0.contains(x) {
                        let j = choose|j: int| 0 <= j < s0.len() && s0[j] == x;
                        assert(self.live@[j] == x);
                    }
                    if x == a {
                        assert(self.live@[s0.len() as int] == a);
                    }
                }
                assert(self.view() =~= s0.to_set().insert(a));
            },
        }
    }
}

/// The plugin's release entry point: gives back the buffer at `ptr`.
/// `true` means that the buffer was outstanding and must now be freed; it is
/// no longer outstanding afterwards. Null and any address that is not
/// outstanding give `false` and change nothing.
pub fn plugin_free_memory(ledger: &mut AllocationLedger, ptr: usize) -> (r: bool)
    requires
        old(ledger).wf(),
    ensures
        final(ledger).wf(),
        (r, final(ledger).view()) == released(old(ledger).view(), ptr),
{
    if ptr == 0 {
        assert(!ledger.live@.contains(0));
        assert(ledger.view() =~= ledger.view().remove(0));
        return false;
    }
    match ledger.find(ptr) {
        Some(i) => {
            let ghost s0 = ledger.live@;
            ledger.live.remove(i);
            proof {
                assert(ledger.live@ == s0.remove(i as int));
                assert forall|x: usize| ledger.view().contains(x) <==> s0.to_set().remove(ptr).contains(x) by {
                    if x == ptr && ledger.live@.contains(x) {
                        let j = choose|j: int| 0 <= j < ledger.live@.len() && ledger.live@[j] == x;
                        if j < i {
                            assert(s0[j] == x);
                        } else {
                            assert(s0[j + 1] == x);
                        }
                    }
                    if x != ptr && s0.contains(x) {
                        let j = choose|j: int| 0 <= j < s0.len() && s0[j] == x;
                        if j < i {
                            assert(ledger.live@[j] == x);
                        } else {
                            assert(ledger.live@[j - 1] == x);
                        }
                    }
                    if ledger.live@.contains(x) {
                        let j = choose|j: int| 0 <= j < ledger.live@.len() && ledger.live@[j] == x;
                        if j < i {
                            assert(s0[j] == x);
                        } else {
                            assert(s0[j + 1] == x);
                        }
                    }
                }
                assert(ledger.view() =~= s0.to_set().remove(ptr));
            }
            true
        },
        None => {
            assert(ledger.view() =~= ledger.view().remove(ptr));
            false
        },
    }
}

/// A buffer handed out and then released is freed exactly once: the first
/// release frees it and leaves the outstanding set as it was before, and a
/// second release frees nothing.
pub proof fn lemma_release_round_trip(s: Set<usize>, a: usize)
    requires
        a != 0,
        !s.contains(a),
    ensures
        released(recorded(s, a), a) == (true, s),
        released(released(recorded(s, a), a).1, a) == (false, s),
{
    assert(recorded(s, a).remove(a) =~= s);
    assert(s.remove(a) =~= s);
}

/// A release of an address that was never handed out (static metadata among
/// them) frees nothing and leaves the outstanding set as it is.
pub proof fn lemma_release_foreign(s: Set<usize>, a: usize)
    requires
        !s.contains(a),
    ensures
        released(s, a) == (false, s),
{
    assert(s.remove(a) =~= s);
}

} // verus!
