//! A set of window identifiers kept as a strictly increasing sequence, so that
//! each window is listed at most once and membership is a binary search.
use vstd::prelude::*;

verus! {

/// The identifier of a window, as the windowing system issues it.
pub type WindowId = u64;

pub open spec fn strictly_sorted(s: Seq<WindowId>) -> bool {
    forall|i: int, j: int| 0 <= i < j < s.len() ==> s[i] < s[j]
}

/// A set of window identifiers in increasing order.
pub struct WindowIdSet {
    ids: Vec<WindowId>,
}

impl View for WindowIdSet {
    type V = Seq<WindowId>;

    closed spec fn view(&self) -> Seq<WindowId> {
        self.ids@
    }
}

proof fn lemma_sorted_insert(s: Seq<WindowId>, i: int, id: WindowId)
    requires
        strictly_sorted(s),
        0 <= i <= s.len(),
        forall|k: int| 0 <= k < i ==> s[k] < id,
        forall|k: int| i <= k < s.len() ==> s[k] > id,
    ensures
        strictly_sorted(s.insert(i, id)),
        s.insert(i, id).to_set() == s.to_set().insert(id),
{
    let t = s.insert(i, id);
    assert forall|a: int, b: int| 0 <= a < b < t.len() implies t[a] < t[b] by {
        if b < i {
        } else if b == i {
        } else if a < i {
        } else if a == i {
        } else {
            assert(t[a] == s[a - 1] && t[b] == s[b - 1]);
        }
    }
    assert forall|x: WindowId| t.to_set().contains(x) <==> s.to_set().insert(id).contains(x) by {
        if t.contains(x) {
            let k = choose|k: int| 0 <= k < t.len() && t[k] == x;
            if k < i {
                assert(s[k] == x);
            } else if k > i {
                assert(s[k - 1] == x);
            }
        }
        if s.contains(x) {
            let k = choose|k: int| 0 <= k < s.len() && s[k] == x;
            if k < i {
                assert(t[k] == x);
            } else {
                assert(t[k + 1] == x);
            }
        }
        if x == id {
            assert(t[i] == x);
        }
    }
    assert(t.to_set() =~= s.to_set().insert(id));
}

proof fn lemma_sorted_remove(s: Seq<WindowId>, i: int)
    requires
        strictly_sorted(s),
        0 <= i < s.len(),
    ensures
        strictly_sorted(s.remove(i)),
        s.remove(i).to_set() == s.to_set().remove(s[i]),
{
    let t = s.remove(i);
    assert forall|a: int, b: int| 0 <= a < b < t.len() implies t[a] < t[b] by {
        if b < i {
        } else if a < i {
            assert(t[b] == s[b + 1]);
        } else {
            assert(t[a] == s[a + 1] && t[b] == s[b + 1]);
        }
    }
    assert forall|x: WindowId| t.to_set().contains(x) <==> s.to_set().remove(s[i]).contains(x) by {
        if t.contains(x) {
            let k = choose|k: int| 0 <= k < t.len() && t[k] == x;
            if k < i {
                assert(s[k] == x);
            } else {
                assert(s[k + 1] == x);
            }
        }
        if s.contains(x) && x != s[i] {
            let k = choose|k: int| 0 <= k < s.len() && s[k] == x;
            if k < i {
                assert(t[k] == x);
            } else {
                assert(t[k - 1] == x);
            }
        }
    }
    assert(t.to_set() =~= s.to_set().remove(s[i]));
}

impl WindowIdSet {
    /// Identifiers are kept in strictly increasing order.
    pub open spec fn wf(&self) -> bool {
        strictly_sorted(self@)
    }

    /// The empty set.
    pub fn new() -> (r: WindowIdSet)
        ensures
            r@ == Seq::<WindowId>::empty(),
            r.wf(),
    {
        WindowIdSet { ids: Vec::new() }
    }

    /// Where `id` stands (`Ok`), or where it would be inserted (`Err`).
    fn search(&self, id: WindowId) -> (r: Result<usize, usize>)
        requires
            self.wf(),
        ensures
            match r {
                Ok(i) => i < self@.len() && self@[i as int] == id,
                Err(i) => i <= self@.len() && (forall|k: int| 0 <= k < i ==> self@[k] < id) && (
                forall|k: int| i <= k < self@.len() ==> self@[k] > id),
            },
    {
        let mut lo: usize = 0;
        let mut hi: usize = self.ids.len();
        while lo < hi
            invariant
                lo <= hi <= self.ids@.len(),
                strictly_sorted(self.ids@),
                forall|k: int| 0 <= k < lo ==> self.ids@[k] < id,
                forall|k: int| hi <= k < self.ids@.len() ==> self.ids@[k] > id,
            decreases hi - lo,
        {
            let mid: usize = lo + (hi - lo) / 2;
            let here = self.ids[mid];
            if here < id {
                lo = mid + 1;
            } else if here > id {
                hi = mid;
            } else {
                return Ok(mid);
            }
        }
        Err(lo)
    }

    /// Whether `id` is in the set.
    pub fn contains(&self, id: WindowId) -> (r: bool)
        requires
            self.wf(),
        ensures
            r == self@.contains(id),
    {
        match self.search(id) {
            Ok(_) => true,
            Err(_) => false,
        }
    }

    /// Adds `id`; returns whether it was missing.
    pub fn insert(&mut self, id: WindowId) -> (r: bool)
        requires
            old(self).wf(),
        ensures
            r == !old(self)@.contains(id),
            final(self)@.to_set() == old(self)@.to_set().insert(id),
            r ==> final(self)@.len() == old(self)@.len() + 1,
            !r ==> final(self)@ == old(self)@,
            final(self).wf(),
    {
        match self.search(id) {
            Ok(_) => false,
            Err(pos) => {
                proof {
                    lemma_sorted_insert(self.ids@, pos as int, id);
                }
                self.ids.insert(pos, id);
                true
            },
        }
    }

    /// Removes `id`; returns whether it was present.
    pub fn remove(&mut self, id: WindowId) -> (r: bool)
        requires
            old(self).wf(),
        ensures
            r == old(self)@.contains(id),
            final(self)@.to_set() == old(self)@.to_set().remove(id),
            r ==> final(self)@.len() + 1 == old(self)@.len(),
            !r ==> final(self)@ == old(self)@,
            final(self).wf(),
    {
        match self.search(id) {
            Ok(pos) => {
                proof {
                    lemma_sorted_remove(self.ids@, pos as int);
                }
                self.ids.remove(pos);
                true
            },
            Err(_) => false,
        }
    }

    /// Empties the set.
    pub fn clear(&mut self)
        ensures
            final(self)@ == Seq::<WindowId>::empty(),
            final(self).wf(),
    {
        self.ids.clear();
    }

    /// Empties the set and hands out what it held, in increasing order.
    pub fn take_all(&mut self) -> (r: Vec<WindowId>)
        requires
            old(self).wf(),
        ensures
            r@ == old(self)@,
            strictly_sorted(r@),
            final(self)@ == Seq::<WindowId>::empty(),
    {
        let mut taken: Vec<WindowId> = Vec::new();
        std::mem::swap(&mut taken, &mut self.ids);
        taken
    }

    /// The identifiers of the set, in increasing order.
    pub fn to_vec(&self) -> (r: Vec<WindowId>)
        ensures
            r@ == self@,
    {
        let mut r: Vec<WindowId> = Vec::new();
        let mut i: usize = 0;
        while i < self.ids.len()
            invariant
                i <= self.ids@.len(),
                r@ == self.ids@.take(i as int),
            decreases self.ids@.len() - i,
        {
            r.push(self.ids[i]);
            i = i + 1;
            proof {
                assert(r@ =~= self.ids@.take(i as int));
            }
        }
        proof {
            assert(self.ids@.take(i as int) =~= self.ids@);
        }
        r
    }

    /// The number of identifiers in the set.
    pub fn len(&self) -> (r: usize)
        ensures
            r == self@.len(),
    {
        self.ids.len()
    }
}

/// A strictly increasing sequence lists no identifier twice; every set keeps
/// its identifiers so after each insertion and removal.
pub proof fn lemma_sorted_has_no_duplicates(s: Seq<WindowId>)
    requires
        strictly_sorted(s),
    ensures
        s.no_duplicates(),
{
}

} // verus!
