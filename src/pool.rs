//! The staging-buffer pools of one presentation surface.
//!
//! Every identifier of a surface sits in exactly one of three lists: *unassigned*
//! (reserved, never created in the backend), *available* (created, free for the
//! next frame) and *queued* (a copy into it is in flight).
use arrayvec::ArrayVec;
use vstd::prelude::*;

use crate::staging::{ids_len, ids_new, ids_pop, ids_push, ids_remove, ids_slice, staged_ids};
use crate::PRESENTATION_BUFFER_COUNT;

verus! {

/// The three lists as sequences.
pub struct PoolsView {
    pub unassigned: Seq<u64>,
    pub available: Seq<u64>,
    pub queued: Seq<u64>,
}

impl PoolsView {
    pub open spec fn total(self) -> nat {
        self.unassigned.len() + self.available.len() + self.queued.len()
    }

    /// No identifier is in two of the lists.
    pub open spec fn pairwise_disjoint(self) -> bool {
        &&& forall|x: u64| self.unassigned.contains(x) ==> !self.available.contains(x)
        &&& forall|x: u64| self.unassigned.contains(x) ==> !self.queued.contains(x)
        &&& forall|x: u64| self.available.contains(x) ==> !self.queued.contains(x)
    }

    /// No identifier occurs twice, and the surface holds at most the pool's capacity.
    pub open spec fn wf(self) -> bool {
        &&& self.unassigned.no_duplicates()
        &&& self.available.no_duplicates()
        &&& self.queued.no_duplicates()
        &&& self.pairwise_disjoint()
        &&& self.total() <= PRESENTATION_BUFFER_COUNT
    }

    /// The identifier a present takes next: the last available one, else the last
    /// unassigned one. Meaningful only when one of the two lists is non-empty.
    pub open spec fn next_buffer(self) -> u64 {
        if self.available.len() > 0 {
            self.available.last()
        } else {
            self.unassigned.last()
        }
    }

    /// The lists after a present: the next buffer moves to *queued*; with no
    /// available or unassigned buffer, nothing changes.
    pub open spec fn acquired(self) -> PoolsView {
        if self.available.len() > 0 {
            PoolsView {
                unassigned: self.unassigned,
                available: self.available.drop_last(),
                queued: self.queued.push(self.available.last()),
            }
        } else if self.unassigned.len() > 0 {
            PoolsView {
                unassigned: self.unassigned.drop_last(),
                available: self.available,
                queued: self.queued.push(self.unassigned.last()),
            }
        } else {
            self
        }
    }

    /// The lists after the read-back of `id` completes: a queued `id` moves to
    /// *available*; otherwise nothing changes.
    pub open spec fn completed(self, id: u64) -> PoolsView {
        if self.queued.contains(id) {
            PoolsView {
                unassigned: self.unassigned,
                available: self.available.push(id),
                queued: self.queued.remove(self.queued.index_of(id)),
            }
        } else {
            self
        }
    }

    /// Whether `x` belongs to the surface, in any state.
    pub open spec fn holds(self, x: u64) -> bool {
        self.unassigned.contains(x) || self.available.contains(x) || self.queued.contains(x)
    }
}

proof fn lemma_drop_last(s: Seq<u64>)
    requires
        s.len() > 0,
        s.no_duplicates(),
    ensures
        s.drop_last().no_duplicates(),
        !s.drop_last().contains(s.last()),
        s.contains(s.last()),
        forall|x: u64| s.drop_last().contains(x) <==> (s.contains(x) && x != s.last()),
{
    let d = s.drop_last();
    assert(s[s.len() - 1] == s.last());
    assert forall|x: u64| d.contains(x) <==> (s.contains(x) && x != s.last()) by {
        if d.contains(x) {
            let i = d.index_of(x);
            assert(s[i] == x);
        }
        if s.contains(x) && x != s.last() {
            let i = s.index_of(x);
            assert(d[i] == x);
        }
    }
}

proof fn lemma_push(s: Seq<u64>, y: u64)
    requires
        s.no_duplicates(),
        !s.contains(y),
    ensures
        s.push(y).no_duplicates(),
        forall|x: u64| s.push(y).contains(x) <==> (s.contains(x) || x == y),
{
    let t = s.push(y);
    assert forall|x: u64| t.contains(x) <==> (s.contains(x) || x == y) by {
        if t.contains(x) {
            let i = t.index_of(x);
            if i < s.len() {
                assert(s[i] == x);
            }
        }
        if s.contains(x) {
            let i = s.index_of(x);
            assert(t[i] == x);
        }
        if x == y {
            assert(t[s.len() as int] == x);
        }
    }
    assert forall|i: int, j: int| 0 <= i < t.len() && 0 <= j < t.len() && i != j implies t[i] != t[j] by {
        if i < s.len() && j < s.len() {
        } else if i < s.len() {
            assert(s.contains(t[i]));
        } else {
            assert(s.contains(t[j]));
        }
    }
}

proof fn lemma_remove(s: Seq<u64>, k: int)
    requires
        0 <= k < s.len(),
        s.no_duplicates(),
    ensures
        s.remove(k).no_duplicates(),
        forall|x: u64| s.remove(k).contains(x) <==> (s.contains(x) && x != s[k]),
{
    let d = s.remove(k);
    assert forall|x: u64| d.contains(x) <==> (s.contains(x) && x != s[k]) by {
        if d.contains(x) {
            let i = d.index_of(x);
            if i < k {
                assert(s[i] == x);
            } else {
                assert(s[i + 1] == x);
            }
        }
        if s.contains(x) && x != s[k] {
            let i = s.index_of(x);
            if i < k {
                assert(d[i] == x);
            } else {
                assert(d[i - 1] == x);
            }
        }
    }
    assert forall|i: int, j: int| 0 <= i < d.len() && 0 <= j < d.len() && i != j implies d[i] != d[j] by {
        let si = if i < k { i } else { i + 1 };
        let sj = if j < k { j } else { j + 1 };
        assert(d[i] == s[si] && d[j] == s[sj]);
    }
}

/// What `acquire` found for the next frame.
#[derive(Clone, Copy, Debug, PartialEq, Eq, Structural)]
pub enum Acquired {
    /// A buffer that already exists in the backend.
    Reused(u64),
    /// A reserved identifier: the backend buffer has to be created now.
    Fresh(u64),
    /// Every buffer is in flight: the frame is dropped.
    Exhausted,
}

/// What tearing a surface down asks of the backend and of the identifier allocator.
#[derive(Debug)]
pub struct PoolRelease {
    /// Buffers with a mapping in flight: unmap, then destroy.
    pub unmap_and_destroy: Vec<u64>,
    /// Idle buffers: destroy.
    pub destroy: Vec<u64>,
    /// Identifiers never created in the backend: hand back for reuse.
    pub recycle: Vec<u64>,
}

pub struct BufferPools {
    unassigned: ArrayVec<u64, PRESENTATION_BUFFER_COUNT>,
    available: ArrayVec<u64, PRESENTATION_BUFFER_COUNT>,
    queued: ArrayVec<u64, PRESENTATION_BUFFER_COUNT>,
}

impl View for BufferPools {
    type V = PoolsView;

    closed spec fn view(&self) -> PoolsView {
        PoolsView {
            unassigned: staged_ids(self.unassigned),
            available: staged_ids(self.available),
            queued: staged_ids(self.queued),
        }
    }
}

/// A present keeps the lists well formed, and the buffer it takes is queued and
/// in no other list.
pub proof fn lemma_acquired_wf(p: PoolsView)
    requires
        p.wf(),
    ensures
        p.acquired().wf(),
        p.available.len() > 0 || p.unassigned.len() > 0 ==> {
            let a = p.acquired();
            &&& a.queued.contains(p.next_buffer())
            &&& !a.available.contains(p.next_buffer())
            &&& !a.unassigned.contains(p.next_buffer())
        },
{
    let a = p.acquired();
    if p.available.len() > 0 {
        let id = p.available.last();
        lemma_drop_last(p.available);
        lemma_push(p.queued, id);
        assert(a.queued[a.queued.len() - 1] == id);
        assert(!p.unassigned.contains(id));
        assert forall|x: u64| a.available.contains(x) implies !a.queued.contains(x) by {
            assert(p.available.contains(x));
        }
        assert forall|x: u64| a.unassigned.contains(x) implies !a.queued.contains(x)
            && !a.available.contains(x) by {
            assert(!p.queued.contains(x));
        }
    } else if p.unassigned.len() > 0 {
        let id = p.unassigned.last();
        lemma_drop_last(p.unassigned);
        lemma_push(p.queued, id);
        assert(a.queued[a.queued.len() - 1] == id);
        assert(!p.available.contains(id));
        assert forall|x: u64| a.unassigned.contains(x) implies !a.queued.contains(x) by {
            assert(p.unassigned.contains(x));
        }
        assert forall|x: u64| a.available.contains(x) implies !a.queued.contains(x)
            && !a.unassigned.contains(x) by {
            assert(!p.queued.contains(x));
        }
    }
}

/// A completion keeps the lists well formed.
pub proof fn lemma_completed_wf(p: PoolsView, id: u64)
    requires
        p.wf(),
    ensures
        p.completed(id).wf(),
{
    if p.queued.contains(id) {
        let k = p.queued.index_of(id);
        assert(p.queued[k] == id);
        lemma_remove(p.queued, k);
        lemma_push(p.available, id);
        let c = p.completed(id);
        assert forall|x: u64| c.available.contains(x) implies !c.queued.contains(x) by {
            assert(p.available.contains(x) || x == id);
        }
        assert forall|x: u64| c.unassigned.contains(x) implies !c.queued.contains(x)
            && !c.available.contains(x) by {
            assert(p.unassigned.contains(x));
        }
    }
}

/// The position of `x` in `s`, if it occurs there.
fn position_of(s: &[u64], x: u64) -> (r: Option<usize>)
    ensures
        match r {
            Some(i) => i < s@.len() && s@[i as int] == x,
            None => !s@.contains(x),
        },
{
    let mut i: usize = 0;
    while i < s.len()
        invariant
            i <= s@.len(),
            forall|k: int| 0 <= k < i ==> s@[k] != x,
        decreases s@.len() - i,
    {
        if s[i] == x {
            return Some(i);
        }
        i = i + 1;
    }
    None
}

fn to_vec(s: &[u64]) -> (r: Vec<u64>)
    ensures
        r@ == s@,
{
    let mut v: Vec<u64> = Vec::new();
    let mut i: usize = 0;
    while i < s.len()
        invariant
            i <= s@.len(),
            v@ == s@.subrange(0, i as int),
        decreases s@.len() - i,
    {
        v.push(s[i]);
        i = i + 1;
    }
    assert(s@.subrange(0, s@.len() as int) == s@);
    v
}

impl BufferPools {
    /// A surface's pools: every reserved identifier starts out unassigned.
    /// Refused when there are more identifiers than the pool's capacity, or a repeated one.
    pub fn new(buffer_ids: &Vec<u64>) -> (r: Option<BufferPools>)
        ensures
            r.is_some() <==> buffer_ids@.len() <= PRESENTATION_BUFFER_COUNT
                && buffer_ids@.no_duplicates(),
            r matches Some(p) ==> p@.wf() && p@.unassigned == buffer_ids@
                && p@.available.len() == 0 && p@.queued.len() == 0,
    {
        if buffer_ids.len() > PRESENTATION_BUFFER_COUNT {
            return None;
        }
        let mut unassigned = ids_new();
        let mut i: usize = 0;
        while i < buffer_ids.len()
            invariant
                i <= buffer_ids@.len() <= PRESENTATION_BUFFER_COUNT,
                staged_ids(unassigned) == buffer_ids@.subrange(0, i as int),
                staged_ids(unassigned).no_duplicates(),
            decreases buffer_ids@.len() - i,
        {
            let id = buffer_ids[i];
            if position_of(ids_slice(&unassigned), id).is_some() {
                assert(!buffer_ids@.no_duplicates()) by {
                    let k = staged_ids(unassigned).index_of(id);
                    assert(buffer_ids@[k] == id && buffer_ids@[i as int] == id);
                }
                return None;
            }
            proof { lemma_push(staged_ids(unassigned), id); }
            ids_push(&mut unassigned, id);
            assert(buffer_ids@.subrange(0, i + 1) == buffer_ids@.subrange(0, i as int).push(id));
            i = i + 1;
        }
        assert(buffer_ids@.subrange(0, buffer_ids@.len() as int) == buffer_ids@);
        let p = BufferPools { unassigned, available: ids_new(), queued: ids_new() };
        Some(p)
    }

    /// Picks the staging buffer for the next frame and marks it queued: an available
    /// one first, else a reserved one, which the caller must create in the backend.
    pub fn acquire(&mut self) -> (r: Acquired)
        requires
            old(self)@.wf(),
        ensures
            final(self)@.wf(),
            old(self)@.available.len() > 0 ==> r == Acquired::Reused(old(self)@.available.last())
                && final(self)@ == (PoolsView {
                    unassigned: old(self)@.unassigned,
                    available: old(self)@.available.drop_last(),
                    queued: old(self)@.queued.push(old(self)@.available.last()),
                }),
            old(self)@.available.len() == 0 && old(self)@.unassigned.len() > 0
                ==> r == Acquired::Fresh(old(self)@.unassigned.last())
                && final(self)@ == (PoolsView {
                    unassigned: old(self)@.unassigned.drop_last(),
                    available: old(self)@.available,
                    queued: old(self)@.queued.push(old(self)@.unassigned.last()),
                }),
            old(self)@.available.len() == 0 && old(self)@.unassigned.len() == 0
                ==> r == Acquired::Exhausted && final(self)@ == old(self)@,
            final(self)@ == old(self)@.acquired(),
            forall|id: u64| (r == Acquired::Reused(id) || r == Acquired::Fresh(id))
                ==> final(self)@.queued.contains(id) && !final(self)@.available.contains(id)
                && !final(self)@.unassigned.contains(id),
    {
        let ghost p = self@;
        proof { lemma_acquired_wf(p); }
        let r = match ids_pop(&mut self.available) {
            Some(id) => {
                ids_push(&mut self.queued, id);
                Acquired::Reused(id)
            },
            None => match ids_pop(&mut self.unassigned) {
                Some(id) => {
                    ids_push(&mut self.queued, id);
                    Acquired::Fresh(id)
                },
                None => Acquired::Exhausted,
            },
        };
        assert(self@ == p.acquired());
        r
    }

    /// A frame's read-back finished: its buffer leaves *queued* for *available*.
    /// An identifier that is not queued changes nothing, and `false` is returned.
    pub fn complete(&mut self, id: u64) -> (r: bool)
        requires
            old(self)@.wf(),
        ensures
            final(self)@.wf(),
            r == old(self)@.queued.contains(id),
            r ==> final(self)@ == (PoolsView {
                unassigned: old(self)@.unassigned,
                available: old(self)@.available.push(id),
                queued: old(self)@.queued.remove(old(self)@.queued.index_of(id)),
            }),
            !r ==> final(self)@ == old(self)@,
            final(self)@ == old(self)@.completed(id),
    {
        let ghost p = self@;
        proof { lemma_completed_wf(p, id); }
        match position_of(ids_slice(&self.queued), id) {
            None => false,
            Some(k) => {
                proof {
                    assert(p.queued.contains(id));
                    assert(p.queued[p.queued.index_of(id)] == id);
                    assert(p.queued.index_of(id) == k);
                }
                ids_remove(&mut self.queued, k);
                ids_push(&mut self.available, id);
                true
            },
        }
    }

    /// Tears the surface's pools down: what is queued is unmapped and destroyed, what
    /// is available is destroyed, and what was never created is handed back.
    pub fn release(self) -> (r: PoolRelease)
        ensures
            r.unmap_and_destroy@ == self@.queued,
            r.destroy@ == self@.available,
            r.recycle@ == self@.unassigned,
    {
        PoolRelease {
            unmap_and_destroy: to_vec(ids_slice(&self.queued)),
            destroy: to_vec(ids_slice(&self.available)),
            recycle: to_vec(ids_slice(&self.unassigned)),
        }
    }

    /// The number of identifiers the surface holds in all three states.
    pub fn in_use(&self) -> (r: usize)
        requires
            self@.wf(),
        ensures
            r == self@.total(),
    {
        ids_len(&self.unassigned) + ids_len(&self.available) + ids_len(&self.queued)
    }
}

} // verus!
