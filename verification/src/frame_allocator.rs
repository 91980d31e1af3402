//! Stack-discipline allocator for physical frames.
//!
//! The allocator hands out frame indices from a half-open range and keeps a
//! LIFO freelist of released indices. A [`FrameTracker`] is the ownership
//! handle over one allocated frame: it carries the frame's page contents,
//! zero-filled at creation, and releasing it consumes the handle, so a frame
//! can be returned at most once per allocation.

use vstd::prelude::*;

verus! {

use crate::config::PAGE_SIZE;
use vstd::pervasive::VecAdditionalExecFns;

/// Why a release was refused: the index was never handed out, or it is
/// already sitting in the freelist.
#[derive(Clone, Copy, Debug, PartialEq, Eq, Structural)]
pub enum FrameError {
    NotAllocated,
    DoubleFree,
}

/// Mathematical model of the allocator state: the next never-yet-used
/// index, the exclusive upper bound of the managed range, and the freelist
/// of released indices, most recently released last.
pub struct FrameAllocatorModel {
    pub current: usize,
    pub end: usize,
    pub recycled: Seq<usize>,
}

impl FrameAllocatorModel {
    /// Structural invariant: the range is ordered and every recycled index
    /// was handed out before and appears at most once.
    pub open spec fn wf(self) -> bool {
        &&& self.current <= self.end
        &&& forall|i: int|
            0 <= i < self.recycled.len() ==> (#[trigger] self.recycled[i]) < self.current
        &&& forall|i: int, j: int|
            0 <= i < j < self.recycled.len() ==> self.recycled[i] != self.recycled[j]
    }

    /// A frame index is live when it has been handed out and not released:
    /// it lies below `current` and is absent from the freelist.
    pub open spec fn is_live(self, ppn: int) -> bool {
        &&& 0 <= ppn < self.current
        &&& !self.recycled.contains(ppn as usize)
    }

    /// The set of live frame indices.
    pub open spec fn live_set(self) -> Set<int> {
        Set::new(|ppn: int| self.is_live(ppn))
    }

    /// The index the next allocation will return, if any: the most recently
    /// released index first, else the next never-yet-used one.
    pub open spec fn alloc_result(self) -> Option<usize> {
        if self.recycled.len() > 0 {
            Some(self.recycled.last())
        } else if self.current < self.end {
            Some(self.current)
        } else {
            None
        }
    }

    /// The state after one allocation.
    pub open spec fn apply_alloc(self) -> FrameAllocatorModel {
        if self.recycled.len() > 0 {
            FrameAllocatorModel { recycled: self.recycled.drop_last(), ..self }
        } else if self.current < self.end {
            FrameAllocatorModel { current: (self.current + 1) as usize, ..self }
        } else {
            self
        }
    }

    /// The state after `k` successive allocations.
    pub open spec fn apply_allocs(self, k: nat) -> FrameAllocatorModel
        decreases k,
    {
        if k == 0 {
            self
        } else {
            self.apply_allocs((k - 1) as nat).apply_alloc()
        }
    }

    /// Whether releasing `ppn` is legal: it was handed out at some point and
    /// is not already in the freelist.
    pub open spec fn dealloc_ok(self, ppn: usize) -> bool {
        ppn < self.current && !self.recycled.contains(ppn)
    }

    /// The state after a legal release of `ppn`.
    pub open spec fn apply_dealloc(self, ppn: usize) -> FrameAllocatorModel {
        FrameAllocatorModel { recycled: self.recycled.push(ppn), ..self }
    }
}


/// Removing the last element of a duplicate-free sequence removes exactly
/// that value from its membership.
proof fn lemma_pop_contains(s: Seq<usize>, x: usize)
    requires
        s.len() > 0,
        forall|i: int, j: int| 0 <= i < j < s.len() ==> s[i] != s[j],
    ensures
        s.drop_last().contains(x) <==> (s.contains(x) && x != s.last()),
{
    if s.drop_last().contains(x) {
        let i = choose|i: int| 0 <= i < s.drop_last().len() && s.drop_last()[i] == x;
        assert(s[i] == x);
        assert(s[i] != s[s.len() - 1]);
    }
    if s.contains(x) && x != s.last() {
        let i = choose|i: int| 0 <= i < s.len() && s[i] == x;
        assert(i != s.len() - 1);
        assert(s.drop_last()[i] == x);
    }
}

/// Appending an element to a sequence adds exactly that value to its
/// membership.
proof fn lemma_push_contains(s: Seq<usize>, v: usize, x: usize)
    ensures
        s.push(v).contains(x) <==> (s.contains(x) || x == v),
{
    if s.push(v).contains(x) {
        let i = choose|i: int| 0 <= i < s.push(v).len() && s.push(v)[i] == x;
        if i < s.len() {
            assert(s[i] == x);
        }
    }
    if s.contains(x) {
        let i = choose|i: int| 0 <= i < s.len() && s[i] == x;
        assert(s.push(v)[i] == x);
    }
    assert(s.push(v)[s.len() as int] == v);
}

/// The structural invariant puts every freelist entry below `current`, so
/// `current` itself is never in the freelist.
proof fn lemma_current_not_recycled(m: FrameAllocatorModel)
    requires
        m.wf(),
    ensures
        !m.recycled.contains(m.current),
{
    if m.recycled.contains(m.current) {
        let i = choose|i: int| 0 <= i < m.recycled.len() && m.recycled[i] == m.current;
        assert(m.recycled[i] < m.current);
    }
}

/// Bookkeeping state of the frame pool; its view is a
/// [`FrameAllocatorModel`].
pub struct StackFrameAllocator {
    pub current: usize,
    pub end: usize,
    pub recycled: Vec<usize>,
}

impl View for StackFrameAllocator {
    type V = FrameAllocatorModel;

    open spec fn view(&self) -> FrameAllocatorModel {
        FrameAllocatorModel { current: self.current, end: self.end, recycled: self.recycled@ }
    }
}

impl StackFrameAllocator {
    /// Structural invariant, inherited from the model.
    pub open spec fn wf(self) -> bool {
        self@.wf()
    }

    /// An empty allocator; the managed range is supplied later by `init`.
    pub fn new() -> (r: Self)
        ensures
            r.wf(),
            r@.current == 0,
            r@.end == 0,
            r@.recycled.len() == 0,
    {
        StackFrameAllocator { current: 0, end: 0, recycled: Vec::new() }
    }

    /// Sets the managed range to `[l, r)`, in frame-index units. To be called
    /// exactly once, on a fresh allocator, before any allocation.
    pub fn init(&mut self, l: usize, r: usize)
        requires
            old(self)@.current == 0,
            old(self)@.end == 0,
            old(self)@.recycled.len() == 0,
            l <= r,
        ensures
            final(self).wf(),
            final(self)@.current == l,
            final(self)@.end == r,
            final(self)@.recycled.len() == 0,
    {
        self.current = l;
        self.end = r;
    }

    /// Hands out a free frame index, or `None` when the pool is exhausted.
    /// A released index is reused, most recently released first, before the
    /// never-yet-used part of the range is touched; the returned index is
    /// never one that is currently live.
    pub fn allocate(&mut self) -> (r: Option<usize>)
        requires
            old(self).wf(),
        ensures
            final(self).wf(),
            r == old(self)@.alloc_result(),
            final(self)@ == old(self)@.apply_alloc(),
            r is Some ==> !old(self)@.is_live(r->Some_0 as int) && final(self)@.is_live(
                r->Some_0 as int,
            ),
            forall|p: int|
                final(self)@.is_live(p) <==> (old(self)@.is_live(p) || (r is Some && p
                    == r->Some_0 as int)),
    {
        let ghost pre = self@;
        if let Some(ppn) = self.recycled.pop() {
            proof {
                assert(self@ == pre.apply_alloc());
                assert forall|p: int|
                    self@.is_live(p) <==> (pre.is_live(p) || p == ppn as int) by {
                    if 0 <= p < pre.current {
                        lemma_pop_contains(pre.recycled, p as usize);
                    }
                }
            }
            Some(ppn)
        } else if self.current == self.end {
            None
        } else {
            let ppn = self.current;
            self.current = self.current + 1;
            proof {
                lemma_current_not_recycled(pre);
            }
            Some(ppn)
        }
    }

    /// True when `ppn` is in the freelist.
    fn recycled_contains(&self, ppn: usize) -> (b: bool)
        ensures
            b == self@.recycled.contains(ppn),
    {
        let mut i: usize = 0;
        while i < self.recycled.len()
            invariant
                i <= self@.recycled.len(),
                forall|k: int| 0 <= k < i ==> self@.recycled[k] != ppn,
            decreases self@.recycled.len() - i,
        {
            if self.recycled[i] == ppn {
                return true;
            }
            i = i + 1;
        }
        false
    }

    /// Returns `ppn` to the pool. An index that was never handed out, or
    /// that is already in the freelist, is refused with the matching error
    /// and the state is left untouched; the caller treats such a refusal as
    /// fatal, since it signals a broken ownership invariant elsewhere.
    pub fn dealloc(&mut self, ppn: usize) -> (r: Result<(), FrameError>)
        requires
            old(self).wf(),
        ensures
            final(self).wf(),
            r is Ok <==> old(self)@.dealloc_ok(ppn),
            r == Err::<(), FrameError>(FrameError::NotAllocated) <==> ppn >= old(self)@.current,
            r == Err::<(), FrameError>(FrameError::DoubleFree) <==> (ppn < old(self)@.current
                && old(self)@.recycled.contains(ppn)),
            r is Ok ==> final(self)@ == old(self)@.apply_dealloc(ppn),
            r is Err ==> *final(self) == *old(self),
            forall|p: int|
                final(self)@.is_live(p) <==> (old(self)@.is_live(p) && !(r is Ok && p == ppn
                    as int)),
    {
        if ppn >= self.current {
            return Err(FrameError::NotAllocated);
        }
        if self.recycled_contains(ppn) {
            return Err(FrameError::DoubleFree);
        }
        self.recycled.push(ppn);
        proof {
            assert forall|p: int|
                self@.is_live(p) <==> (old(self)@.is_live(p) && p != ppn as int) by {
                if 0 <= p < old(self)@.current {
                    lemma_push_contains(old(self)@.recycled, ppn, p as usize);
                }
            }
        }
        Ok(())
    }
}

/// Law: the live set is free of double allocation. An allocation that
/// succeeds returns a frame that was not live, makes exactly that frame
/// live, and leaves every other frame's liveness unchanged; so an index is
/// never handed out while a holder of it is outstanding.
pub proof fn lemma_alloc_fresh(m: FrameAllocatorModel)
    requires
        m.wf(),
        m.alloc_result() is Some,
    ensures
        !m.is_live(m.alloc_result()->Some_0 as int),
        m.apply_alloc().is_live(m.alloc_result()->Some_0 as int),
        m.apply_alloc().live_set() =~= m.live_set().insert(m.alloc_result()->Some_0 as int),
        m.apply_alloc().wf(),
{
    let p = m.alloc_result()->Some_0;
    if m.recycled.len() > 0 {
        assert forall|q: int|
            m.apply_alloc().is_live(q) <==> (m.is_live(q) || q == p as int) by {
            if 0 <= q < m.current {
                lemma_pop_contains(m.recycled, q as usize);
            }
        }
    } else {
        lemma_current_not_recycled(m);
    }
    assert(m.apply_alloc().live_set() =~= m.live_set().insert(p as int));
}

/// Law: releasing a live frame removes exactly that frame from the live
/// set.
pub proof fn lemma_dealloc_removes(m: FrameAllocatorModel, ppn: usize)
    requires
        m.wf(),
        m.dealloc_ok(ppn),
    ensures
        m.apply_dealloc(ppn).live_set() =~= m.live_set().remove(ppn as int),
        m.apply_dealloc(ppn).wf(),
{
    let m2 = m.apply_dealloc(ppn);
    assert forall|q: int| m2.is_live(q) <==> (m.is_live(q) && q != ppn as int) by {
        if 0 <= q < m.current {
            lemma_push_contains(m.recycled, ppn, q as usize);
        }
    }
    assert forall|i: int, j: int|
        0 <= i < j < m2.recycled.len() implies m2.recycled[i] != m2.recycled[j] by {
        if j == m.recycled.len() && m2.recycled[i] == ppn {
            assert(m.recycled[i] == ppn);
            assert(m.recycled.contains(ppn));
        }
    }
    assert(m2.live_set() =~= m.live_set().remove(ppn as int));
}

/// Law: a release followed by an allocation is a round trip — the next
/// allocation returns exactly the frame just released and restores the
/// bookkeeping state, field for field.
pub proof fn lemma_dealloc_alloc_round_trip(m: FrameAllocatorModel, ppn: usize)
    requires
        m.wf(),
        m.dealloc_ok(ppn),
    ensures
        m.apply_dealloc(ppn).alloc_result() == Some(ppn),
        m.apply_dealloc(ppn).apply_alloc().current == m.current,
        m.apply_dealloc(ppn).apply_alloc().end == m.end,
        m.apply_dealloc(ppn).apply_alloc().recycled =~= m.recycled,
{
    assert(m.apply_dealloc(ppn).recycled.drop_last() =~= m.recycled);
}

/// Law: reuse is LIFO. As long as the freelist is not exhausted, the
/// `k`-th next allocation returns the `k`-th most recently released index,
/// `current` never advances, and the freelist only shrinks from its top.
#[verifier::rlimit(30)]
pub proof fn lemma_lifo_reuse(m: FrameAllocatorModel, k: int)
    requires
        m.wf(),
        0 <= k < m.recycled.len(),
    ensures
        m.apply_allocs(k as nat).alloc_result() == Some(m.recycled[m.recycled.len() - 1 - k]),
        m.apply_allocs(k as nat).current == m.current,
        m.apply_allocs(k as nat).recycled =~= m.recycled.subrange(0, m.recycled.len() - k),
    decreases k,
{
    if k == 0 {
        assert(m.apply_allocs(0) == m);
        assert(m.recycled.subrange(0, m.recycled.len() as int) =~= m.recycled);
    } else {
        lemma_lifo_reuse(m, k - 1);
        let s = m.apply_allocs((k - 1) as nat);
        assert(s.recycled.len() == m.recycled.len() - (k - 1));
        assert(s.recycled.len() > 0);
        assert(m.apply_allocs(k as nat) == s.apply_alloc());
        assert(s.apply_alloc().recycled =~= m.recycled.subrange(0, m.recycled.len() - k));
    }
}

/// Ownership handle over one allocated physical frame. It carries the
/// frame's page contents, zero-filled at creation; releasing the frame
/// consumes the handle, so a frame is returned at most once per
/// allocation.
pub struct FrameTracker {
    pub ppn: usize,
    pub page: Vec<u8>,
}

impl FrameTracker {
    /// The handle covers exactly one page worth of bytes.
    pub open spec fn wf(self) -> bool {
        self.page@.len() == PAGE_SIZE
    }

    /// Every byte of the page is zero.
    pub open spec fn zeroed(self) -> bool {
        forall|i: int| 0 <= i < self.page@.len() ==> self.page@[i] == 0u8
    }

    /// Takes ownership of frame `ppn` together with the page's previous
    /// contents and zero-fills them, so the holder sees clean state no
    /// matter what garbage occupied the frame before.
    pub fn new(ppn: usize, page: Vec<u8>) -> (r: Self)
        requires
            page@.len() == PAGE_SIZE,
        ensures
            r.ppn == ppn,
            r.wf(),
            r.zeroed(),
    {
        let mut page = page;
        let mut i: usize = 0;
        while i < page.len()
            invariant
                page@.len() == PAGE_SIZE,
                i <= PAGE_SIZE,
                forall|k: int| 0 <= k < i ==> page@[k] == 0u8,
            decreases PAGE_SIZE - i,
        {
            page.set(i, 0);
            i = i + 1;
        }
        FrameTracker { ppn, page }
    }
}

/// Allocates a frame and wraps it in an ownership handle over a
/// zero-filled page, or returns `None` when the pool is exhausted.
pub fn frame_alloc(fa: &mut StackFrameAllocator) -> (r: Option<FrameTracker>)
    requires
        old(fa).wf(),
    ensures
        final(fa).wf(),
        final(fa)@ == old(fa)@.apply_alloc(),
        r is Some <==> old(fa)@.alloc_result() is Some,
        r is Some ==> {
            &&& r->Some_0.ppn == old(fa)@.alloc_result()->Some_0
            &&& r->Some_0.wf()
            &&& r->Some_0.zeroed()
            &&& !old(fa)@.is_live(r->Some_0.ppn as int)
            &&& final(fa)@.is_live(r->Some_0.ppn as int)
        },
{
    match fa.allocate() {
        Some(ppn) => {
            let mut page: Vec<u8> = Vec::new();
            while page.len() < PAGE_SIZE
                invariant
                    page@.len() <= PAGE_SIZE,
                decreases PAGE_SIZE - page@.len(),
            {
                page.push(0);
            }
            Some(FrameTracker::new(ppn, page))
        },
        None => None,
    }
}

/// Releases the frame owned by `tracker`, consuming the handle. A refusal
/// reports the same fatal conditions as `StackFrameAllocator::dealloc`
/// and leaves the pool untouched.
pub fn frame_dealloc(fa: &mut StackFrameAllocator, tracker: FrameTracker) -> (r: Result<
    (),
    FrameError,
>)
    requires
        old(fa).wf(),
    ensures
        final(fa).wf(),
        r is Ok <==> old(fa)@.dealloc_ok(tracker.ppn),
        r is Ok ==> final(fa)@ == old(fa)@.apply_dealloc(tracker.ppn),
        r is Err ==> *final(fa) == *old(fa),
        r == Err::<(), FrameError>(FrameError::NotAllocated) <==> tracker.ppn >= old(fa)@.current,
        r == Err::<(), FrameError>(FrameError::DoubleFree) <==> (tracker.ppn < old(fa)@.current
            && old(fa)@.recycled.contains(tracker.ppn)),
{
    fa.dealloc(tracker.ppn)
}

/// First whole frame index at or above `addr`.
pub open spec fn ppn_ceil(addr: usize) -> usize {
    (((addr + (PAGE_SIZE - 1)) as usize) / (PAGE_SIZE as usize)) as usize
}

/// Frame index of the page containing `addr`.
pub open spec fn ppn_floor(addr: usize) -> usize {
    (addr / (PAGE_SIZE as usize)) as usize
}

/// Builds the frame allocator over the physical range left above the
/// kernel's own footprint: from the first whole frame at or above
/// `kernel_end` up to the last frame boundary below `memory_end`.
pub fn init_frame_allocator(kernel_end: usize, memory_end: usize) -> (fa: StackFrameAllocator)
    requires
        kernel_end <= usize::MAX - (PAGE_SIZE - 1),
        ppn_ceil(kernel_end) <= ppn_floor(memory_end),
    ensures
        fa.wf(),
        fa@.current == ppn_ceil(kernel_end),
        fa@.end == ppn_floor(memory_end),
        fa@.recycled.len() == 0,
{
    let l = (kernel_end + (PAGE_SIZE - 1)) / PAGE_SIZE;
    let r = memory_end / PAGE_SIZE;
    let mut fa = StackFrameAllocator::new();
    fa.init(l, r);
    fa
}

/// Exercises the allocator end to end: five frames are handed out, all
/// five released, and five more handed out again; reuse is LIFO and every
/// release of a handed-out frame is accepted.
pub fn frame_allocator_test() {
    let mut fa = StackFrameAllocator::new();
    fa.init(0, 100);
    let t0 = frame_alloc(&mut fa).unwrap();
    let t1 = frame_alloc(&mut fa).unwrap();
    let t2 = frame_alloc(&mut fa).unwrap();
    let t3 = frame_alloc(&mut fa).unwrap();
    let t4 = frame_alloc(&mut fa).unwrap();
    assert(t0.ppn == 0 && t1.ppn == 1 && t2.ppn == 2 && t3.ppn == 3 && t4.ppn == 4);
    let r0 = frame_dealloc(&mut fa, t0);
    let r1 = frame_dealloc(&mut fa, t1);
    let r2 = frame_dealloc(&mut fa, t2);
    let r3 = frame_dealloc(&mut fa, t3);
    let r4 = frame_dealloc(&mut fa, t4);
    assert(r0 is Ok && r1 is Ok && r2 is Ok && r3 is Ok && r4 is Ok);
    let u0 = frame_alloc(&mut fa).unwrap();
    let u1 = frame_alloc(&mut fa).unwrap();
    let u2 = frame_alloc(&mut fa).unwrap();
    let u3 = frame_alloc(&mut fa).unwrap();
    let u4 = frame_alloc(&mut fa).unwrap();
    assert(u0.ppn == 4 && u1.ppn == 3 && u2.ppn == 2 && u3.ppn == 1 && u4.ppn == 0);
    assert(fa@.current == 5);
}

} // verus!
