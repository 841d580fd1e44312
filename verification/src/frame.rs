//! Physical frame allocation.
use vstd::prelude::*;
use crate::address::{PhysAddr, PhysPageNum, page_ceil, page_floor, lemma_pages_between};
use crate::config::PAGE_SIZE;
use crate::config::MEMORY_END;

verus! {

/// The abstract state of a [`StackFrameAllocator`].
///
/// Frames in `current..end` have never been handed out; `recycled` holds
/// the frames that were handed back, the last one on top. A frame number
/// below `current` that is not in `recycled` counts as allocated.
pub struct FrameAllocatorState {
    pub current: usize,
    pub end: usize,
    pub recycled: Seq<usize>,
}

impl FrameAllocatorState {
    /// Every frame that can be handed out lies in `begin..end`: the
    /// never-used range starts at or above `begin` and ends at `end`, and
    /// every recycled frame is at or above `begin`.
    pub open spec fn within(self, begin: usize, end: usize) -> bool {
        &&& self.wf()
        &&& begin <= self.current
        &&& self.end == end
        &&& forall|i: int| 0 <= i < self.recycled.len() ==> begin <= #[trigger] self.recycled[i]
    }

    /// The invariant that every operation keeps.
    pub open spec fn wf(self) -> bool {
        &&& self.current <= self.end
        &&& self.recycled.no_duplicates()
        &&& forall|i: int| 0 <= i < self.recycled.len() ==> #[trigger] self.recycled[i] < self.current
    }

    /// `ppn` is currently allocated: handed out and not handed back.
    pub open spec fn is_allocated(self, ppn: usize) -> bool {
        ppn < self.current && !self.recycled.contains(ppn)
    }

    /// The set of allocated frames.
    pub open spec fn allocated(self) -> Set<usize> {
        Set::new(|ppn: usize| self.is_allocated(ppn))
    }

    /// `ppn` can be handed out by a later allocation.
    pub open spec fn is_free(self, ppn: usize) -> bool {
        self.recycled.contains(ppn) || (self.current <= ppn < self.end)
    }

    /// How many frames can still be allocated.
    pub open spec fn free_count(self) -> int {
        self.recycled.len() + (self.end - self.current)
    }

    /// The state after `init(begin, end)`.
    pub open spec fn init_next(self, begin: usize, end: usize) -> FrameAllocatorState {
        FrameAllocatorState { current: begin, end, recycled: self.recycled }
    }

    /// The state after an allocation, and the frame it gives.
    ///
    /// The most recently recycled frame is reused first; otherwise the
    /// next never-used frame is taken; with neither, nothing is given.
    pub open spec fn alloc_next(self) -> (FrameAllocatorState, Option<usize>) {
        if self.recycled.len() > 0 {
            (
                FrameAllocatorState { recycled: self.recycled.drop_last(), ..self },
                Some(self.recycled.last()),
            )
        } else if self.current == self.end {
            (self, None)
        } else {
            (FrameAllocatorState { current: (self.current + 1) as usize, ..self }, Some(self.current))
        }
    }

    /// The state after `ppn` is handed back.
    pub open spec fn dealloc_next(self, ppn: usize) -> FrameAllocatorState {
        FrameAllocatorState { recycled: self.recycled.push(ppn), ..self }
    }
}

/// Naive allocator: frames are handed out from a contiguous range in
/// increasing order, and handed-back frames are reused first, last in
/// first out.
pub struct StackFrameAllocator {
    current: usize,
    end: usize,
    recycled: Vec<usize>,
}

impl View for StackFrameAllocator {
    type V = FrameAllocatorState;

    closed spec fn view(&self) -> FrameAllocatorState {
        FrameAllocatorState { current: self.current, end: self.end, recycled: self.recycled@ }
    }
}


/// Below `end`, a frame is either free or allocated, never both.
pub proof fn lemma_free_xor_allocated(s: FrameAllocatorState, ppn: usize)
    requires
        s.wf(),
    ensures
        s.is_free(ppn) ==> !s.is_allocated(ppn),
        ppn < s.end ==> (s.is_free(ppn) || s.is_allocated(ppn)),
        s.is_free(ppn) ==> ppn < s.end,
{
    if s.recycled.contains(ppn) {
        let i = choose|i: int| 0 <= i < s.recycled.len() && s.recycled[i] == ppn;
        assert(s.recycled[i] < s.current);
    }
}

/// An allocation gives a frame that was free and not allocated, makes it
/// allocated, leaves every other frame as it was, and takes one from the
/// free count; it gives nothing exactly when no frame is free.
pub proof fn lemma_alloc_fresh(s: FrameAllocatorState)
    requires
        s.wf(),
    ensures
        s.alloc_next().1 is None <==> s.free_count() == 0,
        s.alloc_next().1 is None ==> s.alloc_next().0 == s,
        s.alloc_next().1 matches Some(p) ==> {
            &&& s.is_free(p)
            &&& !s.is_allocated(p)
            &&& s.alloc_next().0.is_allocated(p)
            &&& !s.alloc_next().0.is_free(p)
            &&& s.alloc_next().0.allocated() == s.allocated().insert(p)
            &&& s.alloc_next().0.free_count() == s.free_count() - 1
        },
        s.alloc_next().0.wf(),
{
    let (n, r) = s.alloc_next();
    if s.recycled.len() > 0 {
        let p = s.recycled.last();
        assert(s.recycled[s.recycled.len() - 1] == p);
        assert(s.recycled.contains(p));
        lemma_free_xor_allocated(s, p);
        assert(s.recycled =~= n.recycled.push(p));
        assert(!n.recycled.contains(p)) by {
            if n.recycled.contains(p) {
                let i = choose|i: int| 0 <= i < n.recycled.len() && n.recycled[i] == p;
                assert(s.recycled[i] == s.recycled[s.recycled.len() - 1]);
            }
        }
        assert forall|q: usize| n.is_allocated(q) == (s.is_allocated(q) || q == p) by {
            if n.recycled.contains(q) {
                let i = choose|i: int| 0 <= i < n.recycled.len() && n.recycled[i] == q;
                assert(s.recycled[i] == q);
            }
            if s.recycled.contains(q) && q != p {
                let i = choose|i: int| 0 <= i < s.recycled.len() && s.recycled[i] == q;
                assert(i != s.recycled.len() - 1);
                assert(n.recycled[i] == q);
            }
        }
        assert(n.allocated() =~= s.allocated().insert(p));
        assert(!n.is_free(p));
    } else if s.current == s.end {
    } else {
        let p = s.current;
        assert(!s.recycled.contains(p));
        assert(n.allocated() =~= s.allocated().insert(p));
    }
}

/// Handing back an allocated frame makes it free and not allocated, leaves
/// every other frame as it was, and adds one to the free count.
pub proof fn lemma_dealloc_frees(s: FrameAllocatorState, ppn: usize)
    requires
        s.wf(),
        s.is_allocated(ppn),
    ensures
        s.dealloc_next(ppn).wf(),
        s.dealloc_next(ppn).is_free(ppn),
        !s.dealloc_next(ppn).is_allocated(ppn),
        s.dealloc_next(ppn).allocated() == s.allocated().remove(ppn),
        s.dealloc_next(ppn).free_count() == s.free_count() + 1,
{
    let n = s.dealloc_next(ppn);
    assert(n.recycled[n.recycled.len() - 1] == ppn);
    assert forall|q: usize| n.recycled.contains(q) == (s.recycled.contains(q) || q == ppn) by {
        if n.recycled.contains(q) && q != ppn {
            let i = choose|i: int| 0 <= i < n.recycled.len() && n.recycled[i] == q;
            assert(s.recycled[i] == q);
        }
        if s.recycled.contains(q) {
            let i = choose|i: int| 0 <= i < s.recycled.len() && s.recycled[i] == q;
            assert(n.recycled[i] == q);
        }
    }
    assert(n.allocated() =~= s.allocated().remove(ppn));
}

/// Handing back a frame and then allocating gives that same frame back and
/// returns the allocator to the state it had before.
pub proof fn lemma_dealloc_then_alloc(s: FrameAllocatorState, ppn: usize)
    requires
        s.wf(),
        s.is_allocated(ppn),
    ensures
        s.dealloc_next(ppn).alloc_next() == (s, Some(ppn)),
{
    assert(s.dealloc_next(ppn).recycled.drop_last() =~= s.recycled);
}

/// Allocating a frame and handing it back leaves the same frames allocated
/// and the same number free as before.
pub proof fn lemma_alloc_then_dealloc(s: FrameAllocatorState)
    requires
        s.wf(),
        s.alloc_next().1 is Some,
    ensures
        s.alloc_next().0.dealloc_next(s.alloc_next().1->0).allocated() == s.allocated(),
        s.alloc_next().0.dealloc_next(s.alloc_next().1->0).free_count() == s.free_count(),
{
    lemma_alloc_fresh(s);
    let (n, r) = s.alloc_next();
    let p = r->0;
    lemma_dealloc_frees(n, p);
    assert(s.allocated().insert(p).remove(p) =~= s.allocated());
}

/// An allocator kept within `frame_range(kernel_end)` (see
/// [`lemma_frames_stay_within`]) hands out, reused or never used, only
/// frames that lie wholly above the kernel image and below [`MEMORY_END`].
pub proof fn lemma_frames_outside_kernel(s: FrameAllocatorState, kernel_end: usize, begin: usize, end: usize)
    requires
        begin == page_ceil(kernel_end as int),
        end == page_floor(MEMORY_END as int),
        s.within(begin, end),
    ensures
        s.alloc_next().1 matches Some(p) ==> {
            &&& kernel_end <= p * PAGE_SIZE
            &&& (p + 1) * PAGE_SIZE <= MEMORY_END
        },
{
    lemma_frames_stay_within(s, begin, end, 0);
    if let Some(p) = s.alloc_next().1 {
        lemma_pages_between(kernel_end as int, MEMORY_END as int, p as int);
    }
}

/// Once an allocator is set up over `begin..end`, as long as only frames at
/// or above `begin` are handed back, every frame it hands out lies in
/// `begin..end`: allocation keeps [`FrameAllocatorState::within`], and so
/// does handing back an allocated frame at or above `begin`.
pub proof fn lemma_frames_stay_within(s: FrameAllocatorState, begin: usize, end: usize, ppn: usize)
    requires
        s.within(begin, end),
    ensures
        s.alloc_next().1 matches Some(p) ==> begin <= p < end,
        s.alloc_next().0.within(begin, end),
        s.is_allocated(ppn) && begin <= ppn ==> s.dealloc_next(ppn).within(begin, end),
{
    lemma_alloc_fresh(s);
    if s.recycled.len() > 0 {
        let p = s.recycled.last();
        assert(s.recycled[s.recycled.len() - 1] == p);
        let n = s.alloc_next().0;
        assert forall|i: int| 0 <= i < n.recycled.len() implies begin <= #[trigger] n.recycled[i] by {
            assert(n.recycled[i] == s.recycled[i]);
        }
    }
    if s.is_allocated(ppn) && begin <= ppn {
        lemma_dealloc_frees(s, ppn);
        let n = s.dealloc_next(ppn);
        assert forall|i: int| 0 <= i < n.recycled.len() implies begin <= #[trigger] n.recycled[i] by {
            if i < s.recycled.len() {
                assert(n.recycled[i] == s.recycled[i]);
            }
        }
    }
}

/// Setting an allocator with no recycled frame to `begin..end` puts it
/// within `begin..end`.
pub proof fn lemma_init_within(s: FrameAllocatorState, begin: usize, end: usize)
    requires
        s.recycled.len() == 0,
        begin <= end,
    ensures
        s.init_next(begin, end).within(begin, end),
{
}

/// Setting the range to `begin..end` makes exactly the frames of
/// `begin..end` never used: every one of them is free and none allocated,
/// the frames below `begin` not recycled count as allocated, and with no
/// recycled frame the allocator then hands out `begin`, `begin + 1`, ...,
/// `end - 1` in turn: `end - begin` frames in all.
pub proof fn lemma_init_range(s: FrameAllocatorState, begin: usize, end: usize)
    requires
        begin <= end,
    ensures
        s.init_next(begin, end).current == begin,
        s.init_next(begin, end).end == end,
        s.init_next(begin, end).recycled == s.recycled,
        forall|p: usize| begin <= p < end ==> #[trigger] s.init_next(begin, end).is_free(p)
            && !s.init_next(begin, end).is_allocated(p),
        forall|p: usize| p < begin && !s.recycled.contains(p) ==> #[trigger] s.init_next(begin, end).is_allocated(p),
        s.init_next(begin, end).free_count() == s.recycled.len() + (end - begin),
        s.recycled.len() == 0 && begin < end ==> s.init_next(begin, end).alloc_next().1 == Some(begin),
        s.recycled.len() == 0 && begin == end ==> s.init_next(begin, end).alloc_next().1 is None,
{
}

/// The state after `k` allocations in a row, and what the last one gave.
pub open spec fn alloc_times(s: FrameAllocatorState, k: nat) -> (FrameAllocatorState, Option<usize>)
    decreases k,
{
    if k == 0 {
        (s, None)
    } else {
        alloc_times(s, (k - 1) as nat).0.alloc_next()
    }
}

/// From a state with no recycled frame, allocation `k` (counting from 1)
/// gives frame `current + k - 1` while `current + k <= end`, and nothing
/// once the `end - current` never-used frames are gone.
pub proof fn lemma_alloc_in_order(s: FrameAllocatorState, k: nat)
    requires
        s.recycled.len() == 0,
        s.current <= s.end,
    ensures
        alloc_times(s, k).0.recycled.len() == 0,
        alloc_times(s, k).0.end == s.end,
        alloc_times(s, k).0.current == if s.current + k <= s.end { s.current + k } else { s.end as int },
        1 <= k && s.current + k <= s.end ==> alloc_times(s, k).1 == Some((s.current + k - 1) as usize),
        s.current + k > s.end ==> alloc_times(s, k).1 is None,
    decreases k,
{
    if k > 0 {
        lemma_alloc_in_order(s, (k - 1) as nat);
    }
}

impl StackFrameAllocator {
    /// An allocator with an empty range and no recycled frames.
    pub fn new() -> (r: Self)
        ensures
            r@ == (FrameAllocatorState { current: 0, end: 0, recycled: Seq::empty() }),
            r@.wf(),
    {
        StackFrameAllocator { current: 0, end: 0, recycled: Vec::new() }
    }

    /// Sets the range of never-used frames to `begin_ppn..end_ppn`.
    /// The recycled frames are kept.
    pub fn init(&mut self, begin_ppn: PhysPageNum, end_ppn: PhysPageNum)
        ensures
            final(self)@ == old(self)@.init_next(begin_ppn.0, end_ppn.0),
            final(self)@.current == begin_ppn.0,
            final(self)@.end == end_ppn.0,
            final(self)@.recycled == old(self)@.recycled,
    {
        self.current = begin_ppn.0;
        self.end = end_ppn.0;
    }

    /// Hands out a frame: the most recently recycled one if there is any,
    /// else the next never-used one, else `None`.
    pub fn alloc_frame(&mut self) -> (r: Option<PhysPageNum>)
        requires
            old(self)@.recycled.len() == 0 && old(self)@.current != old(self)@.end
                ==> old(self)@.current < usize::MAX,
        ensures
            final(self)@ == old(self)@.alloc_next().0,
            r == (match old(self)@.alloc_next().1 {
                Some(p) => Some(PhysPageNum(p)),
                None => None::<PhysPageNum>,
            }),
            old(self)@.wf() ==> final(self)@.wf(),
    {
        proof {
            if self@.wf() {
                lemma_alloc_fresh(self@);
            }
        }
        if let Some(ppn) = self.recycled.pop() {
            Some(PhysPageNum(ppn))
        } else if self.current == self.end {
            None
        } else {
            self.current += 1;
            Some(PhysPageNum(self.current - 1))
        }
    }

    /// Whether the next allocation would take the never-used frame after
    /// which no frame number is left: the one input `alloc_frame` refuses.
    pub fn alloc_overflows(&self) -> (r: bool)
        ensures
            r == (self@.recycled.len() == 0 && self@.current != self@.end && self@.current == usize::MAX),
    {
        self.recycled.len() == 0 && self.current != self.end && self.current == usize::MAX
    }

    /// Whether `ppn` is allocated, that is handed out and not handed back:
    /// the frames that `dealloc` accepts.
    pub fn is_allocated(&self, ppn: PhysPageNum) -> (r: bool)
        ensures
            r == self@.is_allocated(ppn.0),
    {
        if ppn.0 >= self.current {
            return false;
        }
        let mut i: usize = 0;
        while i < self.recycled.len()
            invariant
                i <= self.recycled@.len(),
                forall|j: int| 0 <= j < i ==> self.recycled@[j] != ppn.0,
            decreases self.recycled@.len() - i,
        {
            if self.recycled[i] == ppn.0 {
                return false;
            }
            i += 1;
        }
        true
    }

    /// Hands back an allocated frame, which becomes the next one to be
    /// handed out.
    pub fn dealloc(&mut self, ppn: PhysPageNum)
        requires
            old(self)@.is_allocated(ppn.0),
        ensures
            final(self)@ == old(self)@.dealloc_next(ppn.0),
            old(self)@.wf() ==> final(self)@.wf(),
    {
        proof {
            if self@.wf() {
                lemma_dealloc_frees(self@, ppn.0);
            }
        }
        self.recycled.push(ppn.0);
    }
}

/// The frames that the allocator manages: from the first page boundary at
/// or above the end of the kernel image to the last one at or below
/// [`MEMORY_END`].
pub fn frame_range(kernel_end: usize) -> (r: (PhysPageNum, PhysPageNum))
    ensures
        r.0.0 == page_ceil(kernel_end as int),
        r.1.0 == page_floor(MEMORY_END as int),
{
    let begin_ppn = PhysAddr(kernel_end).ceil();
    let end_ppn = PhysAddr(MEMORY_END).floor();
    (begin_ppn, end_ppn)
}

} // verus!
