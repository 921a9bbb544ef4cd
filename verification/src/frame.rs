//! Virtual pages for IPC buffers: a bump counter over a reserved range, and
//! a stack of pages that were handed back.

use vstd::prelude::*;
use crate::kernel::PAGE_SIZE;

verus! {

/// Mathematical state of a [`VirtFrameAllocator`].
pub struct FrameState {
    /// The lowest page number that was never handed out.
    pub current: usize,
    /// One past the last page number of the reserved range.
    pub end: usize,
    /// The pages that were handed back, the latest last.
    pub recycled: Seq<usize>,
}

impl FrameState {
    /// The counter stays inside the range, and the handed-back pages are
    /// distinct pages below the counter.
    pub open spec fn wf(self) -> bool {
        &&& self.current <= self.end
        &&& self.recycled.no_duplicates()
        &&& forall|i: int| 0 <= i < self.recycled.len() ==> self.recycled[i] < self.current
    }

    /// The pages that can still be handed out.
    pub open spec fn available(self) -> Set<usize> {
        Set::new(|p: usize| self.recycled.contains(p) || self.current <= p < self.end)
    }

    /// No page is left.
    pub open spec fn exhausted(self) -> bool {
        self.current == self.end && self.recycled.len() == 0
    }

    /// Handing out a page: the page handed back last if there is one, else
    /// the next page of the range, else nothing.
    pub open spec fn allocate(self) -> (Self, Option<usize>) {
        if self.recycled.len() > 0 {
            (FrameState { recycled: self.recycled.drop_last(), ..self }, Some(self.recycled.last()))
        } else if self.current < self.end {
            (FrameState { current: (self.current + 1) as usize, ..self }, Some(self.current))
        } else {
            (self, None)
        }
    }

    /// Taking a page back: accepted if the page was handed out at some point
    /// and is not already waiting.
    pub open spec fn dealloc(self, vpn: usize) -> Self {
        if vpn < self.current && !self.recycled.contains(vpn) {
            FrameState { recycled: self.recycled.push(vpn), ..self }
        } else {
            self
        }
    }

    /// The state after `n` pages were requested in a row.
    pub open spec fn after_allocs(self, n: nat) -> Self
        decreases n,
    {
        if n == 0 {
            self
        } else {
            self.after_allocs((n - 1) as nat).allocate().0
        }
    }

    /// What the request number `i` (from zero) of a run of requests returns.
    pub open spec fn nth_alloc(self, i: nat) -> Option<usize> {
        self.after_allocs(i).allocate().1
    }
}

/// Hands out virtual page numbers of the range reserved for IPC buffers.
pub struct VirtFrameAllocator {
    current: usize,
    end: usize,
    recycled: Vec<usize>,
}

impl View for VirtFrameAllocator {
    type V = FrameState;

    closed spec fn view(&self) -> FrameState {
        FrameState { current: self.current, end: self.end, recycled: self.recycled@ }
    }
}

impl VirtFrameAllocator {
    /// An allocator over the pages of `[base, base + size)`.
    pub fn new(base: usize, size: usize) -> (a: Self)
        requires
            base + size <= usize::MAX,
        ensures
            a@.current == base / PAGE_SIZE,
            a@.end == (base + size) / (PAGE_SIZE as int),
            a@.recycled == Seq::<usize>::empty(),
            a@.wf(),
    {
        VirtFrameAllocator {
            current: base / PAGE_SIZE,
            end: (base + size) / PAGE_SIZE,
            recycled: Vec::new(),
        }
    }

    /// Hands out a page, or nothing once the range is used up and no page is
    /// waiting to be reused.
    pub fn allocate(&mut self) -> (vpn: Option<usize>)
        requires
            old(self)@.wf(),
        ensures
            final(self)@.wf(),
            final(self)@ == old(self)@.allocate().0,
            vpn == old(self)@.allocate().1,
            vpn is None <==> old(self)@.exhausted(),
    {
        if self.recycled.len() > 0 {
            let vpn = self.recycled.pop();
            assert(self@.recycled =~= old(self)@.recycled.drop_last());
            vpn
        } else if self.current < self.end {
            let vpn = self.current;
            self.current = self.current + 1;
            Some(vpn)
        } else {
            None
        }
    }

    /// Takes a page back. A page that was never handed out, or that is
    /// already waiting, is ignored.
    pub fn dealloc(&mut self, vpn: usize)
        requires
            old(self)@.wf(),
        ensures
            final(self)@.wf(),
            final(self)@ == old(self)@.dealloc(vpn),
    {
        if vpn < self.current && !self.is_recycled(vpn) {
            self.recycled.push(vpn);
        }
    }

    /// Whether `vpn` is waiting to be reused.
    fn is_recycled(&self, vpn: usize) -> (found: bool)
        ensures
            found == self@.recycled.contains(vpn),
    {
        let mut i: usize = 0;
        while i < self.recycled.len()
            invariant
                i <= self.recycled.len(),
                forall|j: int| 0 <= j < i ==> self.recycled@[j] != vpn,
            decreases self.recycled.len() - i,
        {
            if self.recycled[i] == vpn {
                return true;
            }
            i = i + 1;
        }
        false
    }
}

/// One request keeps the state well formed, hands out a page that was
/// available, and leaves that page unavailable and nothing else newly
/// available.
pub proof fn lemma_allocate_step(s: FrameState)
    requires
        s.wf(),
    ensures
        s.allocate().0.wf(),
        s.allocate().0.available().subset_of(s.available()),
        s.allocate().1 matches Some(p) ==> s.available().contains(p) && !s.allocate().0.available().contains(p),
{
    let t = s.allocate().0;
    if s.recycled.len() > 0 {
        let p = s.recycled.last();
        assert(s.recycled.contains(p));
        assert forall|q: usize| t.recycled.contains(q) implies s.recycled.contains(q) && q != p by {
            let i = choose|i: int| 0 <= i < t.recycled.len() && t.recycled[i] == q;
            assert(s.recycled[i] == q);
        }
        assert(!t.recycled.contains(p));
    } else if s.current < s.end {
        assert(t.recycled =~= s.recycled);
    }
}

/// A page that is handed out lies below the end of the reserved range.
pub proof fn lemma_allocated_page_in_range(s: FrameState)
    requires
        s.wf(),
    ensures
        s.allocate().1 matches Some(p) ==> p < s.end,
{
}

/// A run of requests keeps the state well formed and never makes a page
/// available again.
pub proof fn lemma_allocs_shrink(s: FrameState, m: nat, n: nat)
    requires
        s.wf(),
        m <= n,
    ensures
        s.after_allocs(n).wf(),
        s.after_allocs(n).available().subset_of(s.after_allocs(m).available()),
    decreases n,
{
    if n == 0 {
    } else if m == n {
        lemma_allocs_shrink(s, 0, (n - 1) as nat);
        lemma_allocate_step(s.after_allocs((n - 1) as nat));
    } else {
        lemma_allocs_shrink(s, m, (n - 1) as nat);
        lemma_allocate_step(s.after_allocs((n - 1) as nat));
    }
}

/// Pages handed out by requests in a row, with no page taken back in
/// between, are pairwise distinct.
pub proof fn lemma_allocs_pairwise_distinct(s: FrameState, i: nat, j: nat)
    requires
        s.wf(),
        i < j,
        s.nth_alloc(i) is Some,
        s.nth_alloc(j) is Some,
    ensures
        s.nth_alloc(i) != s.nth_alloc(j),
{
    lemma_allocs_shrink(s, 0, i);
    lemma_allocate_step(s.after_allocs(i));
    lemma_allocs_shrink(s, i + 1, j);
    lemma_allocate_step(s.after_allocs(j));
    assert(s.after_allocs(i + 1) == s.after_allocs(i).allocate().0);
}

/// A page that is taken back is the page that the next request hands out,
/// and that request leaves the state as it was before the page came back.
pub proof fn lemma_dealloc_then_allocate(s: FrameState, vpn: usize)
    requires
        s.wf(),
        vpn < s.current,
        !s.recycled.contains(vpn),
    ensures
        s.dealloc(vpn).wf(),
        s.dealloc(vpn).allocate().1 == Some(vpn),
        s.dealloc(vpn).allocate().0 == s,
{
    let t = s.dealloc(vpn);
    assert(t.recycled.drop_last() =~= s.recycled);
    lemma_dealloc_keeps_wf(s, vpn);
}

/// Taking a page back keeps the state well formed.
pub proof fn lemma_dealloc_keeps_wf(s: FrameState, vpn: usize)
    requires
        s.wf(),
    ensures
        s.dealloc(vpn).wf(),
{
    let t = s.dealloc(vpn);
    if vpn < s.current && !s.recycled.contains(vpn) {
        assert forall|i: int, j: int| 0 <= i < t.recycled.len() && 0 <= j < t.recycled.len() && i != j
            implies t.recycled[i] != t.recycled[j] by {
            if i < s.recycled.len() {
                assert(s.recycled.contains(t.recycled[i]));
            }
            if j < s.recycled.len() {
                assert(s.recycled.contains(t.recycled[j]));
            }
        }
    }
}

/// Once the range is used up and no page waits to be reused, every further
/// request returns nothing and changes nothing.
pub proof fn lemma_exhausted_stays_exhausted(s: FrameState, n: nat)
    requires
        s.exhausted(),
    ensures
        s.after_allocs(n) == s,
        s.nth_alloc(n) is None,
    decreases n,
{
    if n > 0 {
        lemma_exhausted_stays_exhausted(s, (n - 1) as nat);
    }
}

/// A request returns nothing only when no page is available.
pub proof fn lemma_none_only_when_exhausted(s: FrameState)
    requires
        s.wf(),
    ensures
        s.allocate().1 is None <==> s.exhausted(),
        s.exhausted() <==> s.available() =~= Set::<usize>::empty(),
{
    if s.recycled.len() > 0 {
        assert(s.recycled.contains(s.recycled[0]));
        assert(s.available().contains(s.recycled[0]));
    } else if s.current < s.end {
        assert(s.available().contains(s.current));
    }
}

} // verus!
