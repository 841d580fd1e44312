//! Physical addresses and physical page numbers.
use vstd::prelude::*;
use crate::config::PAGE_SIZE;

verus! {

/// A physical address.
#[derive(Clone, Copy, PartialEq, Eq, Structural)]
pub struct PhysAddr(pub usize);

/// A physical page number: the index of a physical frame.
#[derive(Clone, Copy, PartialEq, Eq, Structural)]
pub struct PhysPageNum(pub usize);

/// The number of the page that contains address `a`.
pub open spec fn page_floor(a: int) -> int {
    a / (PAGE_SIZE as int)
}

/// The number of the first page that starts at or above address `a`.
pub open spec fn page_ceil(a: int) -> int {
    if a == 0 { 0 } else { (a - 1) / (PAGE_SIZE as int) + 1 }
}

/// A page range of whole pages: the first page at or above `lo` up to the
/// last page boundary at or below `hi` covers only addresses in `lo..hi`.
pub proof fn lemma_pages_between(lo: int, hi: int, page: int)
    requires
        0 <= lo,
        page_ceil(lo) <= page < page_floor(hi),
    ensures
        lo <= page * PAGE_SIZE,
        (page + 1) * PAGE_SIZE <= hi,
{
    let ps = PAGE_SIZE as int;
    if lo > 0 {
        assert(lo <= ((lo - 1) / ps + 1) * ps) by (nonlinear_arith)
            requires lo > 0, ps == 4096;
        assert(((lo - 1) / ps + 1) * ps <= page * ps) by (nonlinear_arith)
            requires (lo - 1) / ps + 1 <= page, ps == 4096;
    } else {
        assert(0 <= page * ps) by (nonlinear_arith)
            requires 0 <= page, ps == 4096;
    }
    assert((page + 1) * ps <= (hi / ps) * ps) by (nonlinear_arith)
        requires page + 1 <= hi / ps, ps == 4096;
    assert((hi / ps) * ps <= hi) by (nonlinear_arith)
        requires ps == 4096;
}

/// The first page at or above an address is the page that contains it,
/// or the next one when the address is not at a page boundary.
pub proof fn lemma_floor_ceil(a: int)
    requires
        0 <= a,
    ensures
        a % (PAGE_SIZE as int) == 0 ==> page_ceil(a) == page_floor(a),
        a % (PAGE_SIZE as int) != 0 ==> page_ceil(a) == page_floor(a) + 1,
{
    let ps = PAGE_SIZE as int;
    if a > 0 {
        assert(a % ps == 0 ==> (a - 1) / ps + 1 == a / ps) by (nonlinear_arith)
            requires a > 0, ps == 4096;
        assert(a % ps != 0 ==> (a - 1) / ps == a / ps) by (nonlinear_arith)
            requires a > 0, ps == 4096;
    }
}

impl PhysPageNum {
    /// The address at which the frame starts.
    pub fn addr(&self) -> (r: PhysAddr)
        requires
            self.0 * PAGE_SIZE <= usize::MAX,
        ensures
            r.0 == self.0 * PAGE_SIZE,
    {
        PhysAddr(self.0 * PAGE_SIZE)
    }
}

impl PhysAddr {
    /// The page that contains this address.
    pub fn floor(&self) -> (r: PhysPageNum)
        ensures
            r.0 == page_floor(self.0 as int),
            r.0 * PAGE_SIZE <= self.0 < (r.0 + 1) * PAGE_SIZE,
    {
        let r = PhysPageNum(self.0 / PAGE_SIZE);
        assert(r.0 * PAGE_SIZE <= self.0 < (r.0 + 1) * PAGE_SIZE) by (nonlinear_arith)
            requires r.0 == self.0 / 4096usize;
        r
    }

    /// The first page that starts at or above this address.
    pub fn ceil(&self) -> (r: PhysPageNum)
        ensures
            r.0 == page_ceil(self.0 as int),
            self.0 <= r.0 * PAGE_SIZE < self.0 + PAGE_SIZE,
    {
        if self.0 == 0 {
            PhysPageNum(0)
        } else {
            let r = PhysPageNum((self.0 - 1) / PAGE_SIZE + 1);
            assert(self.0 <= r.0 * PAGE_SIZE < self.0 + PAGE_SIZE) by (nonlinear_arith)
                requires r.0 == (self.0 - 1) / 4096int + 1, self.0 > 0;
            r
        }
    }
}

} // verus!
