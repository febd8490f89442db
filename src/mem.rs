//! The memory map: half-open address ranges bound to devices, the latest registration winning.
use vstd::prelude::*;

use crate::{MemAddrT, OpSizeT};

verus! {

/// The width of a memory access.
#[derive(Debug, Clone, Copy, PartialEq, Eq, Structural)]
pub enum OpSize {
    Byte,
    Word,
}

/// What a memory-mapped device offers. A device is described by what its reads return, before
/// and after a write.
pub trait MemOps {
    /// What `read(addr, sz)` returns in this state.
    spec fn read_spec(&self, addr: MemAddrT, sz: OpSize) -> OpSizeT;

    /// What `read(at, at_sz)` returns once `write(addr, data, sz)` has been applied to this state.
    spec fn read_after_write(
        &self,
        addr: MemAddrT,
        data: OpSizeT,
        sz: OpSize,
        at: MemAddrT,
        at_sz: OpSize,
    ) -> OpSizeT;

    fn name(&self) -> String;

    fn read(&self, addr: MemAddrT, sz: OpSize) -> (r: OpSizeT)
        ensures
            r == self.read_spec(addr, sz),
    ;

    fn write(&mut self, addr: MemAddrT, data: OpSizeT, sz: OpSize)
        ensures
            forall|at: MemAddrT, at_sz: OpSize| #[trigger]
                final(self).read_spec(at, at_sz) == old(self).read_after_write(addr, data, sz, at, at_sz),
    ;
}

/// A device bound to the addresses `start <= a < end`.
pub struct MemRegion<M> {
    pub start: MemAddrT,
    pub end: MemAddrT,
    pub dev: M,
}

pub open spec fn holds<M>(r: MemRegion<M>, addr: MemAddrT) -> bool {
    r.start <= addr < r.end
}

/// The index of the region that serves `addr`: the latest registered one whose range holds it.
pub open spec fn owner<M>(regions: Seq<MemRegion<M>>, addr: MemAddrT) -> Option<int>
    decreases regions.len(),
{
    if regions.len() == 0 {
        None
    } else if holds(regions.last(), addr) {
        Some(regions.len() - 1)
    } else {
        owner(regions.drop_last(), addr)
    }
}

/// `owner` picks a region that holds the address, and no later region holds it; it picks none
/// only when no region holds it.
pub proof fn lemma_owner<M>(regions: Seq<MemRegion<M>>, addr: MemAddrT)
    ensures
        owner(regions, addr) matches Some(i) ==> {
            &&& 0 <= i < regions.len()
            &&& holds(regions[i], addr)
            &&& forall|j: int| i < j < regions.len() ==> !holds(#[trigger] regions[j], addr)
        },
        owner(regions, addr) is None ==> forall|j: int|
            0 <= j < regions.len() ==> !holds(#[trigger] regions[j], addr),
    decreases regions.len(),
{
    if regions.len() > 0 && !holds(regions.last(), addr) {
        let rest = regions.drop_last();
        lemma_owner(rest, addr);
        assert forall|j: int| 0 <= j < rest.len() implies rest[j] == regions[j] by {}
    }
}

/// `owner` depends on the ranges alone.
pub proof fn lemma_owner_ranges<M>(a: Seq<MemRegion<M>>, b: Seq<MemRegion<M>>, addr: MemAddrT)
    requires
        a.len() == b.len(),
        forall|i: int| 0 <= i < a.len() ==> a[i].start == b[i].start && a[i].end == b[i].end,
    ensures
        owner(a, addr) == owner(b, addr),
    decreases a.len(),
{
    if a.len() > 0 {
        let (ra, rb) = (a.drop_last(), b.drop_last());
        assert forall|i: int| 0 <= i < ra.len() implies ra[i].start == rb[i].start && ra[i].end
            == rb[i].end by {
            assert(ra[i] == a[i] && rb[i] == b[i]);
        }
        lemma_owner_ranges(ra, rb, addr);
    }
}

/// Of two registered ranges that both hold an address, the later one serves it; a range
/// registered last serves every address it holds; and writes, which keep the ranges, never change
/// which region serves an address.
pub proof fn lemma_latest_registration_wins<M: MemOps>(
    m: MemMap<M>,
    i: int,
    j: int,
    addr: MemAddrT,
    r: MemRegion<M>,
    new: MemMap<M>,
    waddr: MemAddrT,
    data: OpSizeT,
    sz: OpSize,
)
    ensures
        0 <= i < j < m.regions@.len() && holds(m.regions@[i], addr) && holds(m.regions@[j], addr)
            ==> (owner(m.regions@, addr) matches Some(k) && j <= k),
        holds(r, addr) ==> owner(m.regions@.push(r), addr) == Some(m.regions@.len() as int),
        m.write_post(&new, waddr, data, sz) ==> owner(new.regions@, addr) == owner(m.regions@, addr),
{
    lemma_owner(m.regions@, addr);
    if m.write_post(&new, waddr, data, sz) {
        lemma_owner_ranges(new.regions@, m.regions@, addr);
    }
}

/// Resolves each access to one device by address range.
pub struct MemMap<M> {
    pub regions: Vec<MemRegion<M>>,
}

impl<M: MemOps> MemMap<M> {
    /// What `read(addr, sz)` returns: the serving device's read, or `None` where no range holds
    /// the address.
    pub open spec fn read_spec(&self, addr: MemAddrT, sz: OpSize) -> Option<OpSizeT> {
        match owner(self.regions@, addr) {
            None => None,
            Some(i) => Some(self.regions@[i].dev.read_spec(addr, sz)),
        }
    }

    /// `new` is this map after `write(addr, data, sz)`: the ranges stay, the serving device (if
    /// any) took the write, and every other device is untouched.
    pub open spec fn write_post(&self, new: &MemMap<M>, addr: MemAddrT, data: OpSizeT, sz: OpSize) -> bool {
        &&& new.regions@.len() == self.regions@.len()
        &&& forall|i: int|
            0 <= i < self.regions@.len() ==> #[trigger] new.regions@[i].start == self.regions@[i].start
                && new.regions@[i].end == self.regions@[i].end
        &&& match owner(self.regions@, addr) {
            None => new.regions@ == self.regions@,
            Some(i) => {
                &&& forall|j: int|
                    0 <= j < self.regions@.len() && j != i ==> #[trigger] new.regions@[j] == self.regions@[j]
                &&& forall|at: MemAddrT, at_sz: OpSize| #[trigger]
                    new.regions@[i].dev.read_spec(at, at_sz) == self.regions@[i].dev.read_after_write(
                        addr,
                        data,
                        sz,
                        at,
                        at_sz,
                    )
            },
        }
    }

    pub fn new() -> (r: MemMap<M>)
        ensures
            r.regions@.len() == 0,
    {
        MemMap { regions: Vec::new() }
    }

    /// Binds `start <= a < end` to `dev`, above every range registered before.
    pub fn register(&mut self, start: MemAddrT, end: MemAddrT, dev: M)
        ensures
            final(self).regions@ == old(self).regions@.push(MemRegion { start, end, dev }),
    {
        self.regions.push(MemRegion { start, end, dev });
    }

    /// The index of the region that serves `addr`.
    fn find(&self, addr: MemAddrT) -> (r: Option<usize>)
        ensures
            match r {
                None => owner(self.regions@, addr) is None,
                Some(i) => owner(self.regions@, addr) == Some(i as int),
            },
    {
        let mut i = self.regions.len();
        proof {
            assert(self.regions@.take(i as int) =~= self.regions@);
        }
        while i > 0
            invariant
                i <= self.regions@.len(),
                owner(self.regions@, addr) == owner(self.regions@.take(i as int), addr),
            decreases i,
        {
            let ghost pre = self.regions@.take(i as int);
            let r = &self.regions[i - 1];
            if r.start <= addr && addr < r.end {
                return Some(i - 1);
            }
            proof {
                assert(pre.drop_last() =~= self.regions@.take(i - 1));
            }
            i = i - 1;
        }
        None
    }

    pub fn read(&self, addr: MemAddrT, sz: OpSize) -> (r: Option<OpSizeT>)
        ensures
            r == self.read_spec(addr, sz),
    {
        proof {
            lemma_owner(self.regions@, addr);
        }
        match self.find(addr) {
            None => None,
            Some(i) => Some(self.regions[i].dev.read(addr, sz)),
        }
    }

    /// Writes through the serving device; `None` when no range holds `addr` (nothing changes).
    pub fn write(&mut self, addr: MemAddrT, data: OpSizeT, sz: OpSize) -> (r: Option<()>)
        ensures
            r is Some <==> owner(old(self).regions@, addr) is Some,
            old(self).write_post(final(self), addr, data, sz),
    {
        proof {
            lemma_owner(self.regions@, addr);
        }
        match self.find(addr) {
            None => None,
            Some(i) => {
                self.regions[i].dev.write(addr, data, sz);
                proof {
                    assert(final(self).regions@ == old(self).regions@.update(i as int, final(self).regions@[i as int]));
                }
                Some(())
            },
        }
    }
}


} // verus!
