//! The replay-side model of one tracee address space.
//!
//! A space may be referenced by several tasks (threads).  The engine
//! records which mappings exist and which bytes replay has written into
//! the space; the driver turns both into real mapping installations and
//! memory transfers on the tracee.

use vstd::prelude::*;

use crate::trace::KernelMapping;

verus! {

/// One write replay applied to a space: where, and which bytes.
#[derive(Clone, Debug)]
pub struct MemWrite {
    pub addr: u64,
    pub data: Vec<u8>,
}

/// A mapping the space holds, with the flags the engine dispatches on.
#[derive(Copy, Clone, PartialEq, Eq, Structural, Debug)]
pub struct Mapping {
    pub km: KernelMapping,
    /// The mapping carries per-thread bookkeeping of the buffering shim.
    pub is_thread_locals: bool,
    /// The mapping is the syscall buffer itself.
    pub is_syscallbuf: bool,
    /// The tracer holds a local view of the mapping's bytes; only such
    /// mappings are shared in a way a new child must have recreated.
    pub has_local_addr: bool,
}

/// Copy a byte slice into an owned vector.
pub fn copy_bytes(src: &[u8]) -> (r: Vec<u8>)
    ensures
        r@ == src@,
{
    let mut out: Vec<u8> = Vec::new();
    let mut i: usize = 0;
    while i < src.len()
        invariant
            i <= src.len(),
            out@ == src@.subrange(0, i as int),
        decreases src.len() - i,
    {
        out.push(src[i]);
        proof {
            assert(out@ =~= src@.subrange(0, i + 1 as int));
        }
        i = i + 1;
    }
    proof {
        assert(out@ =~= src@);
    }
    out
}

pub struct AddressSpace {
    /// The writes replay has applied to this space, in order.
    pub writes: Vec<MemWrite>,
    /// Addresses of installed breakpoints.
    pub breakpoints: Vec<u64>,
    /// Addresses of installed watchpoints.
    pub watchpoints: Vec<u64>,
    /// The mappings the space holds.
    pub maps: Vec<Mapping>,
}

impl AddressSpace {
    pub fn new() -> (r: AddressSpace)
        ensures
            r.writes@ =~= Seq::<MemWrite>::empty(),
            r.breakpoints@ =~= Seq::<u64>::empty(),
            r.watchpoints@ =~= Seq::<u64>::empty(),
            r.maps@ =~= Seq::<Mapping>::empty(),
    {
        AddressSpace { writes: Vec::new(), breakpoints: Vec::new(), watchpoints: Vec::new(), maps: Vec::new() }
    }

    /// The space a forked child starts with: the same mapping layout and
    /// the same installed break- and watchpoints, and no replay writes of
    /// its own yet.
    pub fn fork_from(&self) -> (r: AddressSpace)
        ensures
            r.writes@ =~= Seq::<MemWrite>::empty(),
            r.breakpoints@ == self.breakpoints@,
            r.watchpoints@ == self.watchpoints@,
            r.maps@ == self.maps@,
    {
        let mut breakpoints: Vec<u64> = Vec::new();
        let mut i: usize = 0;
        while i < self.breakpoints.len()
            invariant
                i <= self.breakpoints.len(),
                breakpoints@ =~= self.breakpoints@.subrange(0, i as int),
            decreases self.breakpoints.len() - i,
        {
            breakpoints.push(self.breakpoints[i]);
            i = i + 1;
        }
        let mut watchpoints: Vec<u64> = Vec::new();
        let mut j: usize = 0;
        while j < self.watchpoints.len()
            invariant
                j <= self.watchpoints.len(),
                watchpoints@ =~= self.watchpoints@.subrange(0, j as int),
            decreases self.watchpoints.len() - j,
        {
            watchpoints.push(self.watchpoints[j]);
            j = j + 1;
        }
        let mut maps: Vec<Mapping> = Vec::new();
        let mut k: usize = 0;
        while k < self.maps.len()
            invariant
                k <= self.maps.len(),
                maps@ =~= self.maps@.subrange(0, k as int),
            decreases self.maps.len() - k,
        {
            maps.push(self.maps[k]);
            k = k + 1;
        }
        proof {
            assert(breakpoints@ =~= self.breakpoints@);
            assert(watchpoints@ =~= self.watchpoints@);
            assert(maps@ =~= self.maps@);
        }
        AddressSpace { writes: Vec::new(), breakpoints, watchpoints, maps }
    }

    /// Apply one write of `data` at `addr`.
    pub fn write_bytes(&mut self, addr: u64, data: Vec<u8>)
        ensures
            final(self).writes@ == old(self).writes@.push(MemWrite { addr, data }),
            final(self).breakpoints == old(self).breakpoints,
            final(self).watchpoints == old(self).watchpoints,
            final(self).maps == old(self).maps,
    {
        self.writes.push(MemWrite { addr, data });
    }

    /// Inherited breakpoints are never useful in a fresh child and risk
    /// double-firing; drop them all.
    pub fn remove_all_breakpoints(&mut self)
        ensures
            final(self).breakpoints@ =~= Seq::<u64>::empty(),
            final(self).writes == old(self).writes,
            final(self).watchpoints == old(self).watchpoints,
            final(self).maps == old(self).maps,
    {
        self.breakpoints.clear();
    }

    pub fn remove_all_watchpoints(&mut self)
        ensures
            final(self).watchpoints@ =~= Seq::<u64>::empty(),
            final(self).writes == old(self).writes,
            final(self).breakpoints == old(self).breakpoints,
            final(self).maps == old(self).maps,
    {
        self.watchpoints.clear();
    }

    /// Install a mapping into the space's model.
    pub fn add_mapping(&mut self, m: Mapping)
        ensures
            final(self).maps@ == old(self).maps@.push(m),
            final(self).writes == old(self).writes,
            final(self).breakpoints == old(self).breakpoints,
            final(self).watchpoints == old(self).watchpoints,
    {
        self.maps.push(m);
    }
}

} // verus!
