//! The I/O map: each port bound to at most one device.
use vstd::prelude::*;

use std::collections::HashMap;

use crate::{IoAddrT, OpSizeT};

verus! {

broadcast use vstd::std_specs::hash::group_hash_axioms;

/// The width of a port access.
#[derive(Debug, Clone, Copy, PartialEq, Eq, Structural)]
pub enum IoSize {
    Byte,
    Word,
}

/// What a port device offers. A device is described by what its reads return, before and after
/// a write.
pub trait IOOps {
    /// What `read(addr, sz)` returns in this state.
    spec fn read_spec(&self, addr: IoAddrT, sz: IoSize) -> u16;

    /// What `read(at, at_sz)` returns once `write(addr, data, sz)` has been applied to this state.
    spec fn read_after_write(&self, addr: IoAddrT, data: u16, sz: IoSize, at: IoAddrT, at_sz: IoSize) -> u16;

    fn read(&self, addr: IoAddrT, sz: IoSize) -> (r: u16)
        ensures
            r == self.read_spec(addr, sz),
    ;

    fn write(&mut self, addr: IoAddrT, data: u16, sz: IoSize)
        ensures
            forall|at: IoAddrT, at_sz: IoSize| #[trigger]
                final(self).read_spec(at, at_sz) == old(self).read_after_write(addr, data, sz, at, at_sz),
    ;
}

/// A port that reads back the last value written to it.
pub struct PortLatch {
    pub value: u16,
}

impl IOOps for PortLatch {
    open spec fn read_spec(&self, addr: IoAddrT, sz: IoSize) -> u16 {
        self.value
    }

    open spec fn read_after_write(&self, addr: IoAddrT, data: u16, sz: IoSize, at: IoAddrT, at_sz: IoSize) -> u16 {
        data
    }

    fn read(&self, addr: IoAddrT, sz: IoSize) -> (r: u16) {
        self.value
    }

    fn write(&mut self, addr: IoAddrT, data: u16, sz: IoSize)
        ensures
            final(self).value == data,
    {
        self.value = data;
    }
}

pub struct IOMap<P> {
    pub map: HashMap<u16, P>,
}

impl<P: IOOps> IOMap<P> {
    /// What `read(addr, sz)` returns: the bound device's read, or `None` for an unbound port.
    pub open spec fn read_spec(&self, addr: IoAddrT, sz: IoSize) -> Option<OpSizeT> {
        if self.map@.contains_key(addr) {
            Some(self.map@[addr].read_spec(addr, sz))
        } else {
            None
        }
    }

    /// `new` is this map after `write(port, data, sz)`: the same ports are bound, the device bound
    /// at `port` took the write, every other port's device is untouched, and nothing changes when
    /// `port` is unbound.
    pub open spec fn write_post(&self, new: &IOMap<P>, port: IoAddrT, data: OpSizeT, sz: IoSize) -> bool {
        &&& new.map@.dom() == self.map@.dom()
        &&& !self.map@.contains_key(port) ==> new.map@ == self.map@
        &&& self.map@.contains_key(port) ==> forall|at: IoAddrT, at_sz: IoSize| #[trigger]
            new.map@[port].read_spec(at, at_sz) == self.map@[port].read_after_write(port, data, sz, at, at_sz)
        &&& forall|p: u16| p != port && #[trigger] self.map@.contains_key(p) ==> new.map@[p] == self.map@[p]
    }

    pub fn new() -> (r: IOMap<P>)
        ensures
            r.map@ == Map::<u16, P>::empty(),
    {
        IOMap { map: HashMap::new() }
    }

    /// Binds port `addr` to `dev`, replacing any device bound there before.
    pub fn register(&mut self, addr: IoAddrT, dev: P)
        ensures
            final(self).map@ == old(self).map@.insert(addr, dev),
    {
        self.map.insert(addr, dev);
    }

    pub fn read(&self, addr: IoAddrT, sz: IoSize) -> (r: Option<OpSizeT>)
        ensures
            r == self.read_spec(addr, sz),
    {
        match self.map.get(&addr) {
            None => None,
            Some(dev) => Some(dev.read(addr, sz)),
        }
    }

    /// Writes to the device bound to `addr`; `false`, with nothing changed, for an unbound port.
    /// The set of bound ports, and every other port's device, stay as they were.
    pub fn write(&mut self, addr: IoAddrT, data: OpSizeT, sz: IoSize) -> (r: bool)
        ensures
            r == old(self).map@.contains_key(addr),
            old(self).write_post(final(self), addr, data, sz),
    {
        match self.map.remove(&addr) {
            None => {
                proof {
                    assert(self.map@ =~= old(self).map@);
                }
                false
            },
            Some(mut dev) => {
                dev.write(addr, data, sz);
                self.map.insert(addr, dev);
                proof {
                    assert(self.map@.dom() =~= old(self).map@.dom());
                    assert forall|p: u16| p != addr && #[trigger] old(self).map@.contains_key(p) implies self.map@[p]
                        == old(self).map@[p] by {}
                }
                true
            },
        }
    }
}

} // verus!
