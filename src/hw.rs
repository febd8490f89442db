//! Devices: RAM and ROM over a byte image, and the machine's standard layout.
use vstd::prelude::*;

use crate::io::{IOMap, IOOps};
use crate::mem::{MemMap, MemOps, MemRegion, OpSize};
use crate::{MemAddrT, OpSizeT};

verus! {

/// What the machine is built from: the ROM image's file name, the RAM size, and where the ROM
/// image is loaded.
pub struct Config {
    pub bios_file: String,
    pub ram_size: MemAddrT,
    pub bios_addr: MemAddrT,
}

/// How the emulator front end runs an image.
#[derive(Debug, Clone, Copy, Default)]
pub struct EmuOpts {
    pub test_mode: bool,
    pub wait_for_enter: bool,
    pub dump_regs_each_step: bool,
    pub dump_regs_on_halt: bool,
}

pub trait Device {
    fn name(&self) -> String;
}

/// The end of the RAM window: RAM answers below it.
pub const RAM_END: MemAddrT = 0xf0000;

/// A read of `bytes` mapped at `start`. Words are little-endian; a read that does not lie wholly
/// inside the image returns 0.
pub open spec fn image_read(start: MemAddrT, bytes: Seq<u8>, addr: MemAddrT, sz: OpSize) -> OpSizeT {
    let off = addr - start;
    if addr < start || off >= bytes.len() {
        0
    } else {
        match sz {
            OpSize::Byte => bytes[off] as OpSizeT,
            OpSize::Word => if off + 1 >= bytes.len() {
                0
            } else {
                (bytes[off + 1] * 256 + bytes[off]) as OpSizeT
            },
        }
    }
}

/// `bytes` mapped at `start` after a write; a write that does not lie wholly inside the image is
/// dropped.
pub open spec fn image_write(start: MemAddrT, bytes: Seq<u8>, addr: MemAddrT, data: OpSizeT, sz: OpSize) -> Seq<u8> {
    let off = addr - start;
    if addr < start || off >= bytes.len() {
        bytes
    } else {
        match sz {
            OpSize::Byte => bytes.update(off, (data % 256) as u8),
            OpSize::Word => if off + 1 >= bytes.len() {
                bytes
            } else {
                bytes.update(off, (data % 256) as u8).update(off + 1, (data / 256) as u8)
            },
        }
    }
}

/// A read that starts one byte past the end of an image returns 0; so does a word read of the
/// image's last byte. A word written inside an image reads back unchanged.
pub proof fn lemma_image_bounds(start: MemAddrT, bytes: Seq<u8>, addr: MemAddrT, data: OpSizeT, sz: OpSize)
    ensures
        start + bytes.len() <= MemAddrT::MAX ==> image_read(start, bytes, (start + bytes.len()) as MemAddrT, sz) == 0,
        bytes.len() > 0 && start + bytes.len() <= MemAddrT::MAX ==> image_read(start, bytes, (start + bytes.len() - 1) as MemAddrT, OpSize::Word) == 0,
        start <= addr && addr - start + 1 < bytes.len() ==> image_read(
            start,
            image_write(start, bytes, addr, data, OpSize::Word),
            addr,
            OpSize::Word,
        ) == data,
{
    if start <= addr && addr - start + 1 < bytes.len() {
        let off = addr - start;
        let nb = image_write(start, bytes, addr, data, OpSize::Word);
        assert(nb[off + 1] == (data / 256) as u8 && nb[off] == (data % 256) as u8);
        assert((data / 256) * 256 + data % 256 == data) by (nonlinear_arith);
    }
}

fn image_read_exec(start: MemAddrT, bytes: &Vec<u8>, addr: MemAddrT, sz: OpSize) -> (r: OpSizeT)
    ensures
        r == image_read(start, bytes@, addr, sz),
{
    if addr < start {
        return 0;
    }
    let off = (addr - start) as usize;
    if off >= bytes.len() {
        return 0;
    }
    let b0 = bytes[off] as OpSizeT;
    match sz {
        OpSize::Byte => b0,
        OpSize::Word => {
            if off + 1 >= bytes.len() {
                return 0;
            }
            let b1 = bytes[off + 1] as OpSizeT;
            b1 * 256 + b0
        },
    }
}

/// Read-write memory.
pub struct DeviceRAM {
    pub start: MemAddrT,
    pub bytes: Vec<u8>,
}

/// Read-only memory: writes are ignored.
pub struct DeviceROM {
    pub start: MemAddrT,
    pub bytes: Vec<u8>,
}

impl MemOps for DeviceRAM {
    open spec fn read_spec(&self, addr: MemAddrT, sz: OpSize) -> OpSizeT {
        image_read(self.start, self.bytes@, addr, sz)
    }

    open spec fn read_after_write(
        &self,
        addr: MemAddrT,
        data: OpSizeT,
        sz: OpSize,
        at: MemAddrT,
        at_sz: OpSize,
    ) -> OpSizeT {
        image_read(self.start, image_write(self.start, self.bytes@, addr, data, sz), at, at_sz)
    }

    fn name(&self) -> String {
        "RAM".to_owned()
    }

    fn read(&self, addr: MemAddrT, sz: OpSize) -> (r: OpSizeT) {
        image_read_exec(self.start, &self.bytes, addr, sz)
    }

    fn write(&mut self, addr: MemAddrT, data: OpSizeT, sz: OpSize)
        ensures
            final(self).start == old(self).start,
            final(self).bytes@ == image_write(old(self).start, old(self).bytes@, addr, data, sz),
    {
        if addr < self.start {
            return;
        }
        let off = (addr - self.start) as usize;
        if off >= self.bytes.len() {
            return;
        }
        match sz {
            OpSize::Byte => {
                self.bytes.set(off, (data % 256) as u8);
            },
            OpSize::Word => {
                if off + 1 >= self.bytes.len() {
                    return;
                }
                self.bytes.set(off, (data % 256) as u8);
                self.bytes.set(off + 1, (data / 256) as u8);
            },
        }
    }
}

impl MemOps for DeviceROM {
    open spec fn read_spec(&self, addr: MemAddrT, sz: OpSize) -> OpSizeT {
        image_read(self.start, self.bytes@, addr, sz)
    }

    open spec fn read_after_write(
        &self,
        addr: MemAddrT,
        data: OpSizeT,
        sz: OpSize,
        at: MemAddrT,
        at_sz: OpSize,
    ) -> OpSizeT {
        image_read(self.start, self.bytes@, at, at_sz)
    }

    fn name(&self) -> String {
        "ROM".to_owned()
    }

    fn read(&self, addr: MemAddrT, sz: OpSize) -> (r: OpSizeT) {
        image_read_exec(self.start, &self.bytes, addr, sz)
    }

    fn write(&mut self, addr: MemAddrT, data: OpSizeT, sz: OpSize)
        ensures
            final(self).start == old(self).start,
            final(self).bytes@ == old(self).bytes@,
    {
    }
}

/// The memory devices of the standard machine.
pub enum MemDevice {
    Ram(DeviceRAM),
    Rom(DeviceROM),
}

impl MemOps for MemDevice {
    open spec fn read_spec(&self, addr: MemAddrT, sz: OpSize) -> OpSizeT {
        match self {
            MemDevice::Ram(d) => d.read_spec(addr, sz),
            MemDevice::Rom(d) => d.read_spec(addr, sz),
        }
    }

    open spec fn read_after_write(
        &self,
        addr: MemAddrT,
        data: OpSizeT,
        sz: OpSize,
        at: MemAddrT,
        at_sz: OpSize,
    ) -> OpSizeT {
        match self {
            MemDevice::Ram(d) => d.read_after_write(addr, data, sz, at, at_sz),
            MemDevice::Rom(d) => d.read_after_write(addr, data, sz, at, at_sz),
        }
    }

    fn name(&self) -> String {
        match self {
            MemDevice::Ram(d) => d.name(),
            MemDevice::Rom(d) => d.name(),
        }
    }

    fn read(&self, addr: MemAddrT, sz: OpSize) -> (r: OpSizeT) {
        match self {
            MemDevice::Ram(d) => d.read(addr, sz),
            MemDevice::Rom(d) => d.read(addr, sz),
        }
    }

    fn write(&mut self, addr: MemAddrT, data: OpSizeT, sz: OpSize) {
        match self {
            MemDevice::Ram(d) => d.write(addr, data, sz),
            MemDevice::Rom(d) => d.write(addr, data, sz),
        }
    }
}

/// `size` zero bytes.
pub open spec fn zeros(size: nat) -> Seq<u8> {
    Seq::new(size, |i: int| 0u8)
}

/// The region is RAM over `bytes`, mapped at `start` for the addresses below `end`.
pub open spec fn is_ram_region(r: MemRegion<MemDevice>, start: MemAddrT, end: MemAddrT, bytes: Seq<u8>) -> bool {
    &&& r.start == start
    &&& r.end == end
    &&& r.dev matches MemDevice::Ram(d)
    &&& d.start == start
    &&& d.bytes@ == bytes
}

/// The region is ROM over `bytes`, mapped at `start`.
pub open spec fn is_rom_region(r: MemRegion<MemDevice>, start: MemAddrT, bytes: Seq<u8>) -> bool {
    &&& r.start == start
    &&& r.end == start + bytes.len()
    &&& r.dev matches MemDevice::Rom(d)
    &&& d.start == start
    &&& d.bytes@ == bytes
}

impl DeviceRAM {
    /// Registers `cfg.ram_size` bytes of zeroed RAM for the addresses below `RAM_END`.
    pub fn register<P: IOOps>(cfg: &Config, vm: &mut MemMap<MemDevice>, io: &mut IOMap<P>)
        ensures
            final(vm).regions@.len() == old(vm).regions@.len() + 1,
            final(vm).regions@.drop_last() == old(vm).regions@,
            is_ram_region(final(vm).regions@.last(), 0, RAM_END, zeros(cfg.ram_size as nat)),
            *final(io) == *old(io),
    {
        let dev = DeviceRAM { start: 0, bytes: vec![0u8; cfg.ram_size as usize] };
        assert(dev.bytes@ =~= zeros(cfg.ram_size as nat));
        vm.register(0, RAM_END, MemDevice::Ram(dev));
        assert(vm.regions@.drop_last() =~= old(vm).regions@);
    }
}

impl DeviceROM {
    /// Registers `image` as ROM from `cfg.bios_addr` on.
    pub fn register<P: IOOps>(cfg: &Config, vm: &mut MemMap<MemDevice>, io: &mut IOMap<P>, image: Vec<u8>)
        requires
            cfg.bios_addr + image.len() <= MemAddrT::MAX,
        ensures
            final(vm).regions@.len() == old(vm).regions@.len() + 1,
            final(vm).regions@.drop_last() == old(vm).regions@,
            is_rom_region(final(vm).regions@.last(), cfg.bios_addr, image@),
            *final(io) == *old(io),
    {
        let bios_start = cfg.bios_addr;
        let bios_end = bios_start + image.len() as MemAddrT;
        vm.register(bios_start, bios_end, MemDevice::Rom(DeviceROM { start: bios_start, bytes: image }));
        assert(vm.regions@.drop_last() =~= old(vm).regions@);
    }
}

/// Registers the RAM, then the ROM image above it.
pub fn init_devices<P: IOOps>(cfg: &Config, vm: &mut MemMap<MemDevice>, io: &mut IOMap<P>, image: Vec<u8>)
    requires
        cfg.bios_addr + image.len() <= MemAddrT::MAX,
    ensures
        final(vm).regions@.len() == old(vm).regions@.len() + 2,
        final(vm).regions@.take(old(vm).regions@.len() as int) == old(vm).regions@,
        is_ram_region(final(vm).regions@[old(vm).regions@.len() as int], 0, RAM_END, zeros(cfg.ram_size as nat)),
        is_rom_region(final(vm).regions@.last(), cfg.bios_addr, image@),
        *final(io) == *old(io),
{
    let ghost n = vm.regions@.len();
    DeviceRAM::register(cfg, vm, io);
    let ghost mid = vm.regions@;
    DeviceROM::register(cfg, vm, io, image);
    assert(vm.regions@.take(n as int) =~= mid.drop_last());
    assert(vm.regions@[n as int] == mid.last());
}

} // verus!
