//! A 16-bit x86 (8086) instruction decoder and execution engine.
use vstd::prelude::*;

mod op;
pub use op::{cc_of, reg16_index, reg16_of, reg8_index, reg8_of, sreg_of};
pub use op::{Arg, Cc, Inst, Invalid, Mem, Op, Reg16, Reg8, Rep, Sreg};

mod dec;
pub use dec::{alu_kind, alu_row_spec, byte_at, decode, decode_from, dyadic, is_prefix, lemma_decode_prefix};
pub use dec::{low_misc, modrm_op, modrm_spec, op_spec, prefix_seg, prefix_taken, row8_spec, row_f_op, word_at};
pub use dec::{ByteCursor, ByteSource, Decoder, Dyadic};

mod mem;
pub use mem::{holds, lemma_latest_registration_wins, lemma_owner, lemma_owner_ranges, owner};
pub use mem::{MemMap, MemOps, MemRegion, OpSize};

mod io;
pub use io::{IOMap, IOOps, IoSize, PortLatch};

mod hw;
pub use hw::{image_read, image_write, init_devices, is_ram_region, is_rom_region, lemma_image_bounds, zeros};
pub use hw::{Config, Device, DeviceRAM, DeviceROM, EmuOpts, MemDevice, RAM_END};

mod cpu;
pub use cpu::{bit, flag_mask_spec, flag_pos, flag_set, hi, io_size, lemma_byte_aliasing, lemma_flag_isolation};
pub use cpu::{linear, lo, load_segment, reg16_get, reg16_put, reg8_get, reg8_put, sreg_get, sreg_put};
pub use cpu::{with_hi, with_lo, Cpu, Flags, Regs, Sregs};

mod dis;
pub use dis::{arg_text, arg_to_string, base_text, branch_target, cc_name, digit_text, digits, dyadic_text};
pub use dis::{inst_text, inst_to_string, mem_debug, ndigits, op_text, padded, prefix_text, reg16_debug};
pub use dis::{reg16_name, reg8_name, signed_text, sreg_debug};

mod expect;
pub use expect::{field, field_of, kind_of, prepend, recorded, Field, ValueKind, Verdict};

mod dump;
pub use dump::{dump, flag_digit, hex4, dump_line, hex_cells, shown, text_cells};

mod exec;
pub use exec::{aaa_spec, aas_spec, adjust_flags, alu_result, arg_size_spec, code_window, cond, is_register};
pub use exec::{lemma_push_pop, lemma_push_pop_ticks, readable, signed16, signed_cmp_flags, unsigned_cmp_flags};
pub use exec::{CodeFetch, ExecError};

verus! {

/// A linear memory address (the 8086 reaches 1 MiB, so 32 bits are used).
pub type MemAddrT = u32;

/// An I/O port address.
pub type IoAddrT = u16;

/// The widest value a memory or port access carries.
pub type OpSizeT = u16;

} // verus!
