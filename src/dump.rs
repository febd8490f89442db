//! Hex dumps of byte buffers, sixteen bytes a line.
use vstd::prelude::*;
use vstd::string::StringExecFns;

use crate::cpu::{flag_set, Cpu, Flags};
use crate::dis::{digits, padded, padded_string, push_digits};
use crate::io::IOOps;
use crate::mem::MemOps;

verus! {

/// The hex cells of a dump line for the bytes at `i`, `i + 1`, ...: two upper-case digits and
/// a space per byte below `len`, three spaces past it; `k` cells.
pub open spec fn hex_cells(buf: Seq<u8>, len: nat, i: nat, k: nat) -> Seq<char>
    decreases k,
{
    if k == 0 {
        Seq::empty()
    } else {
        hex_cells(buf, len, i, (k - 1) as nat) + if i + k - 1 < len {
            digits(buf[i + k - 1] as nat, 2, 16, true) + " "@
        } else {
            "   "@
        }
    }
}

/// The character a dump shows for a byte: printable ASCII as itself, anything else as a dot.
pub open spec fn shown(c: u8) -> Seq<char> {
    if 32 <= c < 127 {
        seq![c as char]
    } else {
        "."@
    }
}

/// The text cells of a dump line: one character per byte below `len`, a space past it.
pub open spec fn text_cells(buf: Seq<u8>, len: nat, i: nat, k: nat) -> Seq<char>
    decreases k,
{
    if k == 0 {
        Seq::empty()
    } else {
        text_cells(buf, len, i, (k - 1) as nat) + if i + k - 1 < len {
            shown(buf[i + k - 1])
        } else {
            " "@
        }
    }
}

/// The dump line for the sixteen bytes at `i`: the address `origin + i` in at least eight
/// upper-case hex digits, a space, the hex cells, a space, and the text cells.
pub open spec fn dump_line(buf: Seq<u8>, origin: nat, len: nat, i: nat) -> Seq<char> {
    padded(origin + i, 8, 16, true) + " "@ + hex_cells(buf, len, i, 16) + " "@ + text_cells(buf, len, i, 16)
}

/// Relies on String::push: appends one character.
#[verifier::external_body]
fn push_char(s: &mut String, c: char)
    ensures
        final(s)@ == old(s)@.push(c),
{
    s.push(c);
}

fn dump_line_string(buf: &[u8], origin: usize, len: usize, i: usize) -> (r: String)
    requires
        len <= buf@.len(),
        i < len,
        origin + len <= usize::MAX,
    ensures
        r@ == dump_line(buf@, origin as nat, len as nat, i as nat),
{
    let mut line = padded_string((origin + i) as u64, 8, 16, true);
    line.append(" ");
    let ghost head = line@;
    let mut j: usize = 0;
    assert(head + hex_cells(buf@, len as nat, i as nat, 0) =~= head);
    while j < 16
        invariant
            j <= 16,
            i < len,
            len <= buf@.len(),
            line@ == head + hex_cells(buf@, len as nat, i as nat, j as nat),
        decreases 16 - j,
    {
        let ghost before = line@;
        if j < len - i {
            push_digits(&mut line, buf[i + j] as u64, 2, 16, true);
            line.append(" ");
        } else {
            line.append("   ");
        }
        j = j + 1;
        assert(line@ =~= head + hex_cells(buf@, len as nat, i as nat, j as nat));
    }
    line.append(" ");
    let ghost mid = line@;
    let mut j: usize = 0;
    assert(mid + text_cells(buf@, len as nat, i as nat, 0) =~= mid);
    while j < 16
        invariant
            j <= 16,
            i < len,
            len <= buf@.len(),
            line@ == mid + text_cells(buf@, len as nat, i as nat, j as nat),
        decreases 16 - j,
    {
        if j < len - i {
            let c = buf[i + j];
            if c >= 32 && c < 127 {
                push_char(&mut line, c as char);
            } else {
                line.append(".");
            }
        } else {
            line.append(" ");
        }
        j = j + 1;
        assert(line@ =~= mid + text_cells(buf@, len as nat, i as nat, j as nat));
    }
    line
}

/// The lines of a hex dump of the first `len` bytes of `buf` (no more than it holds), with
/// addresses counted from `origin`.
pub fn dump(buf: &[u8], origin: usize, len: usize) -> (r: Vec<String>)
    requires
        origin + buf@.len() <= usize::MAX,
    ensures
        ({
            let n = if len < buf@.len() { len as nat } else { buf@.len() };
            &&& r@.len() == (n + 15) / 16
            &&& forall|k: int| 0 <= k < r@.len() ==> #[trigger] r@[k]@ == dump_line(buf@, origin as nat, n, (16 * k) as nat)
        }),
{
    let n = if len < buf.len() {
        len
    } else {
        buf.len()
    };
    let count = n / 16 + if n % 16 != 0 {
        1
    } else {
        0
    };
    assert(count == (n as nat + 15) / 16) by (nonlinear_arith)
        requires
            count == n / 16 + if n % 16 != 0 { 1int } else { 0int },
    ;
    let mut lines: Vec<String> = Vec::new();
    let mut k: usize = 0;
    while k < count
        invariant
            n <= buf@.len(),
            origin + buf@.len() <= usize::MAX,
            count == (n as nat + 15) / 16,
            k <= count,
            k == lines@.len(),
            forall|q: int| 0 <= q < lines@.len() ==> #[trigger] lines@[q]@ == dump_line(buf@, origin as nat, n as nat, (16 * q) as nat),
        decreases count - k,
    {
        assert(16 * k < n) by (nonlinear_arith)
            requires
                k < count,
                count == (n as nat + 15) / 16,
        ;
        let line = dump_line_string(buf, origin, n, 16 * k);
        lines.push(line);
        k = k + 1;
    }
    lines
}

/// A register value as four upper-case hex digits.
pub open spec fn hex4(v: u16) -> Seq<char> {
    digits(v as nat, 4, 16, true)
}

/// A flag as one digit, 1 when set.
pub open spec fn flag_digit(w: u16, f: Flags) -> Seq<char> {
    digits(if flag_set(w, f) { 1nat } else { 0nat }, 1, 16, true)
}

impl<M: MemOps, P: IOOps> Cpu<M, P> {
    /// The general registers, as `AX=.... BX=.... CX=.... DX=.... SP=.... BP=.... SI=.... DI=....`.
    pub open spec fn regs_line(&self) -> Seq<char> {
        let r = self.regs;
        "AX="@ + hex4(r.ax) + " BX="@ + hex4(r.bx) + " CX="@ + hex4(r.cx) + " DX="@ + hex4(r.dx) + " SP="@
            + hex4(r.sp) + " BP="@ + hex4(r.bp) + " SI="@ + hex4(r.si) + " DI="@ + hex4(r.di)
    }

    /// The segment registers and IP, as `CS=.... DS=.... SS=.... ES=.... IP=....`.
    pub open spec fn sregs_line(&self) -> Seq<char> {
        let s = self.sregs;
        "CS="@ + hex4(s.cs) + " DS="@ + hex4(s.ds) + " SS="@ + hex4(s.ss) + " ES="@ + hex4(s.es) + " IP="@
            + hex4(self.ip)
    }

    /// The flags word and each named flag, as `FL=.... CF=. PF=. AF=. ZF=. SF=. TF=. IF=. DF=. OF=.`.
    pub open spec fn flags_line(&self) -> Seq<char> {
        let w = self.flags;
        "FL="@ + hex4(w) + " CF="@ + flag_digit(w, Flags::C) + " PF="@ + flag_digit(w, Flags::P) + " AF="@
            + flag_digit(w, Flags::A) + " ZF="@ + flag_digit(w, Flags::Z) + " SF="@ + flag_digit(w, Flags::S)
            + " TF="@ + flag_digit(w, Flags::T) + " IF="@ + flag_digit(w, Flags::I) + " DF="@ + flag_digit(
            w,
            Flags::D,
        ) + " OF="@ + flag_digit(w, Flags::O)
    }

    fn push_flag(&self, s: &mut String, label: &str, f: Flags)
        ensures
            final(s)@ == old(s)@ + label@ + flag_digit(self.flags, f),
    {
        s.append(label);
        let b: u64 = if self.is_flag_set(f) {
            1
        } else {
            0
        };
        push_digits(s, b, 1, 16, true);
    }

    /// The register state as three lines: general registers, segment registers with IP, and
    /// flags.
    pub fn dump_regs(&self) -> (r: Vec<String>)
        ensures
            r@.len() == 3,
            r@[0]@ == self.regs_line(),
            r@[1]@ == self.sregs_line(),
            r@[2]@ == self.flags_line(),
    {
        let mut a = "AX=".to_owned();
        push_digits(&mut a, self.regs.ax as u64, 4, 16, true);
        a.append(" BX=");
        push_digits(&mut a, self.regs.bx as u64, 4, 16, true);
        a.append(" CX=");
        push_digits(&mut a, self.regs.cx as u64, 4, 16, true);
        a.append(" DX=");
        push_digits(&mut a, self.regs.dx as u64, 4, 16, true);
        a.append(" SP=");
        push_digits(&mut a, self.regs.sp as u64, 4, 16, true);
        a.append(" BP=");
        push_digits(&mut a, self.regs.bp as u64, 4, 16, true);
        a.append(" SI=");
        push_digits(&mut a, self.regs.si as u64, 4, 16, true);
        a.append(" DI=");
        push_digits(&mut a, self.regs.di as u64, 4, 16, true);

        let mut b = "CS=".to_owned();
        push_digits(&mut b, self.sregs.cs as u64, 4, 16, true);
        b.append(" DS=");
        push_digits(&mut b, self.sregs.ds as u64, 4, 16, true);
        b.append(" SS=");
        push_digits(&mut b, self.sregs.ss as u64, 4, 16, true);
        b.append(" ES=");
        push_digits(&mut b, self.sregs.es as u64, 4, 16, true);
        b.append(" IP=");
        push_digits(&mut b, self.ip as u64, 4, 16, true);

        let mut c = "FL=".to_owned();
        push_digits(&mut c, self.flags as u64, 4, 16, true);
        self.push_flag(&mut c, " CF=", Flags::C);
        self.push_flag(&mut c, " PF=", Flags::P);
        self.push_flag(&mut c, " AF=", Flags::A);
        self.push_flag(&mut c, " ZF=", Flags::Z);
        self.push_flag(&mut c, " SF=", Flags::S);
        self.push_flag(&mut c, " TF=", Flags::T);
        self.push_flag(&mut c, " IF=", Flags::I);
        self.push_flag(&mut c, " DF=", Flags::D);
        self.push_flag(&mut c, " OF=", Flags::O);

        let mut lines = Vec::new();
        lines.push(a);
        lines.push(b);
        lines.push(c);
        lines
    }
}

} // verus!
