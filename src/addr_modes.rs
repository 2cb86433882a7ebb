use vstd::prelude::*;
use crate::mos_6502::{
    add16, inc16, make_word, page, rd, rd_word, word, wrapping_add16, wrapping_inc16, CpuState,
    Mos6502,
};

verus! {

/// The ways an instruction's operand can be located.
#[derive(Clone, Copy, Debug, PartialEq, Eq, Structural)]
pub enum AddrMode {
    Implied,
    Immediate,
    ZeroPage,
    ZeroPageOffsetX,
    ZeroPageOffsetY,
    Absolute,
    AbsoluteOffsetX,
    AbsoluteOffsetY,
    Indirect,
    IndirectOffsetX,
    IndirectOffsetY,
    Relative,
}

/// The zero-page address `base + offset`, wrapping within page 0.
pub open spec fn zero_page(base: u8, offset: u8) -> u16 {
    ((base as int + offset as int) % 256) as u16
}

/// `base + index` and the extra-cycle signal: 1 when the addition leaves the
/// page of `base`.
pub open spec fn indexed(base: u16, index: u8) -> (u16, u8) {
    let addr = add16(base, index as u16);
    (addr, if page(addr) != page(base) { 1 } else { 0 })
}

/// A relative displacement sign-extended to 16 bits.
pub open spec fn sign_extend(d: u8) -> u16 {
    if d >= 0x80 {
        (d as int + 0xFF00) as u16
    } else {
        d as u16
    }
}

/// Where the Indirect mode reads the high byte of its target: the byte after
/// the pointer, except that a pointer at the end of a page wraps to the start
/// of that same page.
pub open spec fn indirect_high_source(ptr: u16) -> u16 {
    if ptr as int % 256 == 0xFF {
        word(0, (ptr as int / 256) as u8)
    } else {
        inc16(ptr)
    }
}

/// The machine after resolving `mode` at `m.pc`, and the extra-cycle signal.
pub open spec fn resolve(m: CpuState, mode: AddrMode) -> (CpuState, u8) {
    let op1 = rd(m, m.pc);
    let pc1 = inc16(m.pc);
    let pc2 = add16(m.pc, 2);
    match mode {
        AddrMode::Implied => (CpuState { fetched: m.a, ..m }, 0),
        AddrMode::Immediate => (CpuState { addr_abs: m.pc, pc: pc1, ..m }, 0),
        AddrMode::ZeroPage => (CpuState { addr_abs: op1 as u16, pc: pc1, ..m }, 0),
        AddrMode::ZeroPageOffsetX => (CpuState { addr_abs: zero_page(op1, m.x), pc: pc1, ..m }, 0),
        AddrMode::ZeroPageOffsetY => (CpuState { addr_abs: zero_page(op1, m.y), pc: pc1, ..m }, 0),
        AddrMode::Absolute => (CpuState { addr_abs: rd_word(m, m.pc), pc: pc2, ..m }, 0),
        AddrMode::AbsoluteOffsetX => {
            let (addr, extra) = indexed(rd_word(m, m.pc), m.x);
            (CpuState { addr_abs: addr, pc: pc2, ..m }, extra)
        },
        AddrMode::AbsoluteOffsetY => {
            let (addr, extra) = indexed(rd_word(m, m.pc), m.y);
            (CpuState { addr_abs: addr, pc: pc2, ..m }, extra)
        },
        AddrMode::Indirect => {
            let ptr = rd_word(m, m.pc);
            let target = word(rd(m, ptr), rd(m, indirect_high_source(ptr)));
            (CpuState { addr_abs: target, pc: pc2, ..m }, 0)
        },
        AddrMode::IndirectOffsetX => {
            let target = word(rd(m, zero_page(op1, m.x)), rd(m, zero_page(op1, (m.x as int + 1) as u8)));
            (CpuState { addr_abs: target, pc: pc1, ..m }, 0)
        },
        AddrMode::IndirectOffsetY => {
            let base = word(rd(m, op1 as u16), rd(m, zero_page(op1, 1)));
            let (addr, extra) = indexed(base, m.y);
            (CpuState { addr_abs: addr, pc: pc1, ..m }, extra)
        },
        AddrMode::Relative => (CpuState { addr_rel: sign_extend(op1), pc: pc1, ..m }, 0),
    }
}

/// The zero-page modes, whatever the operand byte and index registers, resolve
/// to an address in page 0.
pub proof fn lemma_zero_page_in_page_zero(m: CpuState, mode: AddrMode)
    requires
        mode == AddrMode::ZeroPage || mode == AddrMode::ZeroPageOffsetX || mode
            == AddrMode::ZeroPageOffsetY,
    ensures
        resolve(m, mode).0.addr_abs <= 0x00FF,
{
}

/// Indirect addressing through a pointer whose low byte is 0xFF reads the
/// target's high byte from the start of the pointer's page, `pointer & 0xFF00`,
/// not from `pointer + 1`.
pub proof fn lemma_indirect_page_wrap(m: CpuState)
    requires
        rd(m, m.pc) == 0xFF,
    ensures
        ({
            let ptr = rd_word(m, m.pc);
            resolve(m, AddrMode::Indirect).0.addr_abs == word(rd(m, ptr), rd(m, ptr & 0xFF00))
        }),
{
    let hi = rd(m, inc16(m.pc));
    let ptr = rd_word(m, m.pc);
    assert(ptr == hi as u16 * 256 + 0xFF);
    assert(((hi as u16 * 256 + 0xFF) as u16) & 0xFF00u16 == (hi as u16 * 256) as u16)
        by (bit_vector);
}

/// The address that an indexed mode adds its index register to.
pub open spec fn unindexed(m: CpuState, mode: AddrMode) -> u16 {
    if mode == AddrMode::IndirectOffsetY {
        let op1 = rd(m, m.pc);
        word(rd(m, op1 as u16), rd(m, zero_page(op1, 1)))
    } else {
        rd_word(m, m.pc)
    }
}

/// The index register that an indexed mode adds.
pub open spec fn index_of(m: CpuState, mode: AddrMode) -> u8 {
    if mode == AddrMode::AbsoluteOffsetX {
        m.x
    } else {
        m.y
    }
}

/// AbsoluteOffsetX, AbsoluteOffsetY and IndirectOffsetY resolve to the base
/// address plus the index, and signal an extra cycle exactly when that
/// addition changes the high byte.
pub proof fn lemma_page_cross_signal(m: CpuState, mode: AddrMode)
    requires
        mode == AddrMode::AbsoluteOffsetX || mode == AddrMode::AbsoluteOffsetY || mode
            == AddrMode::IndirectOffsetY,
    ensures
        ({
            let (m2, extra) = resolve(m, mode);
            let base = unindexed(m, mode);
            &&& m2.addr_abs == add16(base, index_of(m, mode) as u16)
            &&& (extra == 1 <==> m2.addr_abs / 256 != base / 256)
            &&& (extra == 0 || extra == 1)
        }),
{
}

/// A relative displacement keeps its signed value when extended: read as a
/// 16-bit two's-complement number, the extended value equals the byte read as
/// an 8-bit one; and relative addressing latches exactly that extension.
pub proof fn lemma_relative_sign_extension(m: CpuState, d: u8)
    requires
        rd(m, m.pc) == d,
    ensures
        sign_extend(d) as int - (if sign_extend(d) >= 0x8000 { 0x10000int } else { 0 })
            == d as int - (if d >= 0x80 { 0x100int } else { 0 }),
        resolve(m, AddrMode::Relative).0.addr_rel == sign_extend(d),
{
}

fn zero_page_add(base: u8, offset: u8) -> (r: u16)
    ensures
        r == zero_page(base, offset),
{
    ((base as u16 + offset as u16) % 256) as u16
}

fn page_changed(base: u16, addr: u16) -> (r: u8)
    ensures
        r == (if page(addr) != page(base) { 1u8 } else { 0u8 }),
{
    if addr / 256 != base / 256 {
        1
    } else {
        0
    }
}

impl Mos6502 {
    /// Resolves the operand location of `addr_mode` at `pc`, advancing `pc` past
    /// the operand bytes; returns 1 where the resolution crossed a page and may
    /// cost an extra cycle, else 0.
    pub fn handle_addr_mode(&mut self, addr_mode: AddrMode) -> (r: u8)
        ensures
            (final(self)@, r) == resolve(old(self)@, addr_mode),
    {
        match addr_mode {
            AddrMode::Implied => {
                self.fetched = self.a;
            },
            AddrMode::Immediate => {
                self.addr_abs = self.pc;
                self.pc = wrapping_inc16(self.pc);
            },
            AddrMode::ZeroPage => {
                self.addr_abs = self.read_byte(self.pc) as u16;
                self.pc = wrapping_inc16(self.pc);
            },
            AddrMode::ZeroPageOffsetX => {
                self.addr_abs = zero_page_add(self.read_byte(self.pc), self.x);
                self.pc = wrapping_inc16(self.pc);
            },
            AddrMode::ZeroPageOffsetY => {
                self.addr_abs = zero_page_add(self.read_byte(self.pc), self.y);
                self.pc = wrapping_inc16(self.pc);
            },
            AddrMode::Absolute => {
                self.addr_abs = self.read_word(self.pc);
                self.pc = wrapping_add16(self.pc, 2);
            },
            AddrMode::AbsoluteOffsetX => {
                let base = self.read_word(self.pc);
                self.pc = wrapping_add16(self.pc, 2);
                self.addr_abs = wrapping_add16(base, self.x as u16);
                return page_changed(base, self.addr_abs);
            },
            AddrMode::AbsoluteOffsetY => {
                let base = self.read_word(self.pc);
                self.pc = wrapping_add16(self.pc, 2);
                self.addr_abs = wrapping_add16(base, self.y as u16);
                return page_changed(base, self.addr_abs);
            },
            AddrMode::Indirect => {
                let (ptr, ptr_hi, ptr_lo) = self.read_word_and_bytes(self.pc);
                self.pc = wrapping_add16(self.pc, 2);
                // The hardware never carries into the pointer's high byte: a
                // pointer at the end of a page takes its high byte from the
                // start of the same page.
                let high_source = if ptr_lo == 0xFF {
                    make_word(0, ptr_hi)
                } else {
                    wrapping_inc16(ptr)
                };
                let lo = self.read_byte(ptr);
                let hi = self.read_byte(high_source);
                self.addr_abs = make_word(lo, hi);
            },
            AddrMode::IndirectOffsetX => {
                let t = self.read_byte(self.pc);
                self.pc = wrapping_inc16(self.pc);
                let lo = self.read_byte(zero_page_add(t, self.x));
                let hi = self.read_byte(zero_page_add(t, (self.x as u16 + 1) as u8));
                self.addr_abs = make_word(lo, hi);
            },
            AddrMode::IndirectOffsetY => {
                let t = self.read_byte(self.pc);
                self.pc = wrapping_inc16(self.pc);
                let lo = self.read_byte(t as u16);
                let hi = self.read_byte(zero_page_add(t, 1));
                let base = make_word(lo, hi);
                self.addr_abs = wrapping_add16(base, self.y as u16);
                return page_changed(base, self.addr_abs);
            },
            AddrMode::Relative => {
                let d = self.read_byte(self.pc);
                self.pc = wrapping_inc16(self.pc);
                self.addr_rel = if d >= 0x80 {
                    d as u16 + 0xFF00
                } else {
                    d as u16
                };
            },
        }
        0
    }
}

} // verus!
