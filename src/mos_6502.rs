use vstd::prelude::*;
use crate::addr_modes::{resolve, AddrMode};
use crate::instructions::{execute, pushed_word, Instruction};
use crate::bus::Bus;
use crate::instruction_summary::{lemma_table_total, summary_of, InstructionSummary};

verus! {

/// The bits of the status register, from bit 0 (Carry) up to bit 7 (Negative).
#[derive(Clone, Copy, Debug, PartialEq, Eq, Structural)]
pub enum Flag {
    Carry,
    Zero,
    DisableInterrupts,
    DecimalMode,
    Break,
    Unused,
    Overflow,
    Negative,
}

/// Bit position of a flag in the status register.
pub open spec fn flag_bit(flag: Flag) -> u8 {
    match flag {
        Flag::Carry => 0,
        Flag::Zero => 1,
        Flag::DisableInterrupts => 2,
        Flag::DecimalMode => 3,
        Flag::Break => 4,
        Flag::Unused => 5,
        Flag::Overflow => 6,
        Flag::Negative => 7,
    }
}

/// The status-register mask of a flag: the single bit at its position.
pub open spec fn flag_mask(flag: Flag) -> u8 {
    match flag {
        Flag::Carry => 0x01,
        Flag::Zero => 0x02,
        Flag::DisableInterrupts => 0x04,
        Flag::DecimalMode => 0x08,
        Flag::Break => 0x10,
        Flag::Unused => 0x20,
        Flag::Overflow => 0x40,
        Flag::Negative => 0x80,
    }
}

/// Whether `flag`'s bit is set in `status`.
pub open spec fn flag_is_set(status: u8, flag: Flag) -> bool {
    status & flag_mask(flag) != 0
}

/// `status` with `flag`'s bit set (when `val`) or cleared, every other bit kept.
pub open spec fn with_flag(status: u8, flag: Flag, val: bool) -> u8 {
    if val {
        status | flag_mask(flag)
    } else {
        status & !flag_mask(flag)
    }
}

/// `status` with Zero and Negative set from `value`.
pub open spec fn with_zn(status: u8, value: u8) -> u8 {
    with_flag(with_flag(status, Flag::Zero, value == 0), Flag::Negative, value >= 0x80)
}

/// The 16-bit value whose low byte is `lo` and high byte `hi`.
pub open spec fn word(lo: u8, hi: u8) -> u16 {
    (hi as int * 256 + lo as int) as u16
}

/// The memory page (high byte) of an address.
pub open spec fn page(addr: u16) -> int {
    addr as int / 256
}

/// 16-bit addition that wraps round the address space.
pub open spec fn add16(a: u16, b: u16) -> u16 {
    ((a as int + b as int) % 0x10000) as u16
}

/// The address one past `a`, wrapping from the top of memory to zero.
pub open spec fn inc16(a: u16) -> u16 {
    add16(a, 1)
}

/// The address one before `a`, wrapping from zero to the top of memory.
pub open spec fn dec16(a: u16) -> u16 {
    add16(a, 0xFFFF)
}

pub open spec fn inc8(v: u8) -> u8 {
    ((v as int + 1) % 256) as u8
}

pub open spec fn dec8(v: u8) -> u8 {
    ((v as int + 255) % 256) as u8
}

/// Where the stack pointer `sp` points: page 1.
pub open spec fn stack_addr(sp: u8) -> u16 {
    (0x0100 + sp as int) as u16
}

/// Entry points read on reset, on a maskable interrupt (and BRK), and on a
/// non-maskable interrupt.
pub const RESET_VECTOR: u16 = 0xFFFC;
pub const IRQ_VECTOR: u16 = 0xFFFE;
pub const NMI_VECTOR: u16 = 0xFFFA;

/// The processor as a mathematical value: its registers and latches, and the
/// memory behind its bus.
pub struct CpuState {
    pub pc: u16,
    pub status_flags: u8,
    pub stack_ptr: u8,
    pub a: u8,
    pub x: u8,
    pub y: u8,
    pub cycles: u8,
    pub fetched: u8,
    pub addr_abs: u16,
    pub addr_rel: u16,
    pub opcode: u8,
    pub mem: Seq<u8>,
}

/// The byte at `addr`.
pub open spec fn rd(m: CpuState, addr: u16) -> u8 {
    m.mem[addr as int]
}

/// The little-endian word at `addr` and the address after it.
pub open spec fn rd_word(m: CpuState, addr: u16) -> u16 {
    word(rd(m, addr), rd(m, inc16(addr)))
}

/// The operand of the instruction in flight: the latched value under Implied
/// addressing (the accumulator), else the byte at the resolved address.
pub open spec fn operand(m: CpuState) -> u8 {
    if summary_of(m.opcode).addr_mode == AddrMode::Implied {
        m.fetched
    } else {
        rd(m, m.addr_abs)
    }
}

/// `m` after pushing `value` onto the stack.
pub open spec fn pushed(m: CpuState, value: u8) -> CpuState {
    CpuState {
        mem: m.mem.update(stack_addr(m.stack_ptr) as int, value),
        stack_ptr: dec8(m.stack_ptr),
        ..m
    }
}

/// The byte that a pull from the stack of `m` yields.
pub open spec fn top(m: CpuState) -> u8 {
    rd(m, stack_addr(inc8(m.stack_ptr)))
}

/// `m` after pulling one byte from the stack.
pub open spec fn pulled(m: CpuState) -> CpuState {
    CpuState { stack_ptr: inc8(m.stack_ptr), ..m }
}

pub open spec fn with_status(m: CpuState, status: u8) -> CpuState {
    CpuState { status_flags: status, ..m }
}

/// A MOS 6502 processor attached to its memory bus.
pub struct Mos6502 {
    pub pc: u16,
    pub status_flags: u8,
    pub stack_ptr: u8,
    pub a: u8,
    pub x: u8,
    pub y: u8,
    pub bus: Bus,
    pub cycles: u8,
    pub fetched: u8,
    pub addr_abs: u16,
    pub addr_rel: u16,
    pub opcode: u8,
}

impl View for Mos6502 {
    type V = CpuState;

    open spec fn view(&self) -> CpuState {
        CpuState {
            pc: self.pc,
            status_flags: self.status_flags,
            stack_ptr: self.stack_ptr,
            a: self.a,
            x: self.x,
            y: self.y,
            cycles: self.cycles,
            fetched: self.fetched,
            addr_abs: self.addr_abs,
            addr_rel: self.addr_rel,
            opcode: self.opcode,
            mem: self.bus.view(),
        }
    }
}

pub(crate) fn wrapping_inc16(a: u16) -> (r: u16)
    ensures
        r == inc16(a),
{
    ((a as u32 + 1) % 0x10000) as u16
}

pub(crate) fn wrapping_add16(a: u16, b: u16) -> (r: u16)
    ensures
        r == add16(a, b),
{
    ((a as u32 + b as u32) % 0x10000) as u16
}

pub(crate) fn make_word(lo: u8, hi: u8) -> (r: u16)
    ensures
        r == word(lo, hi),
{
    hi as u16 * 256 + lo as u16
}

impl Mos6502 {
    /// A processor bound to `bus`, every register and latch zero.
    pub fn new(bus: Bus) -> (r: Self)
        ensures
            r@ == (CpuState {
                pc: 0,
                status_flags: 0,
                stack_ptr: 0,
                a: 0,
                x: 0,
                y: 0,
                cycles: 0,
                fetched: 0,
                addr_abs: 0,
                addr_rel: 0,
                opcode: 0,
                mem: bus.view(),
            }),
    {
        Self {
            pc: 0,
            stack_ptr: 0,
            status_flags: 0,
            a: 0,
            x: 0,
            y: 0,
            bus,
            cycles: 0,
            fetched: 0,
            addr_abs: 0,
            addr_rel: 0,
            opcode: 0,
        }
    }

    /// The byte at `addr`.
    pub fn read_byte(&self, addr: u16) -> (r: u8)
        ensures
            r == rd(self@, addr),
            self@.mem.len() == 0x10000,
    {
        self.bus.read(addr)
    }

    /// Writes `value` at `addr`, leaving registers and other bytes alone.
    pub fn write_byte(&mut self, addr: u16, value: u8)
        ensures
            final(self)@ == (CpuState { mem: old(self)@.mem.update(addr as int, value), ..old(self)@ }),
    {
        self.bus.write(addr, value);
    }

    /// The little-endian word at `addr` (the high byte from the address after,
    /// wrapping at the top of memory), with its high and low bytes.
    pub fn read_word_and_bytes(&self, addr: u16) -> (r: (u16, u8, u8))
        ensures
            r.2 == rd(self@, addr),
            r.1 == rd(self@, inc16(addr)),
            r.0 == word(r.2, r.1),
    {
        let low_byte = self.read_byte(addr);
        let high_byte = self.read_byte(wrapping_inc16(addr));
        (make_word(low_byte, high_byte), high_byte, low_byte)
    }

    /// The little-endian word at `addr`.
    pub fn read_word(&self, addr: u16) -> (r: u16)
        ensures
            r == rd_word(self@, addr),
    {
        self.read_word_and_bytes(addr).0
    }

    /// The opcode table entry of `opcode`.
    pub fn lookup_opcode(&self, opcode: u8) -> (r: InstructionSummary)
        ensures
            r == summary_of(opcode),
    {
        InstructionSummary::from(opcode)
    }

    /// Loads the operand of the instruction in flight into `fetched` and returns it.
    pub fn fetch(&mut self) -> (r: u8)
        ensures
            r == operand(old(self)@),
            final(self)@ == (CpuState { fetched: r, ..old(self)@ }),
    {
        match self.lookup_opcode(self.opcode).addr_mode {
            AddrMode::Implied => {},
            _ => {
                self.fetched = self.read_byte(self.addr_abs);
            },
        };
        self.fetched
    }

    /// Whether `flag` is set in the status register.
    pub fn get_flag(&self, flag: Flag) -> (r: bool)
        ensures
            r == flag_is_set(self.status_flags, flag),
    {
        let bit_mask = self.get_status_bit_mask(flag);
        self.status_flags & bit_mask != 0
    }

    /// Sets or clears exactly `flag`'s bit.
    pub fn set_flag(&mut self, flag: Flag, val: bool)
        ensures
            final(self)@ == with_status(old(self)@, with_flag(old(self).status_flags, flag, val)),
    {
        let bit_mask = self.get_status_bit_mask(flag);
        if val {
            self.status_flags = self.status_flags | bit_mask;
        } else {
            self.status_flags = self.status_flags & !bit_mask;
        }
    }

    fn get_status_bit_mask(&self, flag: Flag) -> (r: u8)
        ensures
            r == flag_mask(flag),
    {
        match flag {
            Flag::Carry => 0b00000001,
            Flag::Zero => 0b00000010,
            Flag::DisableInterrupts => 0b00000100,
            Flag::DecimalMode => 0b00001000,
            Flag::Break => 0b00010000,
            Flag::Unused => 0b00100000,
            Flag::Overflow => 0b01000000,
            Flag::Negative => 0b10000000,
        }
    }

    /// Sets Zero and Negative from `value`.
    pub fn set_zn(&mut self, value: u8)
        ensures
            final(self)@ == with_status(old(self)@, with_zn(old(self).status_flags, value)),
    {
        self.set_flag(Flag::Zero, value == 0);
        self.set_flag(Flag::Negative, value >= 0x80);
    }

    /// Pushes `value` onto the stack.
    pub fn push(&mut self, value: u8)
        ensures
            final(self)@ == pushed(old(self)@, value),
    {
        self.write_byte(0x0100 + self.stack_ptr as u16, value);
        self.stack_ptr = ((self.stack_ptr as u16 + 255) % 256) as u8;
    }

    /// Pulls one byte from the stack.
    pub fn pull(&mut self) -> (r: u8)
        ensures
            r == top(old(self)@),
            final(self)@ == pulled(old(self)@),
    {
        self.stack_ptr = ((self.stack_ptr as u16 + 1) % 256) as u8;
        self.read_byte(0x0100 + self.stack_ptr as u16)
    }
}

/// The cycle count an instruction is charged: its base count plus the extra
/// cycle signals of its addressing mode and of its operation, combined by OR.
pub open spec fn charged(base: u8, mode_extra: u8, op_extra: u8) -> int {
    base as int + (mode_extra | op_extra) as int
}

/// An idle machine's dispatch tick: fetch the opcode, resolve its operand, run
/// it, and load the cycle counter, of which this tick is the first.
#[verifier::opaque]
pub open spec fn dispatch(m: CpuState) -> CpuState {
    let opcode = rd(m, m.pc);
    let entry = summary_of(opcode);
    let m1 = CpuState { opcode, pc: inc16(m.pc), cycles: entry.cycles, ..m };
    let (m2, mode_extra) = resolve(m1, entry.addr_mode);
    let (m3, op_extra) = execute(m2, entry.instruction);
    CpuState { cycles: (charged(entry.cycles, mode_extra, op_extra) - 1) as u8, ..m3 }
}

/// One clock tick: dispatch when idle, else count down the instruction in flight.
pub open spec fn tick(m: CpuState) -> CpuState {
    if m.cycles == 0 {
        dispatch(m)
    } else {
        CpuState { cycles: (m.cycles - 1) as u8, ..m }
    }
}

/// Whether a tick of `m` dispatches a byte that names no instruction.
pub open spec fn dispatches_invalid(m: CpuState) -> bool {
    m.cycles == 0 && summary_of(rd(m, m.pc)).instruction == Instruction::InvalidInstruction
}

/// A whole instruction from an idle machine: its dispatch tick, then the
/// ticks that drain its cycles, which change nothing else.
pub open spec fn run_instruction(m: CpuState) -> CpuState {
    CpuState { cycles: 0, ..tick(m) }
}

/// Entry into an interrupt handler: return address and status (Break clear,
/// Unused set) pushed, interrupts disabled, `pc` loaded from `vector`.
pub open spec fn interrupted(m: CpuState, vector: u16, cycles: u8) -> CpuState {
    let status = with_flag(with_flag(m.status_flags, Flag::Break, false), Flag::Unused, true);
    let m1 = pushed(pushed_word(m, m.pc), status);
    CpuState {
        status_flags: with_flag(m.status_flags, Flag::DisableInterrupts, true),
        pc: rd_word(m1, vector),
        cycles,
        ..m1
    }
}

/// The machine after a reset request; one that is mid-instruction ignores it.
pub open spec fn after_reset(m: CpuState) -> CpuState {
    if m.cycles != 0 {
        m
    } else {
        CpuState {
            pc: rd_word(m, RESET_VECTOR),
            a: 0,
            x: 0,
            y: 0,
            stack_ptr: 0xFD,
            status_flags: flag_mask(Flag::Unused),
            addr_abs: 0,
            addr_rel: 0,
            fetched: 0,
            cycles: 8,
            ..m
        }
    }
}

/// The machine after an interrupt request: taken only when idle with
/// interrupts enabled.
pub open spec fn after_irq(m: CpuState) -> CpuState {
    if m.cycles != 0 || flag_is_set(m.status_flags, Flag::DisableInterrupts) {
        m
    } else {
        interrupted(m, IRQ_VECTOR, 7)
    }
}

/// The machine after a non-maskable interrupt: taken whenever idle.
pub open spec fn after_nmi(m: CpuState) -> CpuState {
    if m.cycles != 0 {
        m
    } else {
        interrupted(m, NMI_VECTOR, 8)
    }
}

proof fn lemma_stack_steps(sp: u8)
    ensures
        inc8(dec8(sp)) == sp,
        dec8(sp) != sp,
        stack_addr(dec8(sp)) != stack_addr(sp),
{
}

/// The state after one whole instruction from an idle machine, in three steps:
/// decode, resolve, execute.
proof fn lemma_run_steps(m: CpuState, opcode: u8, entry: InstructionSummary)
    requires
        m.cycles == 0,
        rd(m, m.pc) == opcode,
        summary_of(opcode) == entry,
    ensures
        ({
            let m1 = CpuState { opcode, pc: inc16(m.pc), cycles: entry.cycles, ..m };
            let m2 = resolve(m1, entry.addr_mode).0;
            run_instruction(m) == (CpuState { cycles: 0, ..execute(m2, entry.instruction).0 })
        }),
{
    reveal(dispatch);
}

proof fn lemma_run_jsr(m: CpuState)
    requires
        m.cycles == 0,
        rd(m, m.pc) == 0x20,
    ensures
        run_instruction(m).pc == rd_word(m, inc16(m.pc)),
        run_instruction(m).stack_ptr == dec8(dec8(m.stack_ptr)),
        run_instruction(m).mem == pushed_word(m, dec16(add16(inc16(m.pc), 2))).mem,
{
    let jsr = InstructionSummary {
        addr_mode: AddrMode::Absolute,
        instruction: Instruction::JSR_JumpToSavingReturnAddr,
        cycles: 6,
    };
    assert(summary_of(0x20) == jsr);
    lemma_run_steps(m, 0x20, jsr);
}

proof fn lemma_return_address(pc: u16)
    ensures
        dec16(add16(inc16(pc), 2)) == add16(pc, 2),
{
}

proof fn lemma_run_rts(m: CpuState)
    requires
        m.cycles == 0,
        rd(m, m.pc) == 0x60,
    ensures
        run_instruction(m).pc == inc16(word(top(m), top(pulled(m)))),
        run_instruction(m).stack_ptr == inc8(inc8(m.stack_ptr)),
{
    let rts = InstructionSummary {
        addr_mode: AddrMode::Implied,
        instruction: Instruction::RTS_ReturnFromSubroutine,
        cycles: 6,
    };
    assert(summary_of(0x60) == rts);
    lemma_run_steps(m, 0x60, rts);
}

proof fn lemma_run_pha(m: CpuState)
    requires
        m.cycles == 0,
        rd(m, m.pc) == 0x48,
    ensures
        run_instruction(m).stack_ptr == dec8(m.stack_ptr),
        run_instruction(m).mem == pushed(m, m.a).mem,
        run_instruction(m).a == m.a,
{
    let pha = InstructionSummary {
        addr_mode: AddrMode::Implied,
        instruction: Instruction::PHA_PushAccOnStack,
        cycles: 3,
    };
    assert(summary_of(0x48) == pha);
    lemma_run_steps(m, 0x48, pha);
}

proof fn lemma_run_pla(m: CpuState)
    requires
        m.cycles == 0,
        rd(m, m.pc) == 0x68,
    ensures
        run_instruction(m).a == top(m),
        run_instruction(m).stack_ptr == inc8(m.stack_ptr),
{
    let pla = InstructionSummary {
        addr_mode: AddrMode::Implied,
        instruction: Instruction::PLA_PullAccFromStack,
        cycles: 4,
    };
    assert(summary_of(0x68) == pla);
    lemma_run_steps(m, 0x68, pla);
}

/// A JSR (absolute) followed by an RTS resumes at the instruction after the
/// three-byte JSR, with the stack pointer back where it was.
pub proof fn lemma_jsr_rts_round_trip(m: CpuState)
    requires
        m.mem.len() == 0x10000,
        m.cycles == 0,
        rd(m, m.pc) == 0x20,
        rd(run_instruction(m), run_instruction(m).pc) == 0x60,
    ensures
        run_instruction(run_instruction(m)).pc == add16(m.pc, 3),
        run_instruction(run_instruction(m)).stack_ptr == m.stack_ptr,
{
    let m1 = run_instruction(m);
    let ret = add16(m.pc, 2);
    lemma_run_jsr(m);
    lemma_return_address(m.pc);
    lemma_run_rts(m1);
    lemma_stack_steps(m.stack_ptr);
    lemma_stack_steps(dec8(m.stack_ptr));
    assert(rd(m1, stack_addr(m.stack_ptr)) == (ret as int / 256) as u8);
    assert(rd(m1, stack_addr(dec8(m.stack_ptr))) == (ret as int % 256) as u8);
    assert(top(m1) == (ret as int % 256) as u8);
    assert(top(pulled(m1)) == (ret as int / 256) as u8);
    assert(word((ret as int % 256) as u8, (ret as int / 256) as u8) == ret);
}

/// A PHA followed by a PLA gives the accumulator back its value and leaves
/// the stack pointer where it was.
pub proof fn lemma_pha_pla_round_trip(m: CpuState)
    requires
        m.mem.len() == 0x10000,
        m.cycles == 0,
        rd(m, m.pc) == 0x48,
        rd(run_instruction(m), run_instruction(m).pc) == 0x68,
    ensures
        run_instruction(run_instruction(m)).a == m.a,
        run_instruction(run_instruction(m)).stack_ptr == m.stack_ptr,
{
    let m1 = run_instruction(m);
    lemma_run_pha(m);
    lemma_run_pla(m1);
    lemma_stack_steps(m.stack_ptr);
    assert(top(m1) == m.a);
}

proof fn lemma_mask_is_bit(flag: Flag)
    ensures
        flag_bit(flag) < 8,
        flag_mask(flag) == 1u8 << flag_bit(flag),
{
    assert(0x01u8 == 1u8 << 0u8 && 0x02u8 == 1u8 << 1u8 && 0x04u8 == 1u8 << 2u8 && 0x08u8
        == 1u8 << 3u8 && 0x10u8 == 1u8 << 4u8 && 0x20u8 == 1u8 << 5u8 && 0x40u8 == 1u8 << 6u8
        && 0x80u8 == 1u8 << 7u8) by (bit_vector);
}

proof fn lemma_single_bits(s: u8, i: u8, j: u8)
    requires
        i < 8,
        j < 8,
    ensures
        (s | (1u8 << i)) & (1u8 << i) != 0,
        (s & !(1u8 << i)) & (1u8 << i) == 0,
        i != j ==> (s | (1u8 << i)) & (1u8 << j) == s & (1u8 << j),
        i != j ==> (s & !(1u8 << i)) & (1u8 << j) == s & (1u8 << j),
{
    assert((s | (1u8 << i)) & (1u8 << i) != 0) by (bit_vector)
        requires
            i < 8,
    ;
    assert((s & !(1u8 << i)) & (1u8 << i) == 0) by (bit_vector)
        requires
            i < 8,
    ;
    assert(i != j ==> (s | (1u8 << i)) & (1u8 << j) == s & (1u8 << j)) by (bit_vector)
        requires
            i < 8,
            j < 8,
    ;
    assert(i != j ==> (s & !(1u8 << i)) & (1u8 << j) == s & (1u8 << j)) by (bit_vector)
        requires
            i < 8,
            j < 8,
    ;
}

/// Setting a flag and reading it back gives true, clearing it gives false, and
/// either leaves every other flag's bit of the status register as it was.
pub proof fn lemma_flag_round_trip(status: u8, flag: Flag, other: Flag, val: bool)
    ensures
        flag_is_set(with_flag(status, flag, true), flag),
        !flag_is_set(with_flag(status, flag, false), flag),
        other != flag ==> with_flag(status, flag, val) & flag_mask(other) == status & flag_mask(
            other,
        ),
        other != flag ==> flag_is_set(with_flag(status, flag, val), other) == flag_is_set(
            status,
            other,
        ),
{
    lemma_mask_is_bit(flag);
    lemma_mask_is_bit(other);
    lemma_single_bits(status, flag_bit(flag), flag_bit(other));
}

proof fn lemma_extra_bound(mode_extra: u8, op_extra: u8)
    requires
        mode_extra <= 1,
        op_extra <= 2,
    ensures
        (mode_extra | op_extra) <= 3,
{
    assert((mode_extra | op_extra) <= 3) by (bit_vector)
        requires
            mode_extra <= 1,
            op_extra <= 2,
    ;
}

impl Mos6502 {
    /// Advances one tick. When idle, fetches, decodes and executes the next
    /// instruction and loads its cycle count; otherwise counts one cycle down.
    /// Returns whether the byte dispatched names no instruction.
    pub fn clock(&mut self) -> (invalid: bool)
        ensures
            final(self)@ == tick(old(self)@),
            invalid == dispatches_invalid(old(self)@),
    {
        proof {
            reveal(dispatch);
        }
        if self.cycles == 0 {
            self.opcode = self.read_byte(self.pc);
            let entry = self.lookup_opcode(self.opcode);
            proof {
                lemma_table_total(self.opcode, self.opcode);
            }
            self.pc = wrapping_inc16(self.pc);
            self.cycles = entry.cycles;
            let mode_extra = self.handle_addr_mode(entry.addr_mode);
            let op_extra = self.handle_instruction(entry.instruction);
            proof {
                lemma_extra_bound(mode_extra, op_extra);
            }
            self.cycles = self.cycles + (mode_extra | op_extra) - 1;
            match entry.instruction {
                Instruction::InvalidInstruction => true,
                _ => false,
            }
        } else {
            self.cycles = self.cycles - 1;
            false
        }
    }

    /// Runs one whole instruction: ticks until the cycle counter is drained.
    pub fn step_instruction(&mut self) -> (invalid: bool)
        ensures
            final(self)@ == run_instruction(old(self)@),
            invalid == dispatches_invalid(old(self)@),
    {
        let ghost after = tick(self@);
        let invalid = self.clock();
        while self.cycles != 0
            invariant
                self@ == (CpuState { cycles: self.cycles, ..after }),
            decreases self.cycles,
        {
            self.clock();
        }
        invalid
    }

    /// Pushes the return address and status, disables interrupts, and enters
    /// the handler whose address is at `vector`.
    fn enter_interrupt(&mut self, vector: u16, cycles: u8)
        ensures
            final(self)@ == interrupted(old(self)@, vector, cycles),
    {
        let status = self.status_flags;
        self.push((self.pc / 256) as u8);
        self.push((self.pc % 256) as u8);
        self.set_flag(Flag::Break, false);
        self.set_flag(Flag::Unused, true);
        self.push(self.status_flags);
        self.status_flags = status;
        self.set_flag(Flag::DisableInterrupts, true);
        self.pc = self.read_word(vector);
        self.cycles = cycles;
    }

    /// Resets the processor: registers to their power-on values and `pc` from
    /// the reset vector. Ignored while an instruction is in flight.
    pub fn reset(&mut self)
        ensures
            final(self)@ == after_reset(old(self)@),
    {
        if self.cycles == 0 {
            self.pc = self.read_word(RESET_VECTOR);
            self.a = 0;
            self.x = 0;
            self.y = 0;
            self.stack_ptr = 0xFD;
            self.status_flags = self.get_status_bit_mask(Flag::Unused);
            self.addr_abs = 0;
            self.addr_rel = 0;
            self.fetched = 0;
            self.cycles = 8;
        }
    }

    /// Requests a maskable interrupt: taken only when idle and not disabled.
    pub fn irq(&mut self)
        ensures
            final(self)@ == after_irq(old(self)@),
    {
        if self.cycles == 0 && !self.get_flag(Flag::DisableInterrupts) {
            self.enter_interrupt(IRQ_VECTOR, 7);
        }
    }

    /// Requests a non-maskable interrupt: taken whenever idle.
    pub fn nmi(&mut self)
        ensures
            final(self)@ == after_nmi(old(self)@),
    {
        if self.cycles == 0 {
            self.enter_interrupt(NMI_VECTOR, 8);
        }
    }
}

} // verus!
