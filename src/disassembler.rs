use vstd::prelude::*;
use crate::addr_modes::{sign_extend, AddrMode};
use crate::instruction_summary::{summary_of, InstructionSummary};
use crate::instructions::mnemonic_of;
use crate::mos_6502::{add16, make_word, word, wrapping_add16, Mos6502};

verus! {

/// The upper-case hexadecimal digit of `n` (below 16).
pub open spec fn hex_char(n: int) -> char {
    if 0 <= n < 10 {
        (n + '0' as int) as char
    } else {
        (n - 10 + 'A' as int) as char
    }
}

/// `b` as two hexadecimal digits.
pub open spec fn hex2(b: u8) -> Seq<char> {
    seq![hex_char(b as int / 16), hex_char(b as int % 16)]
}

/// `w` as four hexadecimal digits.
pub open spec fn hex4(w: u16) -> Seq<char> {
    hex2((w as int / 256) as u8) + hex2((w as int % 256) as u8)
}

/// The byte at address `addr`, taken round the 16-bit space.
pub open spec fn byte_at(mem: Seq<u8>, addr: int) -> u8 {
    mem[addr % 0x10000]
}

/// How many operand bytes follow the opcode under `mode`.
pub open spec fn operand_len(mode: AddrMode) -> nat {
    match mode {
        AddrMode::Implied => 0,
        AddrMode::Absolute | AddrMode::AbsoluteOffsetX | AddrMode::AbsoluteOffsetY
        | AddrMode::Indirect => 2,
        _ => 1,
    }
}

/// The operand text of the instruction at `addr` under `mode`.
pub open spec fn operand_text(mem: Seq<u8>, addr: int, mode: AddrMode) -> Seq<char> {
    let b = byte_at(mem, addr + 1);
    let w = word(b, byte_at(mem, addr + 2));
    match mode {
        AddrMode::Implied => seq![],
        AddrMode::Immediate => "#$"@ + hex2(b),
        AddrMode::ZeroPage => "$"@ + hex2(b),
        AddrMode::ZeroPageOffsetX => "$"@ + hex2(b) + ", X"@,
        AddrMode::ZeroPageOffsetY => "$"@ + hex2(b) + ", Y"@,
        AddrMode::Absolute => "$"@ + hex4(w),
        AddrMode::AbsoluteOffsetX => "$"@ + hex4(w) + ", X"@,
        AddrMode::AbsoluteOffsetY => "$"@ + hex4(w) + ", Y"@,
        AddrMode::Indirect => "($"@ + hex4(w) + ")"@,
        AddrMode::IndirectOffsetX => "($"@ + hex2(b) + ", X)"@,
        AddrMode::IndirectOffsetY => "($"@ + hex2(b) + "), Y"@,
        AddrMode::Relative => {
            let target = add16(((addr + 2) % 0x10000) as u16, sign_extend(b));
            "$"@ + hex2(b) + " [$"@ + hex4(target) + "]"@
        },
    }
}

/// The text of the instruction at `addr`: its mnemonic, then a space and its
/// operand where it has one.
pub open spec fn line_at(mem: Seq<u8>, addr: int) -> Seq<char> {
    let entry = summary_of(byte_at(mem, addr));
    let text = operand_text(mem, addr, entry.addr_mode);
    if entry.addr_mode == AddrMode::Implied {
        mnemonic_of(entry.instruction)
    } else {
        mnemonic_of(entry.instruction) + " "@ + text
    }
}

/// The address of the instruction after the one at `addr`.
pub open spec fn next_addr(mem: Seq<u8>, addr: int) -> int {
    addr + 1 + operand_len(summary_of(byte_at(mem, addr)).addr_mode)
}

/// The lines of the instructions that start at `addr`, then one after another,
/// up to those starting at or before `end`.
pub open spec fn listing(mem: Seq<u8>, addr: int, end: int) -> Seq<Seq<char>>
    decreases (if addr > end { 0 } else { end + 1 - addr }),
{
    if addr > end {
        seq![]
    } else {
        seq![line_at(mem, addr)] + listing(mem, next_addr(mem, addr), end)
    }
}

fn hex_digit(n: u8) -> (r: &'static str)
    requires
        n < 16,
    ensures
        r@ == seq![hex_char(n as int)],
{
    match n {
        0 => {
            proof {
                reveal_strlit("0");
            }
            "0"
        },
        1 => {
            proof {
                reveal_strlit("1");
            }
            "1"
        },
        2 => {
            proof {
                reveal_strlit("2");
            }
            "2"
        },
        3 => {
            proof {
                reveal_strlit("3");
            }
            "3"
        },
        4 => {
            proof {
                reveal_strlit("4");
            }
            "4"
        },
        5 => {
            proof {
                reveal_strlit("5");
            }
            "5"
        },
        6 => {
            proof {
                reveal_strlit("6");
            }
            "6"
        },
        7 => {
            proof {
                reveal_strlit("7");
            }
            "7"
        },
        8 => {
            proof {
                reveal_strlit("8");
            }
            "8"
        },
        9 => {
            proof {
                reveal_strlit("9");
            }
            "9"
        },
        10 => {
            proof {
                reveal_strlit("A");
            }
            "A"
        },
        11 => {
            proof {
                reveal_strlit("B");
            }
            "B"
        },
        12 => {
            proof {
                reveal_strlit("C");
            }
            "C"
        },
        13 => {
            proof {
                reveal_strlit("D");
            }
            "D"
        },
        14 => {
            proof {
                reveal_strlit("E");
            }
            "E"
        },
        _ => {
            proof {
                reveal_strlit("F");
            }
            "F"
        },
    }
}

fn append_hex2(s: &mut String, b: u8)
    ensures
        final(s)@ == old(s)@ + hex2(b),
{
    s.append(hex_digit(b / 16));
    s.append(hex_digit(b % 16));
}

fn append_hex4(s: &mut String, w: u16)
    ensures
        final(s)@ == old(s)@ + hex4(w),
{
    append_hex2(s, (w / 256) as u8);
    append_hex2(s, (w % 256) as u8);
}

fn operand_size(mode: AddrMode) -> (r: u32)
    ensures
        r == operand_len(mode),
{
    match mode {
        AddrMode::Implied => 0,
        AddrMode::Absolute | AddrMode::AbsoluteOffsetX | AddrMode::AbsoluteOffsetY
        | AddrMode::Indirect => 2,
        _ => 1,
    }
}

/// The byte at `addr` taken round the 16-bit space.
fn byte_at_wrapped(cpu: &Mos6502, addr: u32) -> (r: u8)
    ensures
        r == byte_at(cpu@.mem, addr as int),
{
    cpu.read_byte((addr % 0x10000) as u16)
}

/// Appends the operand text of the instruction at `addr` under `mode`.
fn append_operand(s: &mut String, cpu: &Mos6502, addr: u32, mode: AddrMode)
    requires
        addr < 0x10000,
    ensures
        final(s)@ == old(s)@ + operand_text(cpu@.mem, addr as int, mode),
{
    let b = byte_at_wrapped(cpu, addr + 1);
    let w = make_word(b, byte_at_wrapped(cpu, addr + 2));
    let ghost start = s@;
    match mode {
        AddrMode::Implied => {
            assert(s@ =~= start + seq![]);
        },
        AddrMode::Immediate => {
            s.append("#$");
            append_hex2(s, b);
        },
        AddrMode::ZeroPage => {
            s.append("$");
            append_hex2(s, b);
        },
        AddrMode::ZeroPageOffsetX => {
            s.append("$");
            append_hex2(s, b);
            s.append(", X");
        },
        AddrMode::ZeroPageOffsetY => {
            s.append("$");
            append_hex2(s, b);
            s.append(", Y");
        },
        AddrMode::Absolute => {
            s.append("$");
            append_hex4(s, w);
        },
        AddrMode::AbsoluteOffsetX => {
            s.append("$");
            append_hex4(s, w);
            s.append(", X");
        },
        AddrMode::AbsoluteOffsetY => {
            s.append("$");
            append_hex4(s, w);
            s.append(", Y");
        },
        AddrMode::Indirect => {
            s.append("($");
            append_hex4(s, w);
            s.append(")");
        },
        AddrMode::IndirectOffsetX => {
            s.append("($");
            append_hex2(s, b);
            s.append(", X)");
        },
        AddrMode::IndirectOffsetY => {
            s.append("($");
            append_hex2(s, b);
            s.append("), Y");
        },
        AddrMode::Relative => {
            let d: u16 = if b >= 0x80 {
                b as u16 + 0xFF00
            } else {
                b as u16
            };
            let target = wrapping_add16(((addr + 2) % 0x10000) as u16, d);
            s.append("$");
            append_hex2(s, b);
            s.append(" [$");
            append_hex4(s, target);
            s.append("]");
        },
    }
    assert(s@ =~= start + operand_text(cpu@.mem, addr as int, mode));
}

/// The text of the instruction at `addr`.
fn line_text(cpu: &Mos6502, addr: u32) -> (r: String)
    requires
        addr < 0x10000,
    ensures
        r@ == line_at(cpu@.mem, addr as int),
{
    let entry = InstructionSummary::from_opcode(byte_at_wrapped(cpu, addr));
    let mut s = entry.instruction.to_string();
    match entry.addr_mode {
        AddrMode::Implied => {},
        _ => {
            s.append(" ");
            append_operand(&mut s, cpu, addr, entry.addr_mode);
        },
    }
    s
}

/// Renders the instructions from `start` on, one line each, up to the last
/// one that starts at or before `end`. Reads memory only.
pub fn disassemble(cpu: &Mos6502, start: u16, end: u16) -> (r: Vec<String>)
    ensures
        r@.map_values(|l: String| l@) == listing(cpu@.mem, start as int, end as int),
{
    let ghost mem = cpu@.mem;
    let mut pc: u32 = start as u32;
    let mut lines: Vec<String> = Vec::new();
    let ghost done: Seq<Seq<char>> = seq![];
    while pc <= end as u32
        invariant
            start <= pc <= 0x10002,
            mem == cpu@.mem,
            lines@.map_values(|l: String| l@) == done,
            listing(mem, start as int, end as int) == done + listing(mem, pc as int, end as int),
        decreases 0x10002 - pc,
    {
        let line = line_text(cpu, pc);
        let entry = InstructionSummary::from_opcode(byte_at_wrapped(cpu, pc));
        proof {
            let rest = listing(mem, next_addr(mem, pc as int), end as int);
            assert(listing(mem, pc as int, end as int) == seq![line@] + rest);
            assert(done + (seq![line@] + rest) =~= done.push(line@) + rest);
            done = done.push(line@);
        }
        lines.push(line);
        assert(lines@.map_values(|l: String| l@) =~= done);
        pc = pc + 1 + operand_size(entry.addr_mode);
    }
    assert(done + listing(mem, pc as int, end as int) =~= done);
    lines
}

} // verus!
