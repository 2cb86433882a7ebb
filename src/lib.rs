pub mod addr_modes;
pub mod bus;
pub mod instruction_summary;
pub mod instructions;
pub mod mos_6502;
pub mod disassembler;
