//! Addressing modes, operations, the opcode table that maps each opcode byte
//! to its descriptor, and the errors that can stop a run.

use vstd::prelude::*;

verus! {

/// How an instruction's encoded operand is turned into an effective address.
/// `NoneAddressing` is the sentinel for operations that take no memory operand.
#[derive(Clone, Copy, Debug)]
pub enum AddressingMode {
    Immediate,
    ZeroPage,
    ZeroPageX,
    ZeroPageY,
    Absolute,
    AbsoluteX,
    AbsoluteY,
    IndirectX,
    IndirectY,
    NoneAddressing,
}

/// The operations the executor implements.
#[derive(Clone, Copy, Debug)]
pub enum Operation {
    /// Load a byte from the operand address into the accumulator.
    Lda,
    /// Store the accumulator at the operand address.
    Sta,
    /// Copy the accumulator into index X.
    Tax,
    /// Copy the accumulator into index Y.
    Tay,
    /// Increment index X with 8-bit wraparound.
    Inx,
    /// Increment index Y with 8-bit wraparound.
    Iny,
    /// Terminate the dispatch loop.
    Brk,
}

/// The descriptor of one opcode byte: the operation it performs, the
/// addressing mode of its operand, and the total instruction length in bytes
/// including the opcode itself.
#[derive(Clone, Copy, Debug)]
pub struct OpCode {
    pub op: Operation,
    pub mode: AddressingMode,
    pub len: u8,
}

/// The two fatal error kinds of the core, plus the out-of-range case forced by
/// the memory size: the byte array holds `0xFFFF` entries, so address `0xFFFF`
/// itself is not backed and an instruction that touches it stops the run.
#[derive(Clone, Copy, Debug, PartialEq, Eq)]
pub enum EmuError {
    /// The fetched opcode byte has no entry in the opcode table. Carries the
    /// offending byte and the address it was fetched from.
    UnsupportedOpcode { opcode: u8, addr: u16 },
    /// The resolver was asked for an address in the no-addressing mode: an
    /// internal wiring defect, never a data-dependent condition.
    InvalidAddressingModeUse,
    /// An instruction fetch, operand read, or operand write touched an address
    /// that the memory does not back.
    AddressOutOfRange { addr: u16 },
}

/// The opcode table: the descriptor of each supported opcode byte.
pub open spec fn spec_opcode(code: u8) -> Option<OpCode> {
    match code {
        0x00u8 => Some(OpCode { op: Operation::Brk, mode: AddressingMode::NoneAddressing, len: 1 }),
        0xAAu8 => Some(OpCode { op: Operation::Tax, mode: AddressingMode::NoneAddressing, len: 1 }),
        0xA8u8 => Some(OpCode { op: Operation::Tay, mode: AddressingMode::NoneAddressing, len: 1 }),
        0xE8u8 => Some(OpCode { op: Operation::Inx, mode: AddressingMode::NoneAddressing, len: 1 }),
        0xC8u8 => Some(OpCode { op: Operation::Iny, mode: AddressingMode::NoneAddressing, len: 1 }),
        0xA9u8 => Some(OpCode { op: Operation::Lda, mode: AddressingMode::Immediate, len: 2 }),
        0xA5u8 => Some(OpCode { op: Operation::Lda, mode: AddressingMode::ZeroPage, len: 2 }),
        0xB5u8 => Some(OpCode { op: Operation::Lda, mode: AddressingMode::ZeroPageX, len: 2 }),
        0xADu8 => Some(OpCode { op: Operation::Lda, mode: AddressingMode::Absolute, len: 3 }),
        0xBDu8 => Some(OpCode { op: Operation::Lda, mode: AddressingMode::AbsoluteX, len: 3 }),
        0xB9u8 => Some(OpCode { op: Operation::Lda, mode: AddressingMode::AbsoluteY, len: 3 }),
        0xA1u8 => Some(OpCode { op: Operation::Lda, mode: AddressingMode::IndirectX, len: 2 }),
        0xB1u8 => Some(OpCode { op: Operation::Lda, mode: AddressingMode::IndirectY, len: 2 }),
        0x85u8 => Some(OpCode { op: Operation::Sta, mode: AddressingMode::ZeroPage, len: 2 }),
        0x95u8 => Some(OpCode { op: Operation::Sta, mode: AddressingMode::ZeroPageX, len: 2 }),
        0x8Du8 => Some(OpCode { op: Operation::Sta, mode: AddressingMode::Absolute, len: 3 }),
        0x9Du8 => Some(OpCode { op: Operation::Sta, mode: AddressingMode::AbsoluteX, len: 3 }),
        0x99u8 => Some(OpCode { op: Operation::Sta, mode: AddressingMode::AbsoluteY, len: 3 }),
        0x81u8 => Some(OpCode { op: Operation::Sta, mode: AddressingMode::IndirectX, len: 2 }),
        0x91u8 => Some(OpCode { op: Operation::Sta, mode: AddressingMode::IndirectY, len: 2 }),
        _ => None,
    }
}

/// Look an opcode byte up in the opcode table.
pub fn opcode_lookup(code: u8) -> (r: Option<OpCode>)
    ensures
        r == spec_opcode(code),
{
    match code {
        0x00u8 => Some(OpCode { op: Operation::Brk, mode: AddressingMode::NoneAddressing, len: 1 }),
        0xAAu8 => Some(OpCode { op: Operation::Tax, mode: AddressingMode::NoneAddressing, len: 1 }),
        0xA8u8 => Some(OpCode { op: Operation::Tay, mode: AddressingMode::NoneAddressing, len: 1 }),
        0xE8u8 => Some(OpCode { op: Operation::Inx, mode: AddressingMode::NoneAddressing, len: 1 }),
        0xC8u8 => Some(OpCode { op: Operation::Iny, mode: AddressingMode::NoneAddressing, len: 1 }),
        0xA9u8 => Some(OpCode { op: Operation::Lda, mode: AddressingMode::Immediate, len: 2 }),
        0xA5u8 => Some(OpCode { op: Operation::Lda, mode: AddressingMode::ZeroPage, len: 2 }),
        0xB5u8 => Some(OpCode { op: Operation::Lda, mode: AddressingMode::ZeroPageX, len: 2 }),
        0xADu8 => Some(OpCode { op: Operation::Lda, mode: AddressingMode::Absolute, len: 3 }),
        0xBDu8 => Some(OpCode { op: Operation::Lda, mode: AddressingMode::AbsoluteX, len: 3 }),
        0xB9u8 => Some(OpCode { op: Operation::Lda, mode: AddressingMode::AbsoluteY, len: 3 }),
        0xA1u8 => Some(OpCode { op: Operation::Lda, mode: AddressingMode::IndirectX, len: 2 }),
        0xB1u8 => Some(OpCode { op: Operation::Lda, mode: AddressingMode::IndirectY, len: 2 }),
        0x85u8 => Some(OpCode { op: Operation::Sta, mode: AddressingMode::ZeroPage, len: 2 }),
        0x95u8 => Some(OpCode { op: Operation::Sta, mode: AddressingMode::ZeroPageX, len: 2 }),
        0x8Du8 => Some(OpCode { op: Operation::Sta, mode: AddressingMode::Absolute, len: 3 }),
        0x9Du8 => Some(OpCode { op: Operation::Sta, mode: AddressingMode::AbsoluteX, len: 3 }),
        0x99u8 => Some(OpCode { op: Operation::Sta, mode: AddressingMode::AbsoluteY, len: 3 }),
        0x81u8 => Some(OpCode { op: Operation::Sta, mode: AddressingMode::IndirectX, len: 2 }),
        0x91u8 => Some(OpCode { op: Operation::Sta, mode: AddressingMode::IndirectY, len: 2 }),
        _ => None,
    }
}

/// Every entry of the opcode table encodes its operand in the number of bytes
/// its addressing mode consumes: none for the no-addressing sentinel, one for
/// the immediate, zero-page and indirect families, two for the absolute
/// family.
pub proof fn lemma_opcode_len(code: u8)
    ensures
        spec_opcode(code) matches Some(oc) ==> oc.len == (match oc.mode {
            AddressingMode::NoneAddressing => 1int,
            AddressingMode::Immediate => 2,
            AddressingMode::ZeroPage => 2,
            AddressingMode::ZeroPageX => 2,
            AddressingMode::ZeroPageY => 2,
            AddressingMode::IndirectX => 2,
            AddressingMode::IndirectY => 2,
            AddressingMode::Absolute => 3,
            AddressingMode::AbsoluteX => 3,
            AddressingMode::AbsoluteY => 3,
        }),
{
}

} // verus!
