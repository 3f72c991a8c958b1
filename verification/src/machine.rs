//! The mathematical model of the processor: a ghost state, the effective
//! operand address of each addressing mode, and one fetch-decode-execute-
//! advance step of the dispatch loop as a spec-level state machine.

use vstd::prelude::*;

use crate::flags::spec_set_flags;
use crate::opcode::AddressingMode;
use crate::opcode::EmuError;
use crate::opcode::OpCode;
use crate::opcode::Operation;
use crate::opcode::spec_opcode;
use crate::word::put_word;
use crate::word::word_at;
use crate::word::wrap_add16;
use crate::word::wrap_add8;

verus! {

/// Number of bytes the memory holds. Addresses run from `0x0000` to `0xFFFE`;
/// address `0xFFFF` itself is not backed.
pub const MEM_SIZE: usize = 0xFFFF;

/// The address the little-endian reset vector is stored at.
pub const RESET_VECTOR: u16 = 0xFFFC;

/// The address program images are loaded at.
pub const LOAD_ADDR: u16 = 0x8000;

/// The whole machine state: the register file and the memory contents.
#[verifier::ext_equal]
pub ghost struct State {
    pub a: u8,
    pub x: u8,
    pub y: u8,
    pub status: u8,
    pub pc: u16,
    pub mem: Seq<u8>,
}

/// The outcome of one dispatch step: the machine continues in a new state,
/// halts, or stops with a fatal error. `Halt` and `Fail` carry the state the
/// machine is left in.
pub ghost enum Step {
    Next(State),
    Halt(State),
    Fail(EmuError, State),
}

/// Whether the operand bytes of an instruction in this mode lie inside the
/// memory: modes with a one-byte operand read one byte at the program counter,
/// absolute-family modes read two.
pub open spec fn operand_bound_ok(s: State, mode: AddressingMode) -> bool {
    match mode {
        AddressingMode::Immediate => true,
        AddressingMode::NoneAddressing => true,
        AddressingMode::ZeroPage => s.pc < MEM_SIZE,
        AddressingMode::ZeroPageX => s.pc < MEM_SIZE,
        AddressingMode::ZeroPageY => s.pc < MEM_SIZE,
        AddressingMode::IndirectX => s.pc < MEM_SIZE,
        AddressingMode::IndirectY => s.pc < MEM_SIZE,
        AddressingMode::Absolute => s.pc + 2 <= MEM_SIZE,
        AddressingMode::AbsoluteX => s.pc + 2 <= MEM_SIZE,
        AddressingMode::AbsoluteY => s.pc + 2 <= MEM_SIZE,
    }
}

/// The effective operand address of each addressing mode, computed from the
/// program counter, the index registers, and the memory. Index additions wrap
/// at 8 bits for the zero-page family and at 16 bits for the absolute family.
pub open spec fn spec_operand_address(s: State, mode: AddressingMode) -> u16
    recommends
        !(mode is NoneAddressing),
        operand_bound_ok(s, mode),
{
    match mode {
        AddressingMode::Immediate => s.pc,
        AddressingMode::ZeroPage => s.mem[s.pc as int] as u16,
        AddressingMode::ZeroPageX => wrap_add8(s.mem[s.pc as int], s.x) as u16,
        AddressingMode::ZeroPageY => wrap_add8(s.mem[s.pc as int], s.y) as u16,
        AddressingMode::Absolute => word_at(s.mem, s.pc as int),
        AddressingMode::AbsoluteX => wrap_add16(word_at(s.mem, s.pc as int), s.x as u16),
        AddressingMode::AbsoluteY => wrap_add16(word_at(s.mem, s.pc as int), s.y as u16),
        AddressingMode::IndirectX => word_at(
            s.mem,
            wrap_add8(s.mem[s.pc as int], s.x) as int,
        ),
        AddressingMode::IndirectY => wrap_add16(
            word_at(s.mem, s.mem[s.pc as int] as int),
            s.y as u16,
        ),
        AddressingMode::NoneAddressing => 0,
    }
}

/// The memory cell an instruction in this mode works on, or the error that
/// stops the run: the no-addressing sentinel must never reach the resolver,
/// the operand bytes must lie inside the memory, and so must the resolved
/// address itself.
pub open spec fn operand_target(s: State, mode: AddressingMode) -> Result<u16, EmuError> {
    if mode is NoneAddressing {
        Err(EmuError::InvalidAddressingModeUse)
    } else if !operand_bound_ok(s, mode) {
        Err(EmuError::AddressOutOfRange { addr: s.pc })
    } else {
        let addr = spec_operand_address(s, mode);
        if addr >= MEM_SIZE {
            Err(EmuError::AddressOutOfRange { addr })
        } else {
            Ok(addr)
        }
    }
}

/// The state with the Zero and Negative flags recomputed from `result`.
pub open spec fn with_flags(s: State, result: u8) -> State {
    State { status: spec_set_flags(s.status, result), ..s }
}

/// The state with the program counter advanced past the operand bytes of an
/// instruction of total length `len`, wrapping at 16 bits.
pub open spec fn advanced(s: State, len: u8) -> State
    recommends
        1 <= len,
{
    State { pc: wrap_add16(s.pc, (len - 1) as u16), ..s }
}

/// What one decoded instruction does to the machine state. `s` is the state
/// after the opcode byte was fetched: the program counter points at the first
/// operand byte.
pub open spec fn step_op(s: State, oc: OpCode) -> Step {
    match oc.op {
        Operation::Brk => Step::Halt(s),
        Operation::Tax => Step::Next(advanced(with_flags(State { x: s.a, ..s }, s.a), oc.len)),
        Operation::Tay => Step::Next(advanced(with_flags(State { y: s.a, ..s }, s.a), oc.len)),
        Operation::Inx => {
            let v = wrap_add8(s.x, 1);
            Step::Next(advanced(with_flags(State { x: v, ..s }, v), oc.len))
        },
        Operation::Iny => {
            let v = wrap_add8(s.y, 1);
            Step::Next(advanced(with_flags(State { y: v, ..s }, v), oc.len))
        },
        Operation::Lda => match operand_target(s, oc.mode) {
            Ok(addr) => {
                let v = s.mem[addr as int];
                Step::Next(advanced(with_flags(State { a: v, ..s }, v), oc.len))
            },
            Err(e) => Step::Fail(e, s),
        },
        Operation::Sta => match operand_target(s, oc.mode) {
            Ok(addr) => Step::Next(
                advanced(State { mem: s.mem.update(addr as int, s.a), ..s }, oc.len),
            ),
            Err(e) => Step::Fail(e, s),
        },
    }
}

/// One step of the dispatch loop: fetch the opcode byte, look it up in the
/// opcode table, execute the operation, and advance the program counter past
/// the operand bytes.
pub open spec fn step_spec(s: State) -> Step {
    if s.pc >= MEM_SIZE {
        Step::Fail(EmuError::AddressOutOfRange { addr: s.pc }, s)
    } else {
        let code = s.mem[s.pc as int];
        let fetched = State { pc: (s.pc + 1) as u16, ..s };
        match spec_opcode(code) {
            None => Step::Fail(EmuError::UnsupportedOpcode { opcode: code, addr: s.pc }, fetched),
            Some(oc) => step_op(fetched, oc),
        }
    }
}

/// The machine after `n` steps of the dispatch loop: still running in some
/// state, halted, or failed. Once the machine halts or fails, further steps
/// change nothing.
pub open spec fn advance_n(s: State, n: nat) -> Step
    decreases n,
{
    if n == 0 {
        Step::Next(s)
    } else {
        match step_spec(s) {
            Step::Next(t) => advance_n(t, (n - 1) as nat),
            done => done,
        }
    }
}

/// Taking `n + 1` steps is taking `n` steps and then one more.
pub proof fn lemma_advance_snoc(s: State, n: nat)
    ensures
        advance_n(s, (n + 1) as nat) == (match advance_n(s, n) {
            Step::Next(t) => step_spec(t),
            done => done,
        }),
    decreases n,
{
    match step_spec(s) {
        Step::Next(t) => {
            if n == 0 {
                assert(advance_n(t, 0nat) == Step::Next(t));
                assert(advance_n(s, 1nat) == step_spec(s));
            } else {
                lemma_advance_snoc(t, (n - 1) as nat);
            }
        },
        Step::Halt(t) => {},
        Step::Fail(e, t) => {},
    }
}

/// The memory after a program image was copied in at `start`.
pub open spec fn overwrite_at(m: Seq<u8>, start: int, p: Seq<u8>) -> Seq<u8>
    recommends
        0 <= start,
        start + p.len() <= m.len(),
{
    Seq::new(m.len(), |i: int| if start <= i < start + p.len() { p[i - start] } else { m[i] })
}

/// The state after a program image was loaded: the image sits at `LOAD_ADDR`,
/// the reset vector points at `LOAD_ADDR`, and the registers are untouched.
pub open spec fn load_spec(s: State, prog: Seq<u8>) -> State
    recommends
        prog.len() <= MEM_SIZE - LOAD_ADDR,
{
    State { mem: put_word(overwrite_at(s.mem, LOAD_ADDR as int, prog), RESET_VECTOR as int, LOAD_ADDR), ..s }
}

/// The state after a reset: accumulator, index X and status are zeroed, index
/// Y is deliberately left as it was, and the program counter is read from the
/// reset vector.
pub open spec fn reset_spec(s: State) -> State {
    State { a: 0, x: 0, status: 0, pc: word_at(s.mem, RESET_VECTOR as int), ..s }
}

} // verus!
