//! The processor itself: the register file, the owned memory, the addressing
//! resolver, the instruction executors, and the dispatch loop.

use vstd::prelude::*;

use crate::flags::lemma_set_flags;
use crate::flags::negative_flag;
use crate::flags::spec_set_flags;
use crate::flags::spec_set_negative;
use crate::flags::spec_set_zero;
use crate::flags::zero_flag;
use crate::flags::NEGATIVE_FLAG_BIT;
use crate::flags::ZERO_FLAG_BIT;
use crate::machine::advance_n;
use crate::machine::lemma_advance_snoc;
use crate::machine::load_spec;
use crate::machine::operand_bound_ok;
use crate::machine::operand_target;
use crate::machine::reset_spec;
use crate::machine::spec_operand_address;
use crate::machine::step_spec;
use crate::machine::State;
use crate::machine::Step;
use crate::machine::LOAD_ADDR;
use crate::machine::MEM_SIZE;
use crate::machine::RESET_VECTOR;
use crate::opcode::opcode_lookup;
use crate::opcode::lemma_opcode_len;
use crate::opcode::AddressingMode;
use crate::opcode::EmuError;
use crate::opcode::Operation;
use crate::word::lemma_exec_wrap_add16;
use crate::word::lemma_exec_wrap_add8;
use crate::word::put_word;
use crate::word::word_at;
use crate::word::wrap_add8;

verus! {

/// The processor: accumulator, index registers, status byte, program counter,
/// and the flat byte-addressable memory it exclusively owns.
pub struct CPU {
    pub register_a: u8,
    pub register_x: u8,
    pub register_y: u8,
    pub status: u8,
    pub pc: u16,
    pub memory: Vec<u8>,
}

impl CPU {
    /// The memory contents as a byte sequence.
    pub open spec fn mem(self) -> Seq<u8> {
        self.memory@
    }

    /// Well-formedness: the memory holds exactly `MEM_SIZE` bytes. Established
    /// by `new` and preserved by every operation.
    pub open spec fn wf(self) -> bool {
        self.mem().len() == MEM_SIZE
    }

    /// The machine state this processor is in.
    pub open spec fn state(self) -> State {
        State {
            a: self.register_a,
            x: self.register_x,
            y: self.register_y,
            status: self.status,
            pc: self.pc,
            mem: self.mem(),
        }
    }

    /// A processor with all registers zeroed and all memory bytes zero.
    pub fn new() -> (cpu: CPU)
        ensures
            cpu.wf(),
            cpu.register_a == 0,
            cpu.register_x == 0,
            cpu.register_y == 0,
            cpu.status == 0,
            cpu.pc == 0,
            forall|i: int| 0 <= i < MEM_SIZE ==> cpu.mem()[i] == 0,
    {
        let mut memory: Vec<u8> = Vec::new();
        while memory.len() < MEM_SIZE
            invariant
                memory@.len() <= MEM_SIZE,
                forall|i: int| 0 <= i < memory@.len() ==> memory@[i] == 0,
            decreases MEM_SIZE - memory@.len(),
        {
            memory.push(0);
        }
        CPU { register_a: 0, register_x: 0, register_y: 0, status: 0, pc: 0, memory }
    }

    // Memory

    /// Read the byte at `addr`.
    pub fn mem_read(&self, addr: u16) -> (r: u8)
        requires
            self.wf(),
            addr < MEM_SIZE,
        ensures
            r == self.mem()[addr as int],
    {
        self.memory[addr as usize]
    }

    /// Write `data` at `addr`; the write is visible to all subsequent reads.
    pub fn mem_write(&mut self, addr: u16, data: u8)
        requires
            old(self).wf(),
            addr < MEM_SIZE,
        ensures
            final(self).wf(),
            final(self).state() == (State {
                mem: old(self).mem().update(addr as int, data),
                ..old(self).state()
            }),
    {
        self.memory[addr as usize] = data;
    }

    /// Read the little-endian 16-bit word whose low byte sits at `pos`.
    pub fn mem_read_u16(&self, pos: u16) -> (r: u16)
        requires
            self.wf(),
            pos + 2 <= MEM_SIZE,
        ensures
            r == word_at(self.mem(), pos as int),
    {
        let lo = self.mem_read(pos) as u16;
        let hi = self.mem_read(pos + 1) as u16;
        let r = (hi << 8) | lo;
        proof {
            assert((hi << 8) | lo == lo + 256 * hi) by (bit_vector)
                requires
                    hi < 256,
                    lo < 256,
            ;
        }
        r
    }

    /// Split `data` into its low and high byte and store them little-endian at
    /// `pos` and `pos + 1`.
    pub fn mem_write_u16(&mut self, pos: u16, data: u16)
        requires
            old(self).wf(),
            pos + 2 <= MEM_SIZE,
        ensures
            final(self).wf(),
            final(self).state() == (State {
                mem: put_word(old(self).mem(), pos as int, data),
                ..old(self).state()
            }),
    {
        let hi = (data >> 8) as u8;
        let lo = (data & 0xff) as u8;
        proof {
            assert((data & 0xff) as u8 == (data % 256) as u8) by (bit_vector);
            assert((data >> 8) as u8 == (data / 256) as u8) by (bit_vector);
        }
        self.mem_write(pos, lo);
        self.mem_write(pos + 1, hi);
    }

    // Flags

    /// Record `result` in the Zero flag: set iff `result` is zero.
    pub fn update_zero_flag(&mut self, result: u8)
        ensures
            final(self).state() == (State {
                status: spec_set_zero(old(self).status, result),
                ..old(self).state()
            }),
    {
        if result == 0 {
            self.status = self.status | ZERO_FLAG_BIT;
        } else {
            self.status = self.status & !ZERO_FLAG_BIT;
        }
    }

    /// Record `result` in the Negative flag: set iff bit 7 of `result` is 1.
    pub fn update_negative_flag(&mut self, result: u8)
        ensures
            final(self).state() == (State {
                status: spec_set_negative(old(self).status, result),
                ..old(self).state()
            }),
    {
        if result & NEGATIVE_FLAG_BIT != 0 {
            self.status = self.status | NEGATIVE_FLAG_BIT;
        } else {
            self.status = self.status & !NEGATIVE_FLAG_BIT;
        }
    }

    // Addressing resolver

    /// The effective operand address for `mode`, computed from the program
    /// counter, the index registers, and memory. The no-addressing sentinel
    /// must never reach the resolver and is answered with
    /// `InvalidAddressingModeUse`. Zero-page-family additions wrap at 8 bits
    /// and never carry into the high byte; absolute-family additions wrap at
    /// 16 bits.
    pub fn get_operand_address(&self, mode: &AddressingMode) -> (r: Result<u16, EmuError>)
        requires
            self.wf(),
            operand_bound_ok(self.state(), *mode),
        ensures
            (match *mode {
                AddressingMode::NoneAddressing => r == Err::<u16, EmuError>(
                    EmuError::InvalidAddressingModeUse,
                ),
                _ => r == Ok::<u16, EmuError>(spec_operand_address(self.state(), *mode)),
            }),
            (*mode is ZeroPage || *mode is ZeroPageX || *mode is ZeroPageY) ==> (r matches Ok(
                addr,
            ) && addr < 0x100),
    {
        match mode {
            AddressingMode::Immediate => Ok(self.pc),
            AddressingMode::ZeroPage => Ok(self.mem_read(self.pc) as u16),
            AddressingMode::Absolute => Ok(self.mem_read_u16(self.pc)),
            AddressingMode::ZeroPageX => {
                let pos = self.mem_read(self.pc);
                let addr = pos.wrapping_add(self.register_x) as u16;
                proof {
                    lemma_exec_wrap_add8(pos, self.register_x);
                }
                Ok(addr)
            },
            AddressingMode::ZeroPageY => {
                let pos = self.mem_read(self.pc);
                let addr = pos.wrapping_add(self.register_y) as u16;
                proof {
                    lemma_exec_wrap_add8(pos, self.register_y);
                }
                Ok(addr)
            },
            AddressingMode::AbsoluteX => {
                let base = self.mem_read_u16(self.pc);
                let addr = base.wrapping_add(self.register_x as u16);
                proof {
                    lemma_exec_wrap_add16(base, self.register_x as u16);
                }
                Ok(addr)
            },
            AddressingMode::AbsoluteY => {
                let base = self.mem_read_u16(self.pc);
                let addr = base.wrapping_add(self.register_y as u16);
                proof {
                    lemma_exec_wrap_add16(base, self.register_y as u16);
                }
                Ok(addr)
            },
            AddressingMode::IndirectX => {
                let base = self.mem_read(self.pc);
                let ptr = base.wrapping_add(self.register_x);
                proof {
                    lemma_exec_wrap_add8(base, self.register_x);
                }
                Ok(self.mem_read_u16(ptr as u16))
            },
            AddressingMode::IndirectY => {
                let base = self.mem_read(self.pc);
                let deref_base = self.mem_read_u16(base as u16);
                let deref = deref_base.wrapping_add(self.register_y as u16);
                proof {
                    lemma_exec_wrap_add16(deref_base, self.register_y as u16);
                }
                Ok(deref)
            },
            AddressingMode::NoneAddressing => Err(EmuError::InvalidAddressingModeUse),
        }
    }

    // Instruction executors

    /// Load the byte at the operand address into the accumulator and recompute
    /// the Zero and Negative flags from the loaded value.
    pub fn lda(&mut self, mode: &AddressingMode) -> (r: Result<(), EmuError>)
        requires
            old(self).wf(),
            operand_bound_ok(old(self).state(), *mode),
        ensures
            final(self).wf(),
            final(self).pc == old(self).pc,
            final(self).register_x == old(self).register_x,
            final(self).register_y == old(self).register_y,
            final(self).mem() == old(self).mem(),
            (match r {
                Ok(()) => ({
                    let addr = spec_operand_address(old(self).state(), *mode);
                    &&& operand_target(old(self).state(), *mode) == Ok::<u16, EmuError>(addr)
                    &&& final(self).register_a == old(self).mem()[addr as int]
                    &&& final(self).status == spec_set_flags(
                        old(self).status,
                        final(self).register_a,
                    )
                    &&& (zero_flag(final(self).status) <==> final(self).register_a == 0)
                    &&& (negative_flag(final(self).status) <==> final(self).register_a & 0x80
                        != 0)
                }),
                Err(e) => ({
                    &&& operand_target(old(self).state(), *mode) == Err::<u16, EmuError>(e)
                    &&& final(self).register_a == old(self).register_a
                    &&& final(self).status == old(self).status
                }),
            }),
    {
        let addr = match self.get_operand_address(mode) {
            Ok(a) => a,
            Err(e) => {
                return Err(e);
            },
        };
        if addr >= MEM_SIZE as u16 {
            return Err(EmuError::AddressOutOfRange { addr });
        }
        let value = self.mem_read(addr);
        self.register_a = value;
        self.update_zero_flag(self.register_a);
        self.update_negative_flag(self.register_a);
        proof {
            lemma_set_flags(old(self).status, value);
        }
        Ok(())
    }

    /// Store the accumulator at the operand address. No flag update.
    pub fn sta(&mut self, mode: &AddressingMode) -> (r: Result<(), EmuError>)
        requires
            old(self).wf(),
            operand_bound_ok(old(self).state(), *mode),
        ensures
            final(self).wf(),
            final(self).pc == old(self).pc,
            final(self).register_a == old(self).register_a,
            final(self).register_x == old(self).register_x,
            final(self).register_y == old(self).register_y,
            final(self).status == old(self).status,
            (match r {
                Ok(()) => ({
                    let addr = spec_operand_address(old(self).state(), *mode);
                    &&& operand_target(old(self).state(), *mode) == Ok::<u16, EmuError>(addr)
                    &&& final(self).mem() == old(self).mem().update(
                        addr as int,
                        old(self).register_a,
                    )
                }),
                Err(e) => ({
                    &&& operand_target(old(self).state(), *mode) == Err::<u16, EmuError>(e)
                    &&& final(self).mem() == old(self).mem()
                }),
            }),
    {
        let addr = match self.get_operand_address(mode) {
            Ok(a) => a,
            Err(e) => {
                return Err(e);
            },
        };
        if addr >= MEM_SIZE as u16 {
            return Err(EmuError::AddressOutOfRange { addr });
        }
        self.mem_write(addr, self.register_a);
        Ok(())
    }

    /// Copy the accumulator into index X and recompute the flags from the new
    /// index X value.
    pub fn tax(&mut self)
        ensures
            final(self).register_x == old(self).register_a,
            final(self).register_a == old(self).register_a,
            final(self).register_y == old(self).register_y,
            final(self).pc == old(self).pc,
            final(self).mem() == old(self).mem(),
            final(self).status == spec_set_flags(old(self).status, final(self).register_x),
            zero_flag(final(self).status) <==> final(self).register_x == 0,
            negative_flag(final(self).status) <==> final(self).register_x & 0x80 != 0,
    {
        self.register_x = self.register_a;
        self.update_zero_flag(self.register_x);
        self.update_negative_flag(self.register_x);
        proof {
            lemma_set_flags(old(self).status, self.register_x);
        }
    }

    /// Copy the accumulator into index Y and recompute the flags from the new
    /// index Y value.
    pub fn tay(&mut self)
        ensures
            final(self).register_y == old(self).register_a,
            final(self).register_a == old(self).register_a,
            final(self).register_x == old(self).register_x,
            final(self).pc == old(self).pc,
            final(self).mem() == old(self).mem(),
            final(self).status == spec_set_flags(old(self).status, final(self).register_y),
            zero_flag(final(self).status) <==> final(self).register_y == 0,
            negative_flag(final(self).status) <==> final(self).register_y & 0x80 != 0,
    {
        self.register_y = self.register_a;
        self.update_zero_flag(self.register_y);
        self.update_negative_flag(self.register_y);
        proof {
            lemma_set_flags(old(self).status, self.register_y);
        }
    }

    /// Increment index X with 8-bit wraparound and recompute the flags from
    /// the new value.
    pub fn inx(&mut self)
        ensures
            final(self).register_x == wrap_add8(old(self).register_x, 1),
            final(self).register_a == old(self).register_a,
            final(self).register_y == old(self).register_y,
            final(self).pc == old(self).pc,
            final(self).mem() == old(self).mem(),
            final(self).status == spec_set_flags(old(self).status, final(self).register_x),
            zero_flag(final(self).status) <==> final(self).register_x == 0,
            negative_flag(final(self).status) <==> final(self).register_x & 0x80 != 0,
    {
        proof {
            lemma_exec_wrap_add8(self.register_x, 1);
        }
        self.register_x = self.register_x.wrapping_add(1);
        self.update_zero_flag(self.register_x);
        self.update_negative_flag(self.register_x);
        proof {
            lemma_set_flags(old(self).status, self.register_x);
        }
    }

    /// Increment index Y with 8-bit wraparound and recompute the flags from
    /// the new value.
    pub fn iny(&mut self)
        ensures
            final(self).register_y == wrap_add8(old(self).register_y, 1),
            final(self).register_a == old(self).register_a,
            final(self).register_x == old(self).register_x,
            final(self).pc == old(self).pc,
            final(self).mem() == old(self).mem(),
            final(self).status == spec_set_flags(old(self).status, final(self).register_y),
            zero_flag(final(self).status) <==> final(self).register_y == 0,
            negative_flag(final(self).status) <==> final(self).register_y & 0x80 != 0,
    {
        proof {
            lemma_exec_wrap_add8(self.register_y, 1);
        }
        self.register_y = self.register_y.wrapping_add(1);
        self.update_zero_flag(self.register_y);
        self.update_negative_flag(self.register_y);
        proof {
            lemma_set_flags(old(self).status, self.register_y);
        }
    }

    // Reset and program loading

    /// Zero the accumulator, index X, and the status byte — index Y is
    /// deliberately left as it was — and set the program counter from the
    /// little-endian reset vector.
    pub fn reset(&mut self)
        requires
            old(self).wf(),
        ensures
            final(self).wf(),
            final(self).state() == reset_spec(old(self).state()),
    {
        self.register_a = 0;
        self.register_x = 0;
        self.status = 0;
        self.pc = self.mem_read_u16(RESET_VECTOR);
    }

    /// Copy a program image into memory starting at `LOAD_ADDR` and write
    /// `LOAD_ADDR` as the little-endian reset vector. The image must fit in
    /// the address space above `LOAD_ADDR`.
    pub fn load(&mut self, program: Vec<u8>)
        requires
            old(self).wf(),
            program@.len() <= MEM_SIZE - LOAD_ADDR,
        ensures
            final(self).wf(),
            final(self).state() == load_spec(old(self).state(), program@),
    {
        let mut i: usize = 0;
        while i < program.len()
            invariant
                self.wf(),
                i <= program@.len(),
                program@.len() <= MEM_SIZE - LOAD_ADDR,
                self.register_a == old(self).register_a,
                self.register_x == old(self).register_x,
                self.register_y == old(self).register_y,
                self.status == old(self).status,
                self.pc == old(self).pc,
                forall|j: int|
                    0 <= j < MEM_SIZE ==> self.mem()[j] == (if LOAD_ADDR <= j < LOAD_ADDR + i {
                        program@[j - LOAD_ADDR]
                    } else {
                        old(self).mem()[j]
                    }),
            decreases program@.len() - i,
        {
            self.mem_write(LOAD_ADDR + (i as u16), program[i]);
            i = i + 1;
        }
        self.mem_write_u16(RESET_VECTOR, LOAD_ADDR);
        proof {
            assert(self.mem() =~= load_spec(old(self).state(), program@).mem);
        }
    }

    // Dispatch loop

    /// Whether the operand bytes for `mode` lie inside the memory at the
    /// current program counter.
    fn operand_in_bounds(&self, mode: &AddressingMode) -> (b: bool)
        ensures
            b == operand_bound_ok(self.state(), *mode),
    {
        match mode {
            AddressingMode::Immediate => true,
            AddressingMode::NoneAddressing => true,
            AddressingMode::ZeroPage => (self.pc as usize) < MEM_SIZE,
            AddressingMode::ZeroPageX => (self.pc as usize) < MEM_SIZE,
            AddressingMode::ZeroPageY => (self.pc as usize) < MEM_SIZE,
            AddressingMode::IndirectX => (self.pc as usize) < MEM_SIZE,
            AddressingMode::IndirectY => (self.pc as usize) < MEM_SIZE,
            AddressingMode::Absolute => (self.pc as usize) + 2 <= MEM_SIZE,
            AddressingMode::AbsoluteX => (self.pc as usize) + 2 <= MEM_SIZE,
            AddressingMode::AbsoluteY => (self.pc as usize) + 2 <= MEM_SIZE,
        }
    }

    /// Fetch, decode, execute and advance until the halt operation or a fatal
    /// error: the final state is what iterating the dispatch step from the
    /// starting state yields, halted on `Ok` and failed with the returned
    /// error on `Err`.
    pub fn run(&mut self) -> (r: Result<(), EmuError>)
        requires
            old(self).wf(),
        ensures
            final(self).wf(),
            (match r {
                Ok(()) => exists|n: nat|
                    advance_n(old(self).state(), n) == Step::Halt(final(self).state()),
                Err(e) => exists|n: nat|
                    advance_n(old(self).state(), n) == Step::Fail(e, final(self).state()),
            }),
    {
        let ghost s0 = old(self).state();
        let ghost mut steps: nat = 0;
        // The operations in the current repertoire never redirect control
        // flow, and the operand bound checks keep every advance of the program
        // counter below the top of the address space, so the counter strictly
        // grows by the instruction length on every continued iteration.
        loop
            invariant
                self.wf(),
                s0 == old(self).state(),
                advance_n(s0, steps) == Step::Next(self.state()),
            decreases MEM_SIZE - self.pc,
        {
            let ghost pre = self.state();

            // Fetching
            if (self.pc as usize) >= MEM_SIZE {
                proof {
                    lemma_advance_snoc(s0, steps);
                }
                return Err(EmuError::AddressOutOfRange { addr: self.pc });
            }
            let fetch_addr = self.pc;
            let code = self.mem_read(self.pc);
            self.pc = self.pc + 1;
            let old_pc = self.pc;

            // Decoding
            let oc = match opcode_lookup(code) {
                Some(oc) => oc,
                None => {
                    proof {
                        lemma_advance_snoc(s0, steps);
                    }
                    return Err(EmuError::UnsupportedOpcode { opcode: code, addr: fetch_addr });
                },
            };
            proof {
                lemma_opcode_len(code);
            }

            // Executing
            match oc.op {
                Operation::Brk => {
                    proof {
                        lemma_advance_snoc(s0, steps);
                    }
                    return Ok(());
                },
                Operation::Tax => self.tax(),
                Operation::Tay => self.tay(),
                Operation::Inx => self.inx(),
                Operation::Iny => self.iny(),
                Operation::Lda => {
                    if !self.operand_in_bounds(&oc.mode) {
                        proof {
                            lemma_advance_snoc(s0, steps);
                        }
                        return Err(EmuError::AddressOutOfRange { addr: self.pc });
                    }
                    match self.lda(&oc.mode) {
                        Ok(()) => {},
                        Err(e) => {
                            proof {
                                lemma_advance_snoc(s0, steps);
                            }
                            return Err(e);
                        },
                    }
                },
                Operation::Sta => {
                    if !self.operand_in_bounds(&oc.mode) {
                        proof {
                            lemma_advance_snoc(s0, steps);
                        }
                        return Err(EmuError::AddressOutOfRange { addr: self.pc });
                    }
                    match self.sta(&oc.mode) {
                        Ok(()) => {},
                        Err(e) => {
                            proof {
                                lemma_advance_snoc(s0, steps);
                            }
                            return Err(e);
                        },
                    }
                },
            }

            // Advancing: the executed operation did not redirect control flow,
            // so skip the operand bytes it consumed.
            if old_pc == self.pc {
                proof {
                    lemma_exec_wrap_add16(self.pc, (oc.len - 1) as u16);
                }
                self.pc = self.pc.wrapping_add((oc.len - 1) as u16);
            }

            proof {
                lemma_advance_snoc(s0, steps);
                assert(step_spec(pre) == Step::Next(self.state()));
                assert(self.pc > pre.pc);
                steps = steps + 1;
            }
        }
    }

    /// Load a program image, reset, and run the dispatch loop until the halt
    /// operation or a fatal error.
    pub fn load_and_run(&mut self, program: Vec<u8>) -> (r: Result<(), EmuError>)
        requires
            old(self).wf(),
            program@.len() <= MEM_SIZE - LOAD_ADDR,
        ensures
            final(self).wf(),
            ({
                let start = reset_spec(load_spec(old(self).state(), program@));
                match r {
                    Ok(()) => exists|n: nat|
                        advance_n(start, n) == Step::Halt(final(self).state()),
                    Err(e) => exists|n: nat|
                        advance_n(start, n) == Step::Fail(e, final(self).state()),
                }
            }),
    {
        self.load(program);
        self.reset();
        self.run()
    }
}

} // verus!
