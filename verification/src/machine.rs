//! The machine itself: construction, bounds-checked accessors, one handler
//! per instruction, and the dispatch step.

use vstd::prelude::*;

use crate::model::lemma_run_stable;
use crate::model::lemma_step_output;
use crate::model::spec_advanced;
use crate::model::spec_load;
use crate::model::spec_loadimm;
use crate::model::spec_move_if;
use crate::model::spec_out;
use crate::model::spec_out_number;
use crate::model::spec_run;
use crate::model::spec_step;
use crate::model::spec_store;
use crate::model::spec_sub;
use crate::model::MachineView;
use crate::model::MEMORY_SIZE;
use crate::model::NREGS;
use crate::output::push_signed_decimal;
use crate::output::push_utf8;
use crate::sink::Sink;
use crate::words::spec_read_word;
use crate::words::spec_store_word;

verus! {

/// Every way a program can misbehave; each run stops at the first one.
#[derive(Debug, Clone, Copy, PartialEq, Eq)]
pub enum MachineError {
    /// The instruction pointer points at or past the end of memory, or the
    /// current instruction's encoded width would read past the end.
    ProgramCounterOutOfBounds,
    /// An operand names a register index greater than 15.
    RegisterOutOfRange,
    /// A computed memory address does not leave room for a full word.
    AddressOutOfBounds,
    /// The value handed to output-char is not a Unicode scalar value.
    InvalidCodePoint,
    /// The decoded opcode byte names no instruction.
    UnknownOpcode,
    /// The output sink rejected a write.
    OutputFailed,
    /// The halt opcode reached the generic dispatch path instead of the
    /// dedicated halt transition; unreachable in a correct dispatcher.
    HaltedTwice,
}

/// A fixed-size memory, a register file, and nothing else.  Register 0 is
/// the instruction pointer.
pub struct Machine {
    memory: [u8; 4096],
    registers: [u32; 16],
}

impl View for Machine {
    type V = MachineView;

    closed spec fn view(&self) -> MachineView {
        MachineView { mem: self.memory@, regs: self.registers@ }
    }
}

impl Machine {
    /// Create a new machine in its reset state.  The `memory` parameter is
    /// copied at the beginning of the machine memory; the rest of the memory
    /// and all registers start at zero.
    pub fn new(memory: &[u8]) -> (m: Machine)
        requires
            memory@.len() <= MEMORY_SIZE,
        ensures
            m@.wf(),
            forall|i: int| 0 <= i < memory@.len() ==> m@.mem[i] == memory@[i],
            forall|i: int| memory@.len() <= i < MEMORY_SIZE ==> m@.mem[i] == 0u8,
            forall|i: int| 0 <= i < NREGS ==> m@.regs[i] == 0u32,
    {
        let mut new_mem: [u8; 4096] = [0; 4096];
        let mut i: usize = 0;
        while i < memory.len()
            invariant
                i <= memory@.len() <= MEMORY_SIZE,
                forall|k: int| 0 <= k < i ==> new_mem@[k] == memory@[k],
                forall|k: int| i <= k < MEMORY_SIZE ==> new_mem@[k] == 0u8,
            decreases memory@.len() - i,
        {
            new_mem[i] = memory[i];
            i += 1;
        }
        Machine { memory: new_mem, registers: [0; 16] }
    }

    /// Returns the value of the instruction pointer (register 0).
    pub fn get_ip(&mut self) -> (ip: u32)
        ensures
            final(self)@ == old(self)@,
            ip == old(self)@.regs[0],
    {
        self.registers[0]
    }

    /// Adds `incr` to the instruction pointer (register 0).
    pub fn increment_ip(&mut self, incr: u32)
        requires
            old(self)@.regs[0] + incr <= u32::MAX,
        ensures
            final(self)@.mem == old(self)@.mem,
            final(self)@.regs == old(self)@.regs.update(0, (old(self)@.regs[0] + incr) as u32),
    {
        self.registers[0] = self.registers[0] + incr;
    }

    /// Read-only view of the machine's registers.
    pub fn regs(&self) -> (r: &[u32])
        ensures
            r@ == self@.regs,
    {
        self.registers.as_slice()
    }

    /// Read-only view of the machine's memory.
    pub fn memory(&self) -> (r: &[u8])
        ensures
            r@ == self@.mem,
    {
        self.memory.as_slice()
    }

    /// Sets register `reg` to `value`; fails with `RegisterOutOfRange`, and
    /// changes nothing, exactly when `reg` is not a register index.
    pub fn set_reg(&mut self, reg: u8, value: u32) -> (r: Result<(), MachineError>)
        ensures
            final(self)@.mem == old(self)@.mem,
            reg <= 15 ==> r == Ok::<(), MachineError>(())
                && final(self)@.regs == old(self)@.regs.update(reg as int, value),
            reg > 15 ==> r == Err::<(), MachineError>(MachineError::RegisterOutOfRange)
                && final(self)@.regs == old(self)@.regs,
    {
        if reg > 15 {
            Err(MachineError::RegisterOutOfRange)
        } else {
            self.registers[reg as usize] = value;
            Ok(())
        }
    }

    /// Writes `value` as a little-endian word over the four memory bytes
    /// starting at `addr`; fails with `AddressOutOfBounds`, and changes
    /// nothing, exactly when the word would not fit within memory.
    pub fn set_mem(&mut self, addr: usize, value: u32) -> (r: Result<(), MachineError>)
        ensures
            final(self)@.regs == old(self)@.regs,
            addr + 4 <= MEMORY_SIZE ==> r == Ok::<(), MachineError>(())
                && final(self)@.mem == spec_store_word(old(self)@.mem, addr as int, value),
            addr + 4 > MEMORY_SIZE ==> r == Err::<(), MachineError>(MachineError::AddressOutOfBounds)
                && final(self)@.mem == old(self)@.mem,
    {
        if addr > MEMORY_SIZE - 4 {
            Err(MachineError::AddressOutOfBounds)
        } else {
            let bytes = vstd::bytes::u32_to_le_bytes(value);
            self.memory[addr] = bytes[0];
            self.memory[addr + 1] = bytes[1];
            self.memory[addr + 2] = bytes[2];
            self.memory[addr + 3] = bytes[3];
            Ok(())
        }
    }

    /// Reads the little-endian word at memory address `addr` into register
    /// `reg`.  Fails with `AddressOutOfBounds` when the word does not fit
    /// within memory, then with `RegisterOutOfRange` when `reg` is not a
    /// register index; on failure nothing changes.
    pub fn load_mem(&mut self, addr: usize, reg: u8) -> (r: Result<(), MachineError>)
        ensures
            final(self)@.mem == old(self)@.mem,
            addr + 4 > MEMORY_SIZE ==> r == Err::<(), MachineError>(MachineError::AddressOutOfBounds)
                && final(self)@.regs == old(self)@.regs,
            addr + 4 <= MEMORY_SIZE && reg > 15 ==> r == Err::<(), MachineError>(
                MachineError::RegisterOutOfRange,
            ) && final(self)@.regs == old(self)@.regs,
            addr + 4 <= MEMORY_SIZE && reg <= 15 ==> r == Ok::<(), MachineError>(())
                && final(self)@.regs == old(self)@.regs.update(
                reg as int,
                spec_read_word(old(self)@.mem, addr as int),
            ),
    {
        if addr > MEMORY_SIZE - 4 {
            return Err(MachineError::AddressOutOfBounds);
        }
        if reg > 15 {
            return Err(MachineError::RegisterOutOfRange);
        }
        let word = self.read_word_at(addr);
        self.registers[reg as usize] = word;
        Ok(())
    }

    /// Execute the next instruction: decode the opcode at the instruction
    /// pointer, check that the whole instruction fits in memory, advance
    /// the instruction pointer by the instruction's width, and perform its
    /// effect, writing any output to `fd`.
    ///
    /// In case of success, `true` is returned if the program terminated
    /// (upon a halt instruction) and `false` if execution must continue.
    /// The machine always reaches the state [`spec_step`] describes, even
    /// when the sink rejects the step's output and the step reports
    /// `OutputFailed`.
    pub fn step_on<S: Sink>(&mut self, fd: &mut S) -> (r: Result<bool, MachineError>)
        ensures
            final(self)@ == spec_step(old(self)@).post,
            final(fd).reliable() == old(fd).reliable(),
            ({
                let s = spec_step(old(self)@);
                &&& s.out.len() == 0 ==> r == s.result && final(fd).written() == old(fd).written()
                &&& s.out.len() > 0 ==> (r == s.result && final(fd).written() == old(fd).written()
                    + s.out) || (r == Err::<bool, MachineError>(MachineError::OutputFailed)
                    && !old(fd).reliable())
            }),
    {
        let pc = self.get_ip() as usize;
        if pc >= MEMORY_SIZE {
            return Err(MachineError::ProgramCounterOutOfBounds);
        }
        let instr_id = self.memory[pc];
        if instr_id < 1 || instr_id > 8 {
            return Err(MachineError::UnknownOpcode);
        }
        let width: usize = if instr_id == 1 || instr_id == 4 || instr_id == 5 {
            4
        } else if instr_id == 2 || instr_id == 3 {
            3
        } else if instr_id == 6 || instr_id == 8 {
            2
        } else {
            1
        };
        if pc + width > MEMORY_SIZE {
            return Err(MachineError::ProgramCounterOutOfBounds);
        }
        if instr_id == 7 {
            return self.exit();
        }
        let res: Result<(), MachineError> = match instr_id {
            1 => self.move_if(),
            2 => self.store(),
            3 => self.load(),
            4 => self.loadimm(),
            5 => self.sub(),
            6 => self.out(fd),
            7 => Err(MachineError::HaltedTwice),
            8 => self.out_number(fd),
            _ => Err(MachineError::UnknownOpcode),
        };
        match res {
            Ok(()) => Ok(false),
            Err(err) => Err(err),
        }
    }

    /// Run until the program halts or an error stops it, writing output to
    /// `fd`.  The result and the machine's final state are those of the
    /// run [`spec_run`] describes, except that a sink failure stops the
    /// run at the offending output step with `OutputFailed`.
    ///
    /// Verified callers must show that the run's outcome is decided within
    /// some number of steps; on a program that never halts this function
    /// would never return.
    pub fn run_on<S: Sink>(&mut self, fd: &mut S) -> (r: Result<(), MachineError>)
        requires
            exists|fuel: nat| #[trigger] spec_run(old(self)@, fuel).outcome is Some,
        ensures
            r != Err::<(), MachineError>(MachineError::OutputFailed) ==> (exists|fuel: nat|
                #![trigger spec_run(old(self)@, fuel)]
                {
                    let q = spec_run(old(self)@, fuel);
                    &&& q.outcome == Some(r)
                    &&& final(self)@ == q.post
                    &&& final(fd).written() == old(fd).written() + q.out
                }),
            r == Err::<(), MachineError>(MachineError::OutputFailed) ==> !old(fd).reliable() && (
            exists|fuel: nat|
                #![trigger spec_run(old(self)@, fuel)]
                {
                    let q = spec_run(old(self)@, fuel);
                    &&& q.outcome is None
                    &&& final(self)@ == spec_step(q.post).post
                    &&& spec_step(q.post).out.len() > 0
                }),
            final(fd).reliable() == old(fd).reliable(),
    {
        let ghost pre = self@;
        let ghost fuel0 = choose|fuel: nat| spec_run(pre, fuel).outcome is Some;
        let ghost mut steps: nat = 0;
        proof {
            assert(fd.written() =~= old(fd).written() + spec_run(pre, steps).out);
        }
        loop
            invariant
                pre == old(self)@,
                spec_run(pre, fuel0).outcome is Some,
                steps <= fuel0,
                spec_run(pre, steps).outcome is None,
                spec_run(pre, steps).post == self@,
                fd.written() == old(fd).written() + spec_run(pre, steps).out,
                fd.reliable() == old(fd).reliable(),
            decreases fuel0 - steps,
        {
            let ghost q = spec_run(pre, steps);
            proof {
                lemma_step_output(q.post);
            }
            let res = self.step_on(fd);
            match res {
                Ok(true) => {
                    proof {
                        assert(spec_run(pre, steps + 1).outcome == Some(Ok::<(), MachineError>(())));
                        assert(fd.written() =~= old(fd).written() + spec_run(pre, steps + 1).out);
                    }
                    return Ok(());
                },
                Ok(false) => {
                    proof {
                        steps = steps + 1;
                        assert(fd.written() =~= old(fd).written() + spec_run(pre, steps).out);
                        if steps > fuel0 {
                            lemma_run_stable(pre, fuel0, steps);
                            assert(false);
                        }
                    }
                },
                Err(err) => {
                    proof {
                        if err != MachineError::OutputFailed {
                            assert(spec_run(pre, steps + 1).outcome == Some(
                                Err::<(), MachineError>(err),
                            ));
                            assert(fd.written() =~= old(fd).written() + spec_run(
                                pre,
                                steps + 1,
                            ).out);
                        }
                    }
                    return Err(err);
                },
            }
        }
    }

    /// Reads the little-endian word at the in-bounds address `addr`.
    fn read_word_at(&self, addr: usize) -> (w: u32)
        requires
            addr + 4 <= MEMORY_SIZE,
        ensures
            w == spec_read_word(self@.mem, addr as int),
    {
        let mut bytes: Vec<u8> = Vec::new();
        bytes.push(self.memory[addr]);
        bytes.push(self.memory[addr + 1]);
        bytes.push(self.memory[addr + 2]);
        bytes.push(self.memory[addr + 3]);
        proof {
            assert(bytes@ =~= self@.mem.subrange(addr as int, addr as int + 4));
        }
        vstd::bytes::u32_from_le_bytes(bytes.as_slice())
    }

    /// move-if (opcode 1): if register `regC` holds a non-zero value, copy
    /// register `regB` into register `regA`; otherwise change no register
    /// but the instruction pointer.
    pub fn move_if(&mut self) -> (r: Result<(), MachineError>)
        requires
            old(self)@.regs[0] + 4 <= MEMORY_SIZE,
        ensures
            final(self)@ == spec_move_if(old(self)@).post,
            r == spec_move_if(old(self)@).result,
    {
        let ip = self.get_ip() as usize;
        let reg_a = self.memory[ip + 1];
        let reg_b = self.memory[ip + 2];
        let reg_c = self.memory[ip + 3];
        self.registers[0] = self.registers[0] + 4;
        if reg_a > 15 || reg_b > 15 || reg_c > 15 {
            return Err(MachineError::RegisterOutOfRange);
        }
        if self.registers[reg_c as usize] != 0 {
            let value = self.registers[reg_b as usize];
            self.registers[reg_a as usize] = value;
        }
        Ok(())
    }

    /// store (opcode 2): write register `regB` as a little-endian word to
    /// memory at the address held in register `regA`.
    pub fn store(&mut self) -> (r: Result<(), MachineError>)
        requires
            old(self)@.regs[0] + 3 <= MEMORY_SIZE,
        ensures
            final(self)@ == spec_store(old(self)@).post,
            r == spec_store(old(self)@).result,
    {
        let ip = self.get_ip() as usize;
        let reg_a = self.memory[ip + 1];
        let reg_b = self.memory[ip + 2];
        self.registers[0] = self.registers[0] + 3;
        if reg_a > 15 || reg_b > 15 {
            return Err(MachineError::RegisterOutOfRange);
        }
        let addr = self.registers[reg_a as usize];
        let value = self.registers[reg_b as usize];
        self.set_mem(addr as usize, value)
    }

    /// load (opcode 3): read a little-endian word from memory at the
    /// address held in register `regB` into register `regA`.
    pub fn load(&mut self) -> (r: Result<(), MachineError>)
        requires
            old(self)@.regs[0] + 3 <= MEMORY_SIZE,
        ensures
            final(self)@ == spec_load(old(self)@).post,
            r == spec_load(old(self)@).result,
    {
        let ip = self.get_ip() as usize;
        let reg_a = self.memory[ip + 1];
        let reg_b = self.memory[ip + 2];
        self.registers[0] = self.registers[0] + 3;
        if reg_a > 15 || reg_b > 15 {
            return Err(MachineError::RegisterOutOfRange);
        }
        let addr = self.registers[reg_b as usize];
        self.load_mem(addr as usize, reg_a)
    }

    /// load-immediate (opcode 4): sign-extend the 16-bit value
    /// `(H << 8) | L` to 32 bits and store it in register `regA`.
    pub fn loadimm(&mut self) -> (r: Result<(), MachineError>)
        requires
            old(self)@.regs[0] + 4 <= MEMORY_SIZE,
        ensures
            final(self)@ == spec_loadimm(old(self)@).post,
            r == spec_loadimm(old(self)@).result,
    {
        let ip = self.get_ip() as usize;
        let reg_a = self.memory[ip + 1];
        let l = self.memory[ip + 2];
        let h = self.memory[ip + 3];
        let low = l as u32;
        let high = h as u32;
        proof {
            assert((high << 8) | low == high * 256 + low) by (bit_vector)
                requires
                    high < 256,
                    low < 256,
            ;
        }
        let packed = (high << 8) | low;
        let value: u32 = if packed < 0x8000 {
            packed
        } else {
            packed + 0xFFFF0000
        };
        self.registers[0] = self.registers[0] + 4;
        if reg_a > 15 {
            return Err(MachineError::RegisterOutOfRange);
        }
        self.registers[reg_a as usize] = value;
        Ok(())
    }

    /// subtract (opcode 5): store register `regB` minus register `regC`
    /// into register `regA`, wrapping on overflow.
    pub fn sub(&mut self) -> (r: Result<(), MachineError>)
        requires
            old(self)@.regs[0] + 4 <= MEMORY_SIZE,
        ensures
            final(self)@ == spec_sub(old(self)@).post,
            r == spec_sub(old(self)@).result,
    {
        let ip = self.get_ip() as usize;
        let reg_a = self.memory[ip + 1];
        let reg_b = self.memory[ip + 2];
        let reg_c = self.memory[ip + 3];
        self.registers[0] = self.registers[0] + 4;
        if reg_a > 15 || reg_b > 15 || reg_c > 15 {
            return Err(MachineError::RegisterOutOfRange);
        }
        let value = self.registers[reg_b as usize].wrapping_sub(self.registers[reg_c as usize]);
        self.registers[reg_a as usize] = value;
        Ok(())
    }

    /// output-char (opcode 6): write the UTF-8 encoding of the Unicode
    /// scalar value held in register `regA` (the full 32-bit register
    /// value) to the sink.  A sink failure is reported as `OutputFailed`;
    /// the instruction pointer keeps its advance either way.
    pub fn out<S: Sink>(&mut self, fd: &mut S) -> (r: Result<(), MachineError>)
        requires
            old(self)@.regs[0] + 2 <= MEMORY_SIZE,
        ensures
            final(self)@ == spec_out(old(self)@).post,
            final(fd).reliable() == old(fd).reliable(),
            ({
                let e = spec_out(old(self)@);
                &&& e.result is Err ==> r == e.result && final(fd).written() == old(fd).written()
                &&& e.result is Ok ==> (r == Ok::<(), MachineError>(()) && final(fd).written()
                    == old(fd).written() + e.out) || (r == Err::<(), MachineError>(
                    MachineError::OutputFailed,
                ) && !old(fd).reliable())
            }),
    {
        let ip = self.get_ip() as usize;
        let reg_a = self.memory[ip + 1];
        self.registers[0] = self.registers[0] + 2;
        if reg_a > 15 {
            return Err(MachineError::RegisterOutOfRange);
        }
        let code = self.registers[reg_a as usize];
        if !(code < 0xD800 || (0xE000 <= code && code <= 0x10FFFF)) {
            return Err(MachineError::InvalidCodePoint);
        }
        let mut buf: Vec<u8> = Vec::new();
        push_utf8(&mut buf, code);
        match fd.write_bytes(buf.as_slice()) {
            Ok(()) => Ok(()),
            Err(()) => Err(MachineError::OutputFailed),
        }
    }

    /// halt (opcode 7): advance the instruction pointer past the halt
    /// opcode and report that the program terminated.
    pub fn exit(&mut self) -> (r: Result<bool, MachineError>)
        requires
            old(self)@.regs[0] + 1 <= u32::MAX,
        ensures
            final(self)@.mem == old(self)@.mem,
            final(self)@.regs == spec_advanced(old(self)@, 1),
            r == Ok::<bool, MachineError>(true),
    {
        self.registers[0] = self.registers[0] + 1;
        Ok(true)
    }

    /// output-number (opcode 8): write the signed decimal text of register
    /// `regA`, read as a 32-bit two's-complement integer, to the sink.  A
    /// sink failure is reported as `OutputFailed`; the instruction pointer
    /// keeps its advance either way.
    pub fn out_number<S: Sink>(&mut self, fd: &mut S) -> (r: Result<(), MachineError>)
        requires
            old(self)@.regs[0] + 2 <= MEMORY_SIZE,
        ensures
            final(self)@ == spec_out_number(old(self)@).post,
            final(fd).reliable() == old(fd).reliable(),
            ({
                let e = spec_out_number(old(self)@);
                &&& e.result is Err ==> r == e.result && final(fd).written() == old(fd).written()
                &&& e.result is Ok ==> (r == Ok::<(), MachineError>(()) && final(fd).written()
                    == old(fd).written() + e.out) || (r == Err::<(), MachineError>(
                    MachineError::OutputFailed,
                ) && !old(fd).reliable())
            }),
    {
        let ip = self.get_ip() as usize;
        let reg_a = self.memory[ip + 1];
        self.registers[0] = self.registers[0] + 2;
        if reg_a > 15 {
            return Err(MachineError::RegisterOutOfRange);
        }
        let number = self.registers[reg_a as usize];
        let mut buf: Vec<u8> = Vec::new();
        push_signed_decimal(&mut buf, number);
        match fd.write_bytes(buf.as_slice()) {
            Ok(()) => Ok(()),
            Err(()) => Err(MachineError::OutputFailed),
        }
    }
}

} // verus!
