//! The execution engine: a program counter, memory, registers and an optional
//! output, driven by the fetch-decode-execute cycle.

use crate::error::Error;
use crate::instruction::{Instruction, Opcode};
use crate::memory::{address_at, byte_at, bytes_at, Memory};
use crate::register::{assign, zeroed, RegisterID, Registers};
use crate::syscall::Syscall;
use crate::{Address, Word};
use vstd::prelude::*;

verus! {

/// The width of an instruction in bytes.
pub const INSTRUCTION_WIDTH: Word = 4;

/// The file descriptor of standard output, the only one that the write
/// syscall accepts.
pub const STDOUT: Word = 1;

/// The word that four bytes make, the first the most significant.
pub open spec fn word_of(b1: u8, b2: u8, b3: u8, b4: u8) -> Word {
    (b1 * 0x100_0000 + b2 * 0x1_0000 + b3 * 0x100 + b4) as Word
}

/// The word that a sum wraps to: its remainder modulo 2^32.
pub open spec fn wrap(sum: int) -> Word {
    (sum % 0x1_0000_0000) as Word
}

/// The state of a machine as plain values.
pub struct State {
    /// The address of the next instruction.
    pub pc: Address,
    /// The bytes that memory holds.
    pub mem: Map<Address, u8>,
    /// The word that each register holds.
    pub regs: Map<RegisterID, Word>,
    /// The bytes written so far, where an output is attached.
    pub stdout: Option<Seq<u8>>,
}

/// Where a machine stands after some cycles.
pub enum Outcome {
    /// Every cycle so far executed an instruction other than a halt.
    Running(State),
    /// The last cycle executed a halt and left the machine in this state.
    Halted(State),
    /// The last cycle failed with this error and left the machine in this
    /// state.
    Faulted(State, Error),
}

/// Whether one cycle left the machine running or halted it.
#[derive(Debug, Clone, Copy, PartialEq, Eq, Structural)]
pub enum Status {
    /// The cycle executed an instruction other than a halt.
    Running,
    /// The cycle executed a halt.
    Halted,
}

impl Outcome {
    /// The state that the machine is in.
    pub open spec fn state(self) -> State {
        match self {
            Outcome::Running(state) => state,
            Outcome::Halted(state) => state,
            Outcome::Faulted(state, _) => state,
        }
    }

    /// What the last cycle reports.
    pub open spec fn status(self) -> Result<Status, Error> {
        match self {
            Outcome::Running(_) => Ok(Status::Running),
            Outcome::Halted(_) => Ok(Status::Halted),
            Outcome::Faulted(_, e) => Err(e),
        }
    }

    /// What a run that ends here reports.
    pub open spec fn result(self) -> Result<(), Error> {
        match self {
            Outcome::Faulted(_, e) => Err(e),
            _ => Ok(()),
        }
    }
}

impl State {
    /// The instruction word at the program counter.
    pub open spec fn fetch(self) -> Word {
        word_of(
            byte_at(self.mem, self.pc),
            byte_at(self.mem, address_at(self.pc, 1)),
            byte_at(self.mem, address_at(self.pc, 2)),
            byte_at(self.mem, address_at(self.pc, 3)),
        )
    }

    /// This state with the program counter moved past one instruction.
    pub open spec fn advance(self) -> State {
        State { pc: address_at(self.pc, INSTRUCTION_WIDTH as int), ..self }
    }

    /// This state after `value` is written to register `reg`.
    pub open spec fn with_register(self, reg: RegisterID, value: Word) -> State {
        State { regs: assign(self.regs, reg, value), ..self }
    }

    /// This state after `data` is sent to the output. Without an output the
    /// bytes are dropped.
    pub open spec fn with_output(self, data: Seq<u8>) -> State {
        State {
            stdout: match self.stdout {
                Some(written) => Some(written + data),
                None => None,
            },
            ..self
        }
    }

    /// The effect of a syscall on a state whose program counter has
    /// already moved on. The syscall number is in `A7`; a write takes the
    /// file descriptor from `A0`, the buffer address from `A1` and the
    /// length from `A2`.
    pub open spec fn call(self) -> Outcome {
        match Syscall::resolve(self.regs[RegisterID::A7]) {
            Err(e) => Outcome::Faulted(self, e),
            Ok(Syscall::Write) => {
                let fd = self.regs[RegisterID::A0];
                let buffer = self.regs[RegisterID::A1];
                let len = self.regs[RegisterID::A2];
                if fd != STDOUT {
                    Outcome::Faulted(self, Error::FileDescriptorUnsupported(fd))
                } else {
                    Outcome::Running(self.with_output(bytes_at(self.mem, buffer, len as nat)))
                }
            },
        }
    }

    /// The exact sum that an add computes: its two sources and its
    /// immediate.
    pub open spec fn sum(self, instruction: Instruction) -> int {
        self.regs[instruction.rs1] + self.regs[instruction.rs2] + instruction.imm
    }

    /// The effect of `instruction` on a state whose program counter has
    /// already moved on.
    pub open spec fn execute(self, instruction: Instruction) -> Outcome {
        match instruction.opcode {
            Opcode::LoadImmediate => Outcome::Running(
                self.with_register(instruction.rd, instruction.imm as Word),
            ),
            Opcode::Add => Outcome::Running(
                self.with_register(instruction.rd, wrap(self.sum(instruction))),
            ),
            Opcode::ECall => self.call(),
            Opcode::EBreak => Outcome::Halted(self),
        }
    }

    /// One fetch-decode-execute cycle. A word that does not decode leaves
    /// the state as it is; otherwise the program counter moves on before
    /// the instruction takes effect.
    pub open spec fn step(self) -> Outcome {
        match Instruction::decode(self.fetch()) {
            Err(e) => Outcome::Faulted(self, e),
            Ok(instruction) => self.advance().execute(instruction),
        }
    }

    /// Where the machine stands after at most `cycles` cycles: still
    /// running if none of them halted or failed, else as the first such
    /// cycle left it.
    pub open spec fn after(self, cycles: nat) -> Outcome
        decreases cycles,
    {
        if cycles == 0 {
            Outcome::Running(self)
        } else {
            match self.step() {
                Outcome::Running(next) => next.after((cycles - 1) as nat),
                stopped => stopped,
            }
        }
    }

    /// Whether the machine halts or fails within `cycles` cycles.
    pub open spec fn stops_within(self, cycles: nat) -> bool {
        !(self.after(cycles) is Running)
    }

    /// Whether the machine ever halts or fails.
    pub open spec fn stops(self) -> bool {
        exists|cycles: nat| self.stops_within(cycles)
    }

    /// How the machine ends, if it ever stops.
    pub open spec fn outcome(self) -> Outcome {
        self.after(choose|cycles: nat| self.stops_within(cycles))
    }
}

/// Once a machine has stopped, more cycles change nothing.
pub proof fn lemma_stopped_stays_stopped(state: State, cycles: nat, more: nat)
    requires
        state.stops_within(cycles),
        cycles <= more,
    ensures
        state.after(more) == state.after(cycles),
    decreases cycles,
{
    if cycles > 0 {
        match state.step() {
            Outcome::Running(next) => {
                lemma_stopped_stays_stopped(next, (cycles - 1) as nat, (more - 1) as nat);
            },
            _ => {},
        }
    }
}

/// A machine that stops within `cycles` cycles ends as it stands after
/// them.
pub proof fn lemma_outcome(state: State, cycles: nat)
    requires
        state.stops_within(cycles),
    ensures
        state.stops(),
        state.outcome() == state.after(cycles),
{
    let chosen = choose|cycles: nat| state.stops_within(cycles);
    if chosen <= cycles {
        lemma_stopped_stays_stopped(state, chosen, cycles);
    } else {
        lemma_stopped_stays_stopped(state, cycles, chosen);
    }
}

/// An add leaves the machine running and writes to its destination the
/// sum of its two sources and its immediate: the exact sum where that fits a
/// word, else the sum wrapped. The hardwired-zero register as destination
/// drops it.
pub proof fn lemma_add_writes_the_sum(state: State, instruction: Instruction)
    requires
        instruction.opcode == Opcode::Add,
    ensures
        state.execute(instruction) is Running,
        state.execute(instruction).state() == state.with_register(
            instruction.rd,
            wrap(state.sum(instruction)),
        ),
        state.sum(instruction) <= Word::MAX ==> wrap(state.sum(instruction)) == state.sum(instruction),
        instruction.rd != RegisterID::X0 ==> state.execute(instruction).state().regs[instruction.rd]
            == wrap(state.sum(instruction)),
        instruction.rd == RegisterID::X0 ==> state.execute(instruction).state().regs[instruction.rd]
            == 0,
{
}

/// A write syscall to standard output leaves the machine running and
/// appends to the attached output exactly the bytes that memory holds in the
/// buffer, in order; nothing else changes.
pub proof fn lemma_write_appends_the_buffer(state: State)
    requires
        state.regs[RegisterID::A7] == 64,
        state.regs[RegisterID::A0] == STDOUT,
        state.stdout is Some,
    ensures
        state.call() is Running,
        state.call().state().stdout == Some(
            state.stdout->0 + bytes_at(
                state.mem,
                state.regs[RegisterID::A1],
                state.regs[RegisterID::A2] as nat,
            ),
        ),
        state.call().state().pc == state.pc,
        state.call().state().mem == state.mem,
        state.call().state().regs == state.regs,
{
}

/// Execution never stores to memory, never attaches or detaches the
/// output, only ever appends to what was written, and keeps the
/// hardwired-zero register at zero.
pub proof fn lemma_execution_invariants(state: State, cycles: nat)
    ensures
        state.after(cycles).state().mem == state.mem,
        state.stdout is None ==> state.after(cycles).state().stdout is None,
        state.stdout is Some ==> state.after(cycles).state().stdout is Some
            && state.stdout->0.is_prefix_of(state.after(cycles).state().stdout->0),
        state.regs[RegisterID::X0] == 0 ==> state.after(cycles).state().regs[RegisterID::X0] == 0,
    decreases cycles,
{
    if cycles > 0 {
        match state.step() {
            Outcome::Running(next) => {
                lemma_execution_invariants(next, (cycles - 1) as nat);
            },
            _ => {},
        }
    }
}

/// A machine: program counter, memory, registers and, where attached, the
/// output that write syscalls append to.
#[derive(Debug, PartialEq, Eq)]
pub struct Machine {
    pub pc: Word,
    pub mem: Memory,
    pub regs: Registers,
    pub stdout: Option<Vec<u8>>,
}

impl View for Machine {
    type V = State;

    open spec fn view(&self) -> State {
        State {
            pc: self.pc,
            mem: self.mem@,
            regs: self.regs@,
            stdout: match self.stdout {
                Some(written) => Some(written@),
                None => None,
            },
        }
    }
}

impl Default for Machine {
    /// A machine at address zero with empty memory, zeroed registers and no
    /// output attached.
    fn default() -> (machine: Self)
        ensures
            machine@ == (State { pc: 0, mem: Map::empty(), regs: zeroed(), stdout: None }),
    {
        Machine { pc: 0, stdout: None, mem: Memory::default(), regs: Registers::default() }
    }
}

/// Assembles a word from four bytes, the first the most significant.
pub fn word_from_bytes(b1: u8, b2: u8, b3: u8, b4: u8) -> (word: Word)
    ensures
        word == word_of(b1, b2, b3, b4),
{
    assert(((b1 as u32) << 24) | ((b2 as u32) << 16) | ((b3 as u32) << 8) | (b4 as u32) == (b1
        * 0x100_0000 + b2 * 0x1_0000 + b3 * 0x100 + b4) as u32) by (bit_vector);
    ((b1 as u32) << 24) | ((b2 as u32) << 16) | ((b3 as u32) << 8) | (b4 as u32)
}

impl Machine {
    /// A machine in its initial state.
    pub fn new() -> (machine: Self)
        ensures
            machine@ == (State { pc: 0, mem: Map::empty(), regs: zeroed(), stdout: None }),
    {
        Self::default()
    }

    /// Reads the instruction word at the program counter.
    pub fn fetch(&self) -> (word: Word)
        ensures
            word == self@.fetch(),
    {
        let b1 = self.mem.get(self.pc);
        let b2 = self.mem.get(self.pc.wrapping_add(1));
        let b3 = self.mem.get(self.pc.wrapping_add(2));
        let b4 = self.mem.get(self.pc.wrapping_add(3));
        word_from_bytes(b1, b2, b3, b4)
    }

    /// Fetches the instruction word at the program counter and decodes it.
    /// The machine is left as it was.
    pub fn next(&mut self) -> (decoded: Result<Instruction, Error>)
        ensures
            *final(self) == *old(self),
            decoded == Instruction::decode(old(self)@.fetch()),
    {
        let word = self.fetch();
        Instruction::try_from(word)
    }

    /// Runs one fetch-decode-execute cycle.
    pub fn step(&mut self) -> (status: Result<Status, Error>)
        ensures
            final(self)@ == old(self)@.step().state(),
            status == old(self)@.step().status(),
    {
        let instruction = self.next()?;
        self.pc = self.pc.wrapping_add(INSTRUCTION_WIDTH);
        match instruction.opcode {
            Opcode::LoadImmediate => {
                self.regs.set(instruction.rd, instruction.imm as Word);
            },
            Opcode::Add => {
                let rs1 = self.regs.get(&instruction.rs1);
                let rs2 = self.regs.get(&instruction.rs2);
                let imm = instruction.imm as Word;
                self.regs.set(instruction.rd, rs1.wrapping_add(rs2).wrapping_add(imm));
            },
            Opcode::ECall => match Syscall::try_from(self.regs.get(&RegisterID::A7))? {
                Syscall::Write => {
                    let fd = self.regs.get(&RegisterID::A0);
                    if fd != STDOUT {
                        return Err(Error::FileDescriptorUnsupported(fd));
                    }
                    let buffer = self.regs.get(&RegisterID::A1);
                    let len = self.regs.get(&RegisterID::A2);
                    let mut data = self.mem.read(buffer, len as usize);
                    if let Some(stdout) = &mut self.stdout {
                        stdout.append(&mut data);
                    }
                },
            },
            Opcode::EBreak => {
                return Ok(Status::Halted);
            },
        }
        Ok(Status::Running)
    }

    /// Runs at most `cycles` cycles, stopping early where one halts or
    /// fails. Reports `Running` where none did.
    pub fn run_for(&mut self, cycles: u64) -> (status: Result<Status, Error>)
        ensures
            final(self)@ == old(self)@.after(cycles as nat).state(),
            status == old(self)@.after(cycles as nat).status(),
    {
        let mut left: u64 = cycles;
        while left > 0
            invariant
                self@.after(left as nat) == old(self)@.after(cycles as nat),
            decreases left,
        {
            match self.step()? {
                Status::Running => {},
                Status::Halted => {
                    return Ok(Status::Halted);
                },
            }
            left -= 1;
        }
        Ok(Status::Running)
    }

    /// Runs cycles until one halts or fails. A program that never does
    /// either keeps the machine running for ever, so the contract speaks of
    /// the machines that stop.
    pub fn run(&mut self) -> (ended: Result<(), Error>)
        requires
            old(self)@.stops(),
        ensures
            !(old(self)@.outcome() is Running),
            final(self)@ == old(self)@.outcome().state(),
            ended == old(self)@.outcome().result(),
    {
        let ghost mut cycles: nat = choose|cycles: nat| old(self)@.stops_within(cycles);
        loop
            invariant
                self@.after(cycles) == old(self)@.outcome(),
                self@.stops_within(cycles),
            decreases cycles,
        {
            match self.step()? {
                Status::Running => {
                    proof {
                        cycles = (cycles - 1) as nat;
                    }
                },
                Status::Halted => {
                    return Ok(());
                },
            }
        }
    }
}

} // verus!
