//! A model of the ARM7TDMI processor.

use vstd::prelude::*;
use crate::instr::ty::Instr;
use crate::instr::ty::Register;
use crate::memory::Memory;
use crate::memory::WORD_COUNT;
use crate::registers::condition_holds;
use crate::registers::cpsr_slot;
use crate::registers::read_register;
use crate::registers::Registers;

pub mod alu;
pub mod branch;
pub mod data;
pub mod multiply;
pub mod shifter;
pub mod status;
pub mod transfer;

verus! {

/// Whether the processor runs or has halted.
#[derive(Debug, Clone, Copy, PartialEq, Eq, Structural)]
pub enum ProcessorState {
    Running,
    Stopped,
}

/// One of the four cycle types in the CPU.
#[derive(Debug, Clone, Copy, PartialEq, Eq, Structural)]
pub enum Cycle {
    /// The processor accessed a portion of memory unrelated to the address
    /// used in the preceding cycle.
    NonSeq,
    /// The processor accessed a memory location at the same address to last
    /// cycle, or a halfword or word afterwards.
    Sequential,
    /// An internal cycle which does not require a memory transfer.
    Internal,
    /// The processor uses the data bus to communicate with a coprocessor.
    /// As coprocessor operations are not implemented by our emulator,
    /// these cycles will never occur.
    Coprocessor,
}

/// The type of possible errors that can be encountered
/// while executing an instruction.
#[derive(Debug, Clone, Copy, PartialEq, Eq, Structural)]
pub enum ProcessorError {
    /// The program counter was not 4-byte aligned.
    UnalignedPc,
    /// The address used for transfer was not aligned.
    UnalignedTransfer,
    /// The instruction at the program counter could not be decoded, or is
    /// one that the processor model does not execute.
    UnrecognisedInstruction,
    /// The program counter was used in an invalid place in an instruction.
    InvalidUseOfPc,
    /// The program counter register (PC, or R15) was used in a register
    /// specified shift amount.
    PcUsedInShift,
    /// The SPSR was accessed, but one was not present in the current mode.
    NoSpsr,
    /// The given addressing specification was too complex to execute in this instruction.
    AddressTooComplex,
    /// An invalid software interrupt was issued.
    InvalidSwi,
}

/// Provides instrumentation in a processor's behaviour.
///
/// A listener says in `after_cycle` and `after_flush` what it is once it
/// has heard of cycles or of a flush; the processor promises through them
/// what a listener has heard after a step.
pub trait ProcessorListener: Sized {
    /// The listener once it has heard of `count` cycles of one type.
    spec fn after_cycle(self, cycle: Cycle, count: usize, pc: u32) -> Self;

    /// The listener once it has heard of a pipeline flush.
    spec fn after_flush(self, pc: u32) -> Self;

    /// A processor cycle (or several) were performed.
    /// For instrumentation purposes, we track the program counter
    /// at which the cycle took place.
    fn cycle(&mut self, cycle: Cycle, count: usize, pc: u32)
        ensures
            *final(self) == old(self).after_cycle(cycle, count, pc),
    ;

    /// Simulate a pipeline flush.
    /// This takes 1S + 1N cycles to recover.
    fn pipeline_flush(&mut self, pc: u32)
        ensures
            *final(self) == old(self).after_flush(pc),
    ;

    /// Hands a character of input to the program, if one is there; the
    /// host decides when to ask again if none is.
    /// The processor itself asks for no input: a host that gives a
    /// software interrupt this meaning calls the hook.
    fn getc(&mut self) -> Option<u8>;

    /// Takes a character of output from the program.
    /// The processor itself puts out nothing: a host that gives a software
    /// interrupt this meaning calls the hook.
    fn putc(&mut self, character: u8);
}

/// What one step costs: the cycles of each type that it takes, and whether
/// it ends in a pipeline flush, which takes one sequential and one
/// non-sequential cycle more.
#[derive(Debug, Clone, Copy, PartialEq, Eq, Structural)]
pub struct StepCost {
    pub seq: usize,
    pub non_seq: usize,
    pub internal: usize,
    pub pipeline_flush: bool,
}

/// A listener that counts the cycles of each type. A pipeline flush counts
/// as one sequential and one non-sequential cycle. The counts stop at the
/// largest number that they can hold.
#[derive(Debug, Clone, Copy, PartialEq, Eq, Structural)]
pub struct CycleCounter {
    pub n_cycles: usize,
    pub s_cycles: usize,
    pub i_cycles: usize,
}

impl CycleCounter {
    /// A counter that has seen no cycle.
    pub fn new() -> (r: CycleCounter)
        ensures
            r == (CycleCounter { n_cycles: 0, s_cycles: 0, i_cycles: 0 }),
    {
        CycleCounter { n_cycles: 0, s_cycles: 0, i_cycles: 0 }
    }
}

impl ProcessorListener for CycleCounter {
    open spec fn after_cycle(self, cycle: Cycle, count: usize, pc: u32) -> Self {
        match cycle {
            Cycle::NonSeq => CycleCounter {
                n_cycles: self.n_cycles.saturating_add(count),
                ..self
            },
            Cycle::Sequential => CycleCounter {
                s_cycles: self.s_cycles.saturating_add(count),
                ..self
            },
            Cycle::Internal => CycleCounter {
                i_cycles: self.i_cycles.saturating_add(count),
                ..self
            },
            Cycle::Coprocessor => self,
        }
    }

    open spec fn after_flush(self, pc: u32) -> Self {
        CycleCounter {
            n_cycles: self.n_cycles.saturating_add(1),
            s_cycles: self.s_cycles.saturating_add(1),
            i_cycles: self.i_cycles,
        }
    }

    fn cycle(&mut self, cycle: Cycle, count: usize, pc: u32) {
        match cycle {
            Cycle::NonSeq => self.n_cycles = self.n_cycles.saturating_add(count),
            Cycle::Sequential => self.s_cycles = self.s_cycles.saturating_add(count),
            Cycle::Internal => self.i_cycles = self.i_cycles.saturating_add(count),
            Cycle::Coprocessor => {},
        }
    }

    fn pipeline_flush(&mut self, pc: u32) {
        self.n_cycles = self.n_cycles.saturating_add(1);
        self.s_cycles = self.s_cycles.saturating_add(1);
    }

    /// A counter has no input to give.
    fn getc(&mut self) -> (r: Option<u8>)
        ensures
            r is None,
            *final(self) == *old(self),
    {
        None
    }

    /// A counter drops the output.
    fn putc(&mut self, character: u8)
        ensures
            *final(self) == *old(self),
    {
    }
}

/// A listener once it has been told what a step at `pc` cost: the
/// sequential, the non-sequential and the internal cycles, in that order,
/// each only if there are any, and then the pipeline flush if there is one.
pub open spec fn told<L: ProcessorListener>(listener: L, cost: StepCost, pc: u32) -> L {
    let after_seq = if cost.seq > 0 {
        listener.after_cycle(Cycle::Sequential, cost.seq, pc)
    } else {
        listener
    };
    let after_non_seq = if cost.non_seq > 0 {
        after_seq.after_cycle(Cycle::NonSeq, cost.non_seq, pc)
    } else {
        after_seq
    };
    let after_internal = if cost.internal > 0 {
        after_non_seq.after_cycle(Cycle::Internal, cost.internal, pc)
    } else {
        after_non_seq
    };
    if cost.pipeline_flush {
        after_internal.after_flush(pc)
    } else {
        after_internal
    }
}

/// The state of the machine as plain values: the 37 words of the register
/// bank, the 2^30 words of memory, and whether the processor runs.
pub struct MachineState {
    pub regs: Seq<u32>,
    pub mem: Seq<u32>,
    pub state: ProcessorState,
}

impl MachineState {
    /// Whether the bank and the memory have their sizes.
    pub open spec fn wf(self) -> bool {
        self.regs.len() == 37 && self.mem.len() == WORD_COUNT
    }
}

/// What the outcome of one step is: the next state and the cost, or the
/// error on which the state stays as it is.
pub type StepOutcome = Result<(MachineState, StepCost), ProcessorError>;

impl StepCost {
    /// The cost of `seq` sequential cycles and nothing else.
    pub open spec fn spec_of(seq: usize, non_seq: usize, internal: usize, pipeline_flush: bool)
        -> StepCost {
        StepCost { seq, non_seq, internal, pipeline_flush }
    }
}

/// The processor: its registers, its memory, and whether it runs.
pub struct Processor {
    registers: Registers,
    memory: Memory,
    state: ProcessorState,
}

/// What one instruction does to the machine, once its condition has been
/// found to hold. `pc` is the address of the instruction.
pub open spec fn spec_execute(m: MachineState, pc: u32, instr: Instr) -> StepOutcome {
    match instr {
        Instr::BranchExchange { operand } => branch::step_branch_exchange(m, operand),
        Instr::Branch { link, offset } => branch::step_branch(m, pc, link, offset),
        Instr::Data { set_condition_codes, op, dest, op1, op2 } => data::step_data(
            m,
            set_condition_codes,
            op,
            dest,
            op1,
            op2,
        ),
        Instr::Mrs { psr, target } => status::step_mrs(m, psr, target),
        Instr::Msr { psr, source } => status::step_msr(m, psr, source),
        Instr::Multiply { set_condition_codes, dest, op1, op2, addend } => multiply::step_multiply(
            m,
            set_condition_codes,
            dest,
            op1,
            op2,
            addend,
        ),
        Instr::MultiplyLong {
            set_condition_codes,
            signed,
            accumulate,
            dest_hi,
            dest_lo,
            op1,
            op2,
        } => multiply::step_multiply_long(
            m,
            set_condition_codes,
            signed,
            accumulate,
            dest_hi,
            dest_lo,
            op1,
            op2,
        ),
        Instr::SingleTransfer {
            kind,
            size,
            write_back,
            offset_positive,
            pre_index,
            data_register,
            base_register,
            offset,
        } => transfer::step_single_transfer(
            m,
            kind,
            size,
            write_back,
            offset_positive,
            pre_index,
            data_register,
            base_register,
            offset,
        ),
        Instr::SingleTransferSpecial {
            kind,
            size,
            write_back,
            offset_positive,
            pre_index,
            data_register,
            base_register,
            offset,
        } => transfer::step_single_transfer_special(
            m,
            kind,
            size,
            write_back,
            offset_positive,
            pre_index,
            data_register,
            base_register,
            offset,
        ),
        // The block transfers and the swap are not executed by this model.
        Instr::BlockTransfer { .. } => Err(ProcessorError::UnrecognisedInstruction),
        Instr::Swap { .. } => Err(ProcessorError::UnrecognisedInstruction),
        Instr::SoftwareInterrupt { comment } => if comment == 2 {
            Ok(
                (
                    MachineState { state: ProcessorState::Stopped, ..m },
                    StepCost::spec_of(0, 0, 0, false),
                ),
            )
        } else {
            Err(ProcessorError::InvalidSwi)
        },
    }
}

/// What one step does to the machine.
///
/// 1. The program counter must be a multiple of four, else `UnalignedPc`.
/// 2. The word at the program counter is decoded; if it holds no
///    instruction, `UnrecognisedInstruction`.
/// 3. If the condition of the instruction does not hold under the flags,
///    the step costs one sequential cycle and changes nothing.
/// 4. Otherwise the instruction is executed.
///
/// The program counter is not advanced here: whoever drives the processor
/// adds four to it after each step, and the instructions that write it
/// allow for that.
pub open spec fn spec_step(m: MachineState) -> StepOutcome {
    let pc = read_register(m.regs, Register::R15);
    if pc % 4 != 0 {
        Err(ProcessorError::UnalignedPc)
    } else {
        match Instr::spec_decode(m.mem[(pc / 4) as int]) {
            None => Err(ProcessorError::UnrecognisedInstruction),
            Some((cond, instr)) => if !condition_holds(m.regs[cpsr_slot()], cond) {
                Ok((m, StepCost::spec_of(1, 0, 0, false)))
            } else {
                spec_execute(m, pc, instr)
            },
        }
    }
}

/// The state after the driver has moved the program counter on by four.
pub open spec fn advanced(m: MachineState) -> MachineState {
    MachineState {
        regs: crate::registers::write_register(
            m.regs,
            Register::R15,
            read_register(m.regs, Register::R15).wrapping_add(4),
        ),
        ..m
    }
}

/// What one poll does to the machine: a stopped processor stays as it is;
/// a running one takes a step, after which the program counter moves on by
/// four.
pub open spec fn spec_poll(m: MachineState) -> Result<MachineState, ProcessorError> {
    if m.state == ProcessorState::Stopped {
        Ok(m)
    } else {
        match spec_step(m) {
            Ok((next, _)) => Ok(advanced(next)),
            Err(e) => Err(e),
        }
    }
}

/// A step keeps the sizes of the bank and of the memory, and no step
/// leaves the stopped state: a running processor stops on the software
/// interrupt 2 only, and a stopped one never runs again.
pub proof fn lemma_step_state(m: MachineState)
    requires
        m.wf(),
        spec_step(m) is Ok,
    ensures
        spec_step(m).unwrap().0.wf(),
        m.state == ProcessorState::Stopped ==> spec_step(m).unwrap().0.state
            == ProcessorState::Stopped,
        spec_step(m).unwrap().0.state != m.state ==> (Instr::spec_decode(
            m.mem[(read_register(m.regs, Register::R15) / 4) as int],
        ) matches Some((_, instr)) && instr == (Instr::SoftwareInterrupt { comment: 2 })),
{
    let pc = read_register(m.regs, Register::R15);
    match Instr::spec_decode(m.mem[(pc / 4) as int]) {
        Some((cond, instr)) => {
            if condition_holds(m.regs[cpsr_slot()], cond) {
                lemma_execute_state(m, pc, instr);
            }
        },
        None => {},
    }
}

/// What `lemma_step_state` says, of an instruction whose condition holds.
pub proof fn lemma_execute_state(m: MachineState, pc: u32, instr: Instr)
    requires
        m.wf(),
        spec_execute(m, pc, instr) is Ok,
    ensures
        spec_execute(m, pc, instr).unwrap().0.wf(),
        m.state == ProcessorState::Stopped ==> spec_execute(m, pc, instr).unwrap().0.state
            == ProcessorState::Stopped,
        spec_execute(m, pc, instr).unwrap().0.state != m.state ==> instr
            == (Instr::SoftwareInterrupt { comment: 2 }),
{
    match instr {
        Instr::BranchExchange { operand } => branch::lemma_step_branch_exchange_keeps_state(
            m,
            operand,
        ),
        Instr::Branch { link, offset } => branch::lemma_step_branch_keeps_state(
            m,
            pc,
            link,
            offset,
        ),
        Instr::Data { set_condition_codes, op, dest, op1, op2 } => {
            data::lemma_step_data_keeps_state(m, set_condition_codes, op, dest, op1, op2)
        },
        Instr::Mrs { psr, target } => status::lemma_step_mrs_keeps_state(m, psr, target),
        Instr::Msr { psr, source } => status::lemma_step_msr_keeps_state(m, psr, source),
        Instr::Multiply { set_condition_codes, dest, op1, op2, addend } => {
            multiply::lemma_step_multiply_keeps_state(
                m,
                set_condition_codes,
                dest,
                op1,
                op2,
                addend,
            )
        },
        Instr::MultiplyLong {
            set_condition_codes,
            signed,
            accumulate,
            dest_hi,
            dest_lo,
            op1,
            op2,
        } => multiply::lemma_step_multiply_long_keeps_state(
            m,
            set_condition_codes,
            signed,
            accumulate,
            dest_hi,
            dest_lo,
            op1,
            op2,
        ),
        Instr::SingleTransfer {
            kind,
            size,
            write_back,
            offset_positive,
            pre_index,
            data_register,
            base_register,
            offset,
        } => transfer::lemma_step_single_transfer_keeps_state(
            m,
            kind,
            size,
            write_back,
            offset_positive,
            pre_index,
            data_register,
            base_register,
            offset,
        ),
        Instr::SingleTransferSpecial {
            kind,
            size,
            write_back,
            offset_positive,
            pre_index,
            data_register,
            base_register,
            offset,
        } => transfer::lemma_step_single_transfer_special_keeps_state(
            m,
            kind,
            size,
            write_back,
            offset_positive,
            pre_index,
            data_register,
            base_register,
            offset,
        ),
        _ => {},
    }
}

impl View for Processor {
    type V = MachineState;

    closed spec fn view(&self) -> MachineState {
        MachineState { regs: self.registers@, mem: self.memory@, state: self.state }
    }
}

impl Default for Processor {
    /// A running processor with the registers and the memory in their
    /// initial state.
    fn default() -> (r: Self)
        ensures
            r.wf(),
            r@.regs == Registers::default_view(),
            r@.mem == Seq::new(WORD_COUNT as nat, |word: int| crate::memory::DEFAULT_WORD),
            r@.state == ProcessorState::Running,
    {
        Processor {
            registers: Registers::default(),
            memory: Memory::default(),
            state: ProcessorState::Running,
        }
    }
}

impl Processor {
    /// Whether the memory of the processor is well formed.
    pub closed spec fn wf(&self) -> bool {
        self.memory.wf()
    }

    /// The state of a well-formed processor has its sizes.
    pub proof fn lemma_view_wf(&self)
        ensures
            self@.wf(),
    {
    }

    /// The registers of the processor.
    pub fn registers(&self) -> (r: &Registers)
        ensures
            r@ == self@.regs,
    {
        &self.registers
    }

    /// The registers of the processor, to change them.
    pub fn registers_mut(&mut self) -> (r: &mut Registers)
        ensures
            r@ == old(self)@.regs,
            final(self)@ == (MachineState { regs: final(r)@, ..old(self)@ }),
            old(self).wf() ==> final(self).wf(),
    {
        &mut self.registers
    }

    /// The memory of the processor.
    pub fn memory(&self) -> (r: &Memory)
        ensures
            r@ == self@.mem,
            self.wf() ==> r.wf(),
    {
        &self.memory
    }

    /// The memory of the processor, to change it.
    pub fn memory_mut(&mut self) -> (r: &mut Memory)
        ensures
            r@ == old(self)@.mem,
            old(self).wf() ==> r.wf(),
            final(self)@ == (MachineState { mem: final(r)@, ..old(self)@ }),
            final(r).wf() ==> final(self).wf(),
    {
        &mut self.memory
    }

    /// Whether the processor runs or has halted.
    pub fn state(&self) -> (r: ProcessorState)
        ensures
            r == self@.state,
    {
        self.state
    }

    /// Drives the processor by one instruction: a running processor takes
    /// a step, after which the program counter moves on by four; a stopped
    /// processor stays as it is. On an error the processor stays as it was.
    pub fn poll(&mut self) -> (r: Result<(), ProcessorError>)
        requires
            old(self).wf(),
        ensures
            final(self).wf(),
            match spec_poll(old(self)@) {
                Ok(next) => r is Ok && final(self)@ == next,
                Err(e) => r == Err::<(), ProcessorError>(e) && final(self)@ == old(self)@,
            },
    {
        if self.state == ProcessorState::Stopped {
            return Ok(());
        }
        match self.step() {
            Ok(_) => {
                let pc = self.registers.get(Register::R15);
                self.registers.set(Register::R15, pc.wrapping_add(4));
                Ok(())
            },
            Err(e) => Err(e),
        }
    }

    /// Executes the instruction at the current program counter and says
    /// what it cost. On an error the processor stays as it was.
    pub fn step(&mut self) -> (r: Result<StepCost, ProcessorError>)
        requires
            old(self).wf(),
        ensures
            final(self).wf(),
            match spec_step(old(self)@) {
                Ok((next, cost)) => r == Ok::<StepCost, ProcessorError>(cost) && final(self)@
                    == next,
                Err(e) => r == Err::<StepCost, ProcessorError>(e) && final(self)@ == old(self)@,
            },
    {
        let pc = self.registers.get(Register::R15);
        // Check that the program counter is aligned.
        if pc % 4 != 0 {
            return Err(ProcessorError::UnalignedPc);
        }
        let (cond, instr) = match Instr::decode(self.memory.get_word_aligned(pc)) {
            Some(decoded) => decoded,
            None => {
                return Err(ProcessorError::UnrecognisedInstruction);
            },
        };
        // Check whether the condition code holds.
        if !self.registers.test_condition(cond) {
            // Unexecuted instructions take one S-cycle.
            return Ok(StepCost { seq: 1, non_seq: 0, internal: 0, pipeline_flush: false });
        }
        self.execute(pc, instr)
    }

    /// Executes one instruction whose condition holds.
    fn execute(&mut self, pc: u32, instr: Instr) -> (r: Result<StepCost, ProcessorError>)
        requires
            old(self).wf(),
        ensures
            final(self).wf(),
            match spec_execute(old(self)@, pc, instr) {
                Ok((next, cost)) => r == Ok::<StepCost, ProcessorError>(cost) && final(self)@
                    == next,
                Err(e) => r == Err::<StepCost, ProcessorError>(e) && final(self)@ == old(self)@,
            },
    {
        match instr {
            Instr::BranchExchange { operand } => self.execute_branch_exchange(operand),
            Instr::Branch { link, offset } => self.execute_branch(pc, link, offset),
            Instr::Data { .. } => self.dispatch_data(pc, instr),
            Instr::Mrs { psr, target } => self.execute_mrs(psr, target),
            Instr::Msr { psr, source } => self.execute_msr(psr, source),
            Instr::Multiply { .. } => self.dispatch_multiply(pc, instr),
            Instr::MultiplyLong { .. } => self.dispatch_multiply_long(pc, instr),
            Instr::SingleTransfer { .. } => self.dispatch_single_transfer(pc, instr),
            Instr::SingleTransferSpecial { .. } => self.dispatch_single_transfer_special(pc, instr),
            Instr::BlockTransfer { .. } => Err(ProcessorError::UnrecognisedInstruction),
            Instr::Swap { .. } => Err(ProcessorError::UnrecognisedInstruction),
            Instr::SoftwareInterrupt { comment } => {
                if comment == 2 {
                    // Halt the processor.
                    self.state = ProcessorState::Stopped;
                    Ok(StepCost { seq: 0, non_seq: 0, internal: 0, pipeline_flush: false })
                } else {
                    Err(ProcessorError::InvalidSwi)
                }
            },
        }
    }

    /// Takes a data-processing instruction apart and executes it.
    fn dispatch_data(&mut self, pc: u32, instr: Instr) -> (r: Result<StepCost, ProcessorError>)
        requires
            old(self).wf(),
            instr is Data,
        ensures
            final(self).wf(),
            match spec_execute(old(self)@, pc, instr) {
                Ok((next, cost)) => r == Ok::<StepCost, ProcessorError>(cost) && final(self)@
                    == next,
                Err(e) => r == Err::<StepCost, ProcessorError>(e) && final(self)@ == old(self)@,
            },
    {
        match instr {
            Instr::Data { set_condition_codes, op, dest, op1, op2 } => self.execute_data_processing(set_condition_codes, op, dest, op1, op2),
            _ => Err(ProcessorError::UnrecognisedInstruction),
        }
    }

    /// Takes a multiply apart and executes it.
    fn dispatch_multiply(&mut self, pc: u32, instr: Instr) -> (r: Result<StepCost, ProcessorError>)
        requires
            old(self).wf(),
            instr is Multiply,
        ensures
            final(self).wf(),
            match spec_execute(old(self)@, pc, instr) {
                Ok((next, cost)) => r == Ok::<StepCost, ProcessorError>(cost) && final(self)@
                    == next,
                Err(e) => r == Err::<StepCost, ProcessorError>(e) && final(self)@ == old(self)@,
            },
    {
        match instr {
            Instr::Multiply { set_condition_codes, dest, op1, op2, addend } => self.execute_multiply(set_condition_codes, dest, op1, op2, addend),
            _ => Err(ProcessorError::UnrecognisedInstruction),
        }
    }

    /// Takes a long multiply apart and executes it.
    fn dispatch_multiply_long(&mut self, pc: u32, instr: Instr) -> (r: Result<StepCost, ProcessorError>)
        requires
            old(self).wf(),
            instr is MultiplyLong,
        ensures
            final(self).wf(),
            match spec_execute(old(self)@, pc, instr) {
                Ok((next, cost)) => r == Ok::<StepCost, ProcessorError>(cost) && final(self)@
                    == next,
                Err(e) => r == Err::<StepCost, ProcessorError>(e) && final(self)@ == old(self)@,
            },
    {
        match instr {
            Instr::MultiplyLong { set_condition_codes, signed, accumulate, dest_hi, dest_lo, op1, op2 } => self.execute_multiply_long(
                set_condition_codes,
                signed,
                accumulate,
                dest_hi,
                dest_lo,
                op1,
                op2,
            ),
            _ => Err(ProcessorError::UnrecognisedInstruction),
        }
    }

    /// Takes a word or byte transfer apart and executes it.
    fn dispatch_single_transfer(&mut self, pc: u32, instr: Instr) -> (r: Result<StepCost, ProcessorError>)
        requires
            old(self).wf(),
            instr is SingleTransfer,
        ensures
            final(self).wf(),
            match spec_execute(old(self)@, pc, instr) {
                Ok((next, cost)) => r == Ok::<StepCost, ProcessorError>(cost) && final(self)@
                    == next,
                Err(e) => r == Err::<StepCost, ProcessorError>(e) && final(self)@ == old(self)@,
            },
    {
        match instr {
            Instr::SingleTransfer {
                kind,
                size,
                write_back,
                offset_positive,
                pre_index,
                data_register,
                base_register,
                offset,
            } => self.execute_single_transfer(
                kind,
                size,
                write_back,
                offset_positive,
                pre_index,
                data_register,
                base_register,
                offset,
            ),
            _ => Err(ProcessorError::UnrecognisedInstruction),
        }
    }

    /// Takes a halfword or signed transfer apart and executes it.
    fn dispatch_single_transfer_special(&mut self, pc: u32, instr: Instr) -> (r: Result<StepCost, ProcessorError>)
        requires
            old(self).wf(),
            instr is SingleTransferSpecial,
        ensures
            final(self).wf(),
            match spec_execute(old(self)@, pc, instr) {
                Ok((next, cost)) => r == Ok::<StepCost, ProcessorError>(cost) && final(self)@
                    == next,
                Err(e) => r == Err::<StepCost, ProcessorError>(e) && final(self)@ == old(self)@,
            },
    {
        match instr {
            Instr::SingleTransferSpecial {
                kind,
                size,
                write_back,
                offset_positive,
                pre_index,
                data_register,
                base_register,
                offset,
            } => self.execute_single_transfer_special(
                kind,
                size,
                write_back,
                offset_positive,
                pre_index,
                data_register,
                base_register,
                offset,
            ),
            _ => Err(ProcessorError::UnrecognisedInstruction),
        }
    }

    /// Immediately execute the instruction at the current program counter,
    /// and tell the listener what it cost: the sequential, the
    /// non-sequential and the internal cycles, in that order, each only if
    /// there are any, and then the pipeline flush if there is one.
    /// On an error the processor stays as it was and the listener hears
    /// nothing.
    pub fn try_execute<L: ProcessorListener>(&mut self, listener: &mut L) -> (r: Result<
        (),
        ProcessorError,
    >)
        requires
            old(self).wf(),
        ensures
            final(self).wf(),
            match spec_step(old(self)@) {
                Ok((next, cost)) => r is Ok && final(self)@ == next && *final(listener) == told(
                    *old(listener),
                    cost,
                    read_register(old(self)@.regs, Register::R15),
                ),
                Err(e) => r == Err::<(), ProcessorError>(e) && final(self)@ == old(self)@
                    && *final(listener) == *old(listener),
            },
    {
        let pc = self.registers.get(Register::R15);
        match self.step() {
            Ok(cost) => {
                if cost.seq > 0 {
                    listener.cycle(Cycle::Sequential, cost.seq, pc);
                }
                if cost.non_seq > 0 {
                    listener.cycle(Cycle::NonSeq, cost.non_seq, pc);
                }
                if cost.internal > 0 {
                    listener.cycle(Cycle::Internal, cost.internal, pc);
                }
                if cost.pipeline_flush {
                    listener.pipeline_flush(pc);
                }
                Ok(())
            },
            Err(e) => Err(e),
        }
    }
}

} // verus!
