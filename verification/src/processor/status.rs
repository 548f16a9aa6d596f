//! The transfers between the status registers and the general registers.

use vstd::prelude::*;
use crate::instr::bits::field;
use crate::instr::bits::get_field;
use crate::instr::ty::MsrSource;
use crate::instr::ty::Psr;
use crate::instr::ty::Register;
use crate::mode::Mode;
use crate::processor::MachineState;
use crate::processor::Processor;
use crate::processor::ProcessorError;
use crate::processor::StepCost;
use crate::processor::StepOutcome;
use crate::registers::banking_mode;
use crate::registers::cpsr_slot;
use crate::registers::read_register;
use crate::registers::write_register;

verus! {

/// A status word with its four flag bits taken from `value`.
pub open spec fn with_flags_of(word: u32, value: u32) -> u32 {
    (field(word, 0, 28) + field(value, 28, 4) * 0x1000_0000) as u32
}

/// Gives a status word the four flag bits of a value.
pub fn give_flags(word: u32, value: u32) -> (r: u32)
    ensures
        r == with_flags_of(word, value),
{
    get_field(word, 0, 28) + get_field(value, 28, 4) * 0x1000_0000
}

/// MRS: the target register receives the status register. One sequential
/// cycle. `NoSpsr` if the SPSR is asked for in a mode that has none.
#[verifier::opaque]
pub open spec fn step_mrs(m: MachineState, psr: Psr, target: Register) -> StepOutcome {
    match psr.spec_physical(banking_mode(m.regs[cpsr_slot()])) {
        None => Err(ProcessorError::NoSpsr),
        Some(source) => Ok(
            (
                MachineState {
                    regs: write_register(m.regs, target, m.regs[source.spec_index()]),
                    ..m
                },
                StepCost::spec_of(1, 0, 0, false),
            ),
        ),
    }
}

/// MSR: the status register receives a value. One sequential cycle.
/// - From a register, the whole status register is written, but in user
///   mode only its four flag bits.
/// - From a register to the flags, or from an immediate, only the four
///   flag bits are written, in any mode.
/// `NoSpsr` if the SPSR is asked for in a mode that has none.
#[verifier::opaque]
pub open spec fn step_msr(m: MachineState, psr: Psr, source: MsrSource) -> StepOutcome {
    let mode = banking_mode(m.regs[cpsr_slot()]);
    match psr.spec_physical(mode) {
        None => Err(ProcessorError::NoSpsr),
        Some(target) => {
            let before = m.regs[target.spec_index()];
            let after = match source {
                MsrSource::Register(register) => if mode == Mode::Usr {
                    with_flags_of(before, read_register(m.regs, register))
                } else {
                    read_register(m.regs, register)
                },
                MsrSource::RegisterFlags(register) => with_flags_of(
                    before,
                    read_register(m.regs, register),
                ),
                MsrSource::Flags(flags) => with_flags_of(before, flags),
            };
            Ok(
                (
                    MachineState { regs: m.regs.update(target.spec_index(), after), ..m },
                    StepCost::spec_of(1, 0, 0, false),
                ),
            )
        },
    }
}

/// In user mode an MSR changes nothing of a status register but its four
/// flag bits, whatever its source.
pub proof fn lemma_user_mode_protected(m: MachineState, psr: Psr, source: MsrSource)
    requires
        m.wf(),
        banking_mode(m.regs[cpsr_slot()]) == Mode::Usr,
        step_msr(m, psr, source) is Ok,
    ensures
        field(step_msr(m, psr, source).unwrap().0.regs[cpsr_slot()], 0, 28) == field(
            m.regs[cpsr_slot()],
            0,
            28,
        ),
        forall|i: int|
            0 <= i < 37 && i != cpsr_slot() ==> step_msr(m, psr, source).unwrap().0.regs[i]
                == m.regs[i],
{
    reveal(step_msr);
}

/// `step_mrs` keeps the sizes of the bank and of the memory, and leaves the
/// processor running or stopped as it was.
pub proof fn lemma_step_mrs_keeps_state(m: MachineState, psr: Psr, target: Register)
    requires
        m.wf(),
        step_mrs(m, psr, target) is Ok,
    ensures
        step_mrs(m, psr, target).unwrap().0.wf(),
        step_mrs(m, psr, target).unwrap().0.state == m.state,
{
    reveal(step_mrs);
}

/// `step_msr` keeps the sizes of the bank and of the memory, and leaves the
/// processor running or stopped as it was.
pub proof fn lemma_step_msr_keeps_state(m: MachineState, psr: Psr, source: MsrSource)
    requires
        m.wf(),
        step_msr(m, psr, source) is Ok,
    ensures
        step_msr(m, psr, source).unwrap().0.wf(),
        step_msr(m, psr, source).unwrap().0.state == m.state,
{
    reveal(step_msr);
}

impl Processor {
    /// Executes an MRS.
    pub(crate) fn execute_mrs(&mut self, psr: Psr, target: Register) -> (r: Result<
        StepCost,
        ProcessorError,
    >)
        requires
            old(self).wf(),
        ensures
            final(self).wf(),
            match step_mrs(old(self)@, psr, target) {
                Ok((next, cost)) => r == Ok::<StepCost, ProcessorError>(cost) && final(self)@
                    == next,
                Err(e) => r == Err::<StepCost, ProcessorError>(e) && final(self)@ == old(self)@,
            },
    {
        reveal(step_mrs);
        let mode = self.registers.banking_mode();
        match psr.physical(mode) {
            None => Err(ProcessorError::NoSpsr),
            Some(source) => {
                let value = self.registers.get_physical(source);
                self.registers.set(target, value);
                Ok(StepCost { seq: 1, non_seq: 0, internal: 0, pipeline_flush: false })
            },
        }
    }

    /// Executes an MSR.
    pub(crate) fn execute_msr(&mut self, psr: Psr, source: MsrSource) -> (r: Result<
        StepCost,
        ProcessorError,
    >)
        requires
            old(self).wf(),
        ensures
            final(self).wf(),
            match step_msr(old(self)@, psr, source) {
                Ok((next, cost)) => r == Ok::<StepCost, ProcessorError>(cost) && final(self)@
                    == next,
                Err(e) => r == Err::<StepCost, ProcessorError>(e) && final(self)@ == old(self)@,
            },
    {
        reveal(step_msr);
        let mode = self.registers.banking_mode();
        match psr.physical(mode) {
            None => Err(ProcessorError::NoSpsr),
            Some(target) => {
                let before = self.registers.get_physical(target);
                let after = match source {
                    MsrSource::Register(register) => {
                        let value = self.registers.get(register);
                        if mode == Mode::Usr {
                            give_flags(before, value)
                        } else {
                            value
                        }
                    },
                    MsrSource::RegisterFlags(register) => {
                        let value = self.registers.get(register);
                        give_flags(before, value)
                    },
                    MsrSource::Flags(flags) => give_flags(before, flags),
                };
                self.registers.set_physical(target, after);
                Ok(StepCost { seq: 1, non_seq: 0, internal: 0, pipeline_flush: false })
            },
        }
    }
}

} // verus!
