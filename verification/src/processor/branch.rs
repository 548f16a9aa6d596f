//! The branches.

use vstd::prelude::*;
use crate::instr::ty::Register;
use crate::processor::MachineState;
use crate::processor::Processor;
use crate::processor::ProcessorError;
use crate::processor::StepCost;
use crate::processor::StepOutcome;
use crate::registers::read_register;
use crate::registers::write_register;

verus! {

/// Branch and Exchange: one sequential cycle and a pipeline flush.
/// The program counter becomes the value of the operand, less the four
/// that the driver adds after the step.
/// The operand must not be `R15` (`InvalidUseOfPc`), and its value must be
/// a multiple of four (`UnalignedPc`): only ARM state is modelled.
#[verifier::opaque]
pub open spec fn step_branch_exchange(m: MachineState, operand: Register) -> StepOutcome {
    let target = read_register(m.regs, operand);
    if operand == Register::R15 {
        Err(ProcessorError::InvalidUseOfPc)
    } else if target % 4 != 0 {
        Err(ProcessorError::UnalignedPc)
    } else {
        Ok(
            (
                MachineState {
                    regs: write_register(m.regs, Register::R15, target.wrapping_sub(4)),
                    ..m
                },
                StepCost::spec_of(1, 0, 0, true),
            ),
        )
    }
}

/// Branch, and Branch with Link: one sequential cycle and a pipeline flush.
/// With the link flag, `R14` receives the address of the next instruction.
/// The program counter becomes `pc + 4 + offset`, to which the driver adds
/// four: the offset counts from two instructions ahead.
#[verifier::opaque]
pub open spec fn step_branch(m: MachineState, pc: u32, link: bool, offset: i32) -> StepOutcome {
    let linked = if link {
        write_register(m.regs, Register::R14, pc.wrapping_add(4))
    } else {
        m.regs
    };
    Ok(
        (
            MachineState {
                regs: write_register(
                    linked,
                    Register::R15,
                    pc.wrapping_add(4).wrapping_add_signed(offset),
                ),
                ..m
            },
            StepCost::spec_of(1, 0, 0, true),
        ),
    )
}

/// `step_branch_exchange` keeps the sizes of the bank and of the memory, and leaves the
/// processor running or stopped as it was.
pub proof fn lemma_step_branch_exchange_keeps_state(m: MachineState, operand: Register)
    requires
        m.wf(),
        step_branch_exchange(m, operand) is Ok,
    ensures
        step_branch_exchange(m, operand).unwrap().0.wf(),
        step_branch_exchange(m, operand).unwrap().0.state == m.state,
{
    reveal(step_branch_exchange);
}

/// `step_branch` keeps the sizes of the bank and of the memory, and leaves the
/// processor running or stopped as it was.
pub proof fn lemma_step_branch_keeps_state(m: MachineState, pc: u32, link: bool, offset: i32)
    requires
        m.wf(),
        step_branch(m, pc, link, offset) is Ok,
    ensures
        step_branch(m, pc, link, offset).unwrap().0.wf(),
        step_branch(m, pc, link, offset).unwrap().0.state == m.state,
{
    reveal(step_branch);
}

impl Processor {
    /// Executes a Branch and Exchange.
    pub(crate) fn execute_branch_exchange(&mut self, operand: Register) -> (r: Result<
        StepCost,
        ProcessorError,
    >)
        requires
            old(self).wf(),
        ensures
            final(self).wf(),
            match step_branch_exchange(old(self)@, operand) {
                Ok((next, cost)) => r == Ok::<StepCost, ProcessorError>(cost) && final(self)@
                    == next,
                Err(e) => r == Err::<StepCost, ProcessorError>(e) && final(self)@ == old(self)@,
            },
    {
        reveal(step_branch_exchange);
        if operand == Register::R15 {
            return Err(ProcessorError::InvalidUseOfPc);
        }
        let target = self.registers.get(operand);
        if target % 4 != 0 {
            // We don't emulate THUMB instructions.
            return Err(ProcessorError::UnalignedPc);
        }
        self.registers.set(Register::R15, target.wrapping_sub(4));
        Ok(StepCost { seq: 1, non_seq: 0, internal: 0, pipeline_flush: true })
    }

    /// Executes a branch.
    pub(crate) fn execute_branch(&mut self, pc: u32, link: bool, offset: i32) -> (r: Result<
        StepCost,
        ProcessorError,
    >)
        requires
            old(self).wf(),
        ensures
            final(self).wf(),
            match step_branch(old(self)@, pc, link, offset) {
                Ok((next, cost)) => r == Ok::<StepCost, ProcessorError>(cost) && final(self)@
                    == next,
                Err(e) => r == Err::<StepCost, ProcessorError>(e) && final(self)@ == old(self)@,
            },
    {
        reveal(step_branch);
        if link {
            // Write the address of the next instruction into R14 (LR).
            self.registers.set(Register::R14, pc.wrapping_add(4));
        }
        // Only add 4 bytes instead of the actual PC offset (8 bytes)
        // because the PC is incremented anyway at the end of the step.
        self.registers.set(Register::R15, pc.wrapping_add(4).wrapping_add_signed(offset));
        Ok(StepCost { seq: 1, non_seq: 0, internal: 0, pipeline_flush: true })
    }
}

} // verus!
