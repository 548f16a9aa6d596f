//! The multiplies.

use vstd::prelude::*;
use crate::instr::bits::bit_is_set;
use crate::instr::bits::with_nzcv;
use crate::instr::ty::Register;
use crate::processor::alu::signed;
use crate::processor::MachineState;
use crate::processor::Processor;
use crate::processor::ProcessorError;
use crate::processor::StepCost;
use crate::processor::StepOutcome;
use crate::registers::cpsr_slot;
use crate::registers::read_register;
use crate::registers::write_register;

verus! {

/// How many internal cycles a multiplier saves: one for each of its top
/// 8, 16 and 24 bits that are all zero, or, where `also_ones` holds, all
/// one.
pub open spec fn early_termination(multiplier: u32, also_ones: bool) -> nat {
    (if multiplier < 0x0100_0000 || (also_ones && multiplier >= 0xFF00_0000) {
        1nat
    } else {
        0nat
    }) + (if multiplier < 0x0001_0000 || (also_ones && multiplier >= 0xFFFF_0000) {
        1nat
    } else {
        0nat
    }) + (if multiplier < 0x0000_0100 || (also_ones && multiplier >= 0xFFFF_FF00) {
        1nat
    } else {
        0nat
    })
}

/// Works out how many internal cycles a multiplier saves.
pub fn compute_early_termination(multiplier: u32, also_ones: bool) -> (r: usize)
    ensures
        r == early_termination(multiplier, also_ones),
        r <= 3,
{
    let mut saved: usize = 0;
    if multiplier < 0x0100_0000 || (also_ones && multiplier >= 0xFF00_0000) {
        saved += 1;
    }
    if multiplier < 0x0001_0000 || (also_ones && multiplier >= 0xFFFF_0000) {
        saved += 1;
    }
    if multiplier < 0x0000_0100 || (also_ones && multiplier >= 0xFFFF_FF00) {
        saved += 1;
    }
    saved
}

/// MUL and MLA: the destination receives the product of the operands,
/// modulo 2^32, plus the addend if there is one.
/// With the flag bit, N and Z follow the result, C is cleared and V stays.
/// The cost is one sequential cycle and four internal cycles, less what the
/// multiplier `op2` saves, plus one for an addend.
#[verifier::opaque]
pub open spec fn step_multiply(
    m: MachineState,
    set_condition_codes: bool,
    dest: Register,
    op1: Register,
    op2: Register,
    addend: Option<Register>,
) -> StepOutcome {
    let cpsr = m.regs[cpsr_slot()];
    let multiplier = read_register(m.regs, op2);
    let product = read_register(m.regs, op1).wrapping_mul(multiplier);
    let result = match addend {
        Some(addend) => product.wrapping_add(read_register(m.regs, addend)),
        None => product,
    };
    let flagged = if set_condition_codes {
        m.regs.update(
            cpsr_slot(),
            with_nzcv(cpsr, result >= 0x8000_0000u32, result == 0, false, bit_is_set(cpsr, 28)),
        )
    } else {
        m.regs
    };
    Ok(
        (
            MachineState { regs: write_register(flagged, dest, result), ..m },
            StepCost::spec_of(
                1,
                0,
                (4 - early_termination(multiplier, true) + (if addend is Some {
                    1int
                } else {
                    0int
                })) as usize,
                false,
            ),
        ),
    )
}

/// The 64-bit result of a long multiply: the product of the operands, read
/// as signed or as unsigned numbers, plus the accumulator, modulo 2^64.
pub open spec fn long_product(signed_operands: bool, a: u32, b: u32, accumulator: u64) -> u64 {
    if signed_operands {
        ((signed(a) * signed(b) + accumulator) % 0x1_0000_0000_0000_0000) as u64
    } else {
        ((a * b + accumulator) % 0x1_0000_0000_0000_0000) as u64
    }
}

/// The long multiplies: the two destinations receive the high and the low
/// word of `long_product`; with `accumulate`, their old contents are
/// the accumulator.
/// With the flag bit, N is bit 31 of the low word, Z says that all 64 bits
/// are zero, C is cleared and V stays.
/// The cost is one sequential cycle and five internal cycles, less what the
/// multiplier `op2` saves (all-one bytes save only in the signed form),
/// plus one for accumulating.
#[verifier::opaque]
pub open spec fn step_multiply_long(
    m: MachineState,
    set_condition_codes: bool,
    signed_operands: bool,
    accumulate: bool,
    dest_hi: Register,
    dest_lo: Register,
    op1: Register,
    op2: Register,
) -> StepOutcome {
    let cpsr = m.regs[cpsr_slot()];
    let multiplier = read_register(m.regs, op2);
    let accumulator = if accumulate {
        (read_register(m.regs, dest_hi) * 0x1_0000_0000 + read_register(m.regs, dest_lo)) as u64
    } else {
        0u64
    };
    let result = long_product(
        signed_operands,
        read_register(m.regs, op1),
        multiplier,
        accumulator,
    );
    let hi = (result / 0x1_0000_0000) as u32;
    let lo = (result % 0x1_0000_0000) as u32;
    let flagged = if set_condition_codes {
        m.regs.update(
            cpsr_slot(),
            with_nzcv(cpsr, lo >= 0x8000_0000u32, result == 0, false, bit_is_set(cpsr, 28)),
        )
    } else {
        m.regs
    };
    Ok(
        (
            MachineState {
                regs: write_register(write_register(flagged, dest_hi, hi), dest_lo, lo),
                ..m
            },
            StepCost::spec_of(
                1,
                0,
                (5 - early_termination(multiplier, signed_operands) + (if accumulate {
                    1int
                } else {
                    0int
                })) as usize,
                false,
            ),
        ),
    )
}

/// Computes the 64-bit result of a long multiply.
pub fn compute_long_product(signed_operands: bool, a: u32, b: u32, accumulator: u64) -> (r: u64)
    ensures
        r == long_product(signed_operands, a, b, accumulator),
{
    if signed_operands {
        let sa: i128 = if a >= 0x8000_0000 {
            a as i128 - 0x1_0000_0000
        } else {
            a as i128
        };
        let sb: i128 = if b >= 0x8000_0000 {
            b as i128 - 0x1_0000_0000
        } else {
            b as i128
        };
        assert(-0x4000_0000_0000_0000 <= sa * sb <= 0x4000_0000_0000_0000) by (nonlinear_arith)
            requires
                -0x8000_0000 <= sa < 0x8000_0000,
                -0x8000_0000 <= sb < 0x8000_0000,
        ;
        let total: i128 = sa * sb + accumulator as i128;
        if total < 0 {
            (total + 0x1_0000_0000_0000_0000) as u64
        } else if total >= 0x1_0000_0000_0000_0000 {
            (total - 0x1_0000_0000_0000_0000) as u64
        } else {
            total as u64
        }
    } else {
        let ua: u128 = a as u128;
        let ub: u128 = b as u128;
        assert(0 <= ua * ub <= 0xFFFF_FFFE_0000_0001) by (nonlinear_arith)
            requires
                0 <= ua <= 0xFFFF_FFFF,
                0 <= ub <= 0xFFFF_FFFF,
        ;
        let total: u128 = ua * ub + accumulator as u128;
        if total >= 0x1_0000_0000_0000_0000 {
            (total - 0x1_0000_0000_0000_0000) as u64
        } else {
            total as u64
        }
    }
}

/// `step_multiply` keeps the sizes of the bank and of the memory, and leaves the
/// processor running or stopped as it was.
pub proof fn lemma_step_multiply_keeps_state(m: MachineState, set_condition_codes: bool, dest: Register, op1: Register, op2: Register, addend: Option<Register>)
    requires
        m.wf(),
        step_multiply(m, set_condition_codes, dest, op1, op2, addend) is Ok,
    ensures
        step_multiply(m, set_condition_codes, dest, op1, op2, addend).unwrap().0.wf(),
        step_multiply(m, set_condition_codes, dest, op1, op2, addend).unwrap().0.state == m.state,
{
    reveal(step_multiply);
}

/// `step_multiply_long` keeps the sizes of the bank and of the memory, and leaves the
/// processor running or stopped as it was.
pub proof fn lemma_step_multiply_long_keeps_state(m: MachineState, set_condition_codes: bool, signed_operands: bool, accumulate: bool, dest_hi: Register, dest_lo: Register, op1: Register, op2: Register)
    requires
        m.wf(),
        step_multiply_long(m, set_condition_codes, signed_operands, accumulate, dest_hi, dest_lo, op1, op2) is Ok,
    ensures
        step_multiply_long(m, set_condition_codes, signed_operands, accumulate, dest_hi, dest_lo, op1, op2).unwrap().0.wf(),
        step_multiply_long(m, set_condition_codes, signed_operands, accumulate, dest_hi, dest_lo, op1, op2).unwrap().0.state == m.state,
{
    reveal(step_multiply_long);
}

impl Processor {
    /// Executes a MUL or MLA.
    pub(crate) fn execute_multiply(
        &mut self,
        set_condition_codes: bool,
        dest: Register,
        op1: Register,
        op2: Register,
        addend: Option<Register>,
    ) -> (r: Result<StepCost, ProcessorError>)
        requires
            old(self).wf(),
        ensures
            final(self).wf(),
            match step_multiply(old(self)@, set_condition_codes, dest, op1, op2, addend) {
                Ok((next, cost)) => r == Ok::<StepCost, ProcessorError>(cost) && final(self)@
                    == next,
                Err(e) => r == Err::<StepCost, ProcessorError>(e) && final(self)@ == old(self)@,
            },
    {
        reveal(step_multiply);
        // The multiplier op2 controls the cycle count.
        let multiplier = self.registers.get(op2);
        let saved = compute_early_termination(multiplier, true);
        let product = self.registers.get(op1).wrapping_mul(multiplier);
        let result = match addend {
            Some(addend) => product.wrapping_add(self.registers.get(addend)),
            None => product,
        };
        if set_condition_codes {
            let overflow = self.registers.overflow();
            self.registers.set_flags(result >= 0x8000_0000, result == 0, false, overflow);
        }
        self.registers.set(dest, result);
        Ok(
            StepCost {
                seq: 1,
                non_seq: 0,
                internal: 4 - saved + (if addend.is_some() {
                    1
                } else {
                    0
                }),
                pipeline_flush: false,
            },
        )
    }

    /// Executes a long multiply.
    pub(crate) fn execute_multiply_long(
        &mut self,
        set_condition_codes: bool,
        signed_operands: bool,
        accumulate: bool,
        dest_hi: Register,
        dest_lo: Register,
        op1: Register,
        op2: Register,
    ) -> (r: Result<StepCost, ProcessorError>)
        requires
            old(self).wf(),
        ensures
            final(self).wf(),
            match step_multiply_long(
                old(self)@,
                set_condition_codes,
                signed_operands,
                accumulate,
                dest_hi,
                dest_lo,
                op1,
                op2,
            ) {
                Ok((next, cost)) => r == Ok::<StepCost, ProcessorError>(cost) && final(self)@
                    == next,
                Err(e) => r == Err::<StepCost, ProcessorError>(e) && final(self)@ == old(self)@,
            },
    {
        reveal(step_multiply_long);
        // The multiplier op2 controls the cycle count.
        let multiplier = self.registers.get(op2);
        let saved = compute_early_termination(multiplier, signed_operands);
        let accumulator: u64 = if accumulate {
            self.registers.get(dest_hi) as u64 * 0x1_0000_0000 + self.registers.get(dest_lo) as u64
        } else {
            0
        };
        let result = compute_long_product(
            signed_operands,
            self.registers.get(op1),
            multiplier,
            accumulator,
        );
        let hi: u32 = (result / 0x1_0000_0000) as u32;
        let lo: u32 = (result % 0x1_0000_0000) as u32;
        if set_condition_codes {
            let overflow = self.registers.overflow();
            self.registers.set_flags(lo >= 0x8000_0000, result == 0, false, overflow);
        }
        self.registers.set(dest_hi, hi);
        self.registers.set(dest_lo, lo);
        Ok(
            StepCost {
                seq: 1,
                non_seq: 0,
                internal: 5 - saved + (if accumulate {
                    1
                } else {
                    0
                }),
                pipeline_flush: false,
            },
        )
    }
}

} // verus!
