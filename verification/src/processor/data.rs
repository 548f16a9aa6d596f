//! The data-processing instructions.

use vstd::prelude::*;
use crate::instr::bits::bit_is_set;
use crate::instr::bits::with_nzcv;
use crate::instr::ty::DataOp;
use crate::instr::ty::DataOperand;
use crate::instr::ty::Psr;
use crate::instr::ty::Register;
use crate::instr::ty::Shift;
use crate::instr::ty::ShiftAmount;
use crate::processor::alu::alu;
use crate::processor::alu::compute_alu;
use crate::processor::shifter::barrel_shift;
use crate::processor::shifter::compute_barrel_shift;
use crate::processor::MachineState;
use crate::processor::Processor;
use crate::processor::ProcessorError;
use crate::processor::StepCost;
use crate::processor::StepOutcome;
use crate::registers::banking_mode;
use crate::registers::cpsr_slot;
use crate::registers::read_register;
use crate::registers::read_register_pc;
use crate::registers::write_register;

verus! {

/// How far ahead of the instruction the program counter reads in a
/// data-processing instruction: 12 bytes where a register holds the shift
/// amount, 8 bytes otherwise.
pub open spec fn data_pc_offset(op2: DataOperand) -> u32 {
    if op2.spec_is_register_specified_shift() {
        12
    } else {
        8
    }
}

/// The amount of a shift: the constant, or the bottom byte of the register,
/// which must not be `R15` (`PcUsedInShift`).
pub open spec fn shift_amount_value(regs: Seq<u32>, amount: ShiftAmount) -> Result<
    u8,
    ProcessorError,
> {
    match amount {
        ShiftAmount::Constant(n) => Ok(n),
        ShiftAmount::Register(register) => if register == Register::R15 {
            Err(ProcessorError::PcUsedInShift)
        } else {
            Ok((read_register(regs, register) % 256) as u8)
        },
    }
}

/// A value after a shift, with the carry out of the barrel shifter.
pub open spec fn shifted_value(regs: Seq<u32>, value: u32, shift: Shift) -> Result<
    (u32, bool),
    ProcessorError,
> {
    match shift_amount_value(regs, shift.shift_amount) {
        Ok(amount) => Ok(
            barrel_shift(value, shift.shift_type, amount, bit_is_set(regs[cpsr_slot()], 29)),
        ),
        Err(e) => Err(e),
    }
}

/// The value of the second operand, with the carry out of the barrel
/// shifter: for a constant its value and bit 31 of it; for a register its
/// value after the shift, where `R15` reads `pc_offset` bytes ahead.
pub open spec fn operand_value(regs: Seq<u32>, operand: DataOperand, pc_offset: u32) -> Result<
    (u32, bool),
    ProcessorError,
> {
    match operand {
        DataOperand::Constant(constant) => Ok(
            (constant.spec_value(), constant.spec_value() >= 0x8000_0000u32),
        ),
        DataOperand::Register(register, shift) => shifted_value(
            regs,
            read_register_pc(regs, register, pc_offset),
            shift,
        ),
    }
}

/// A data-processing instruction.
///
/// The operands are read with `R15` ahead by `data_pc_offset`, and the
/// operation gives a value and flags.
///
/// The flags are set if the instruction says so, and always by `TST`,
/// `TEQ`, `CMP` and `CMN`, which never write their result.
/// Where the flags are to be set and the result goes to `R15`, the CPSR is
/// instead restored from the SPSR of the current mode (`NoSpsr` if it has
/// none).
///
/// A result for `R15` is written less the four that the driver adds.
///
/// The cost is one sequential cycle, one internal cycle more for a shift by
/// a register, and a pipeline flush if `R15` is written.
#[verifier::opaque]
pub open spec fn step_data(
    m: MachineState,
    set_condition_codes: bool,
    op: DataOp,
    dest: Register,
    op1: Register,
    op2: DataOperand,
) -> StepOutcome {
    let pc_offset = data_pc_offset(op2);
    let cpsr = m.regs[cpsr_slot()];
    match operand_value(m.regs, op2, pc_offset) {
        Err(e) => Err(e),
        Ok((val2, shifter_carry)) => {
            let result = alu(
                op,
                read_register_pc(m.regs, op1, pc_offset),
                val2,
                shifter_carry,
                bit_is_set(cpsr, 29),
                bit_is_set(cpsr, 28),
            );
            let writes = !op.spec_is_test();
            let sets = set_condition_codes || op.spec_is_test();
            let restores = sets && writes && dest == Register::R15;
            let spsr = Psr::Spsr.spec_physical(banking_mode(cpsr));
            if restores && spsr is None {
                Err(ProcessorError::NoSpsr)
            } else {
                let flagged = if restores {
                    m.regs.update(cpsr_slot(), m.regs[spsr.unwrap().spec_index()])
                } else if sets {
                    m.regs.update(
                        cpsr_slot(),
                        with_nzcv(
                            cpsr,
                            result.negative,
                            result.zero,
                            result.carry,
                            result.overflow,
                        ),
                    )
                } else {
                    m.regs
                };
                let written = if !writes {
                    flagged
                } else if dest == Register::R15 {
                    write_register(flagged, dest, result.value.wrapping_sub(4))
                } else {
                    write_register(flagged, dest, result.value)
                };
                Ok(
                    (
                        MachineState { regs: written, ..m },
                        StepCost::spec_of(
                            1,
                            0,
                            if op2.spec_is_register_specified_shift() {
                                1
                            } else {
                                0
                            },
                            writes && dest == Register::R15,
                        ),
                    ),
                )
            }
        },
    }
}

/// What a `MOV`, `MVN` or `ORR` of a constant that leaves the flags alone
/// does to its destination, if that is not `R15`: the register receives
/// the constant, its complement, or its own value with the bits of the
/// constant set; nothing else changes, and the step costs one sequential
/// cycle. These are the instructions that healing builds constants from.
pub proof fn lemma_constant_step(
    m: MachineState,
    op: DataOp,
    dest: Register,
    op1: Register,
    constant: crate::instr::ty::RotatedConstant,
)
    requires
        m.wf(),
        dest != Register::R15,
        op == DataOp::Mov || op == DataOp::Mvn || (op == DataOp::Orr && op1 == dest),
    ensures
        step_data(m, false, op, dest, op1, DataOperand::Constant(constant)) == Ok::<
            (MachineState, StepCost),
            ProcessorError,
        >(
            (
                MachineState {
                    regs: write_register(
                        m.regs,
                        dest,
                        if op == DataOp::Mov {
                            constant.spec_value()
                        } else if op == DataOp::Mvn {
                            crate::instr::bits::complement(constant.spec_value())
                        } else {
                            read_register(m.regs, dest) | constant.spec_value()
                        },
                    ),
                    ..m
                },
                StepCost::spec_of(1, 0, 0, false),
            ),
        ),
{
    reveal(step_data);
}

/// After a `CMP` of a register with an operand the flags in the CPSR tell
/// how the two values stand: Z is set exactly if they are equal, C is
/// clear exactly if the first is below the second as unsigned numbers, and
/// N differs from V exactly if it is below as signed numbers.
pub proof fn lemma_compare_sets_flags(
    m: MachineState,
    set_condition_codes: bool,
    dest: Register,
    op1: Register,
    op2: DataOperand,
)
    requires
        m.wf(),
        step_data(m, set_condition_codes, DataOp::Cmp, dest, op1, op2) is Ok,
    ensures
        ({
            let a = read_register_pc(m.regs, op1, data_pc_offset(op2));
            let b = operand_value(m.regs, op2, data_pc_offset(op2))->Ok_0.0;
            let cpsr = step_data(
                m,
                set_condition_codes,
                DataOp::Cmp,
                dest,
                op1,
                op2,
            )->Ok_0.0.regs[cpsr_slot()];
            &&& bit_is_set(cpsr, 30) <==> a == b
            &&& !bit_is_set(cpsr, 29) <==> a < b
            &&& bit_is_set(cpsr, 31) != bit_is_set(cpsr, 28) <==> crate::processor::alu::signed(a)
                < crate::processor::alu::signed(b)
        }),
{
    reveal(step_data);
    let pc_offset = data_pc_offset(op2);
    let a = read_register_pc(m.regs, op1, pc_offset);
    let operand = operand_value(m.regs, op2, pc_offset)->Ok_0;
    let cpsr = m.regs[cpsr_slot()];
    let result = alu(
        DataOp::Cmp,
        a,
        operand.0,
        operand.1,
        bit_is_set(cpsr, 29),
        bit_is_set(cpsr, 28),
    );
    crate::processor::alu::lemma_compare_flags(
        a,
        operand.0,
        operand.1,
        bit_is_set(cpsr, 29),
        bit_is_set(cpsr, 28),
    );
    crate::instr::bits::lemma_with_nzcv(
        cpsr,
        result.negative,
        result.zero,
        result.carry,
        result.overflow,
    );
}

/// Reading `R15` in a data-processing instruction gives the address of the
/// instruction plus 8, or plus 12 where a register holds the shift amount:
/// as the first operand, and as the register of the second.
pub proof fn lemma_pc_reads_ahead(regs: Seq<u32>, op2: DataOperand)
    ensures
        read_register_pc(regs, Register::R15, data_pc_offset(op2)) as int == (read_register(
            regs,
            Register::R15,
        ) + (if op2.spec_is_register_specified_shift() {
            12int
        } else {
            8int
        })) % 0x1_0000_0000,
        match op2 {
            DataOperand::Register(register, shift) => register == Register::R15
                ==> operand_value(regs, op2, data_pc_offset(op2)) == shifted_value(
                regs,
                read_register_pc(regs, Register::R15, data_pc_offset(op2)),
                shift,
            ),
            DataOperand::Constant(_) => true,
        },
{
}

/// `step_data` keeps the sizes of the bank and of the memory, and leaves the
/// processor running or stopped as it was.
pub proof fn lemma_step_data_keeps_state(m: MachineState, set_condition_codes: bool, op: DataOp, dest: Register, op1: Register, op2: DataOperand)
    requires
        m.wf(),
        step_data(m, set_condition_codes, op, dest, op1, op2) is Ok,
    ensures
        step_data(m, set_condition_codes, op, dest, op1, op2).unwrap().0.wf(),
        step_data(m, set_condition_codes, op, dest, op1, op2).unwrap().0.state == m.state,
{
    reveal(step_data);
}

impl Processor {
    /// Executes a data-processing instruction.
    pub(crate) fn execute_data_processing(
        &mut self,
        set_condition_codes: bool,
        op: DataOp,
        dest: Register,
        op1: Register,
        op2: DataOperand,
    ) -> (r: Result<StepCost, ProcessorError>)
        requires
            old(self).wf(),
        ensures
            final(self).wf(),
            match step_data(old(self)@, set_condition_codes, op, dest, op1, op2) {
                Ok((next, cost)) => r == Ok::<StepCost, ProcessorError>(cost) && final(self)@
                    == next,
                Err(e) => r == Err::<StepCost, ProcessorError>(e) && final(self)@ == old(self)@,
            },
    {
        reveal(step_data);
        let register_shift = op2.is_register_specified_shift();
        let pc_offset: u32 = if register_shift {
            12
        } else {
            8
        };
        let val1 = self.registers.get_pc_offset(op1, pc_offset);
        let (val2, shifter_carry) = match self.evaluate_operand(op2, pc_offset) {
            Ok(value) => value,
            Err(e) => {
                return Err(e);
            },
        };
        let result = compute_alu(
            op,
            val1,
            val2,
            shifter_carry,
            self.registers.carry(),
            self.registers.overflow(),
        );
        let writes = !op.is_test();
        let sets = set_condition_codes || op.is_test();
        if sets {
            if writes && dest == Register::R15 {
                match Psr::Spsr.physical(self.registers.banking_mode()) {
                    Some(spsr) => {
                        let saved = self.registers.get_physical(spsr);
                        self.registers.set_physical(crate::registers::PhysicalRegister::Cpsr, saved);
                    },
                    None => {
                        return Err(ProcessorError::NoSpsr);
                    },
                }
            } else {
                self.registers.set_flags(
                    result.negative,
                    result.zero,
                    result.carry,
                    result.overflow,
                );
            }
        }
        if writes {
            if dest == Register::R15 {
                // Decrement the PC by 4 bytes to take the auto-increment
                // into account.
                self.registers.set(dest, result.value.wrapping_sub(4));
            } else {
                self.registers.set(dest, result.value);
            }
        }
        Ok(
            StepCost {
                seq: 1,
                non_seq: 0,
                internal: if register_shift {
                    1
                } else {
                    0
                },
                pipeline_flush: writes && dest == Register::R15,
            },
        )
    }

    /// Evaluate the given operand to a data processing instruction.
    /// The output is given together with a carry out bit from the barrel shifter.
    ///
    /// If a register specifies the shift amount, the PC reads 12 bytes
    /// ahead of the current instruction, else 8 bytes ahead.
    pub(crate) fn evaluate_operand(&self, operand: DataOperand, pc_offset: u32) -> (r: Result<
        (u32, bool),
        ProcessorError,
    >)
        ensures
            r == operand_value(self@.regs, operand, pc_offset),
    {
        match operand {
            DataOperand::Constant(constant) => Ok(constant.value()),
            DataOperand::Register(register, shift) => self.apply_shift(
                self.registers.get_pc_offset(register, pc_offset),
                shift,
            ),
        }
    }

    /// Perform the action of the barrel shifter on a value, with the shift
    /// amount taken from the instruction or from a register.
    /// The RRX (rotate right extended) shift type uses the C flag as a carry in.
    /// A shift by zero hands the current C flag on as the carry out.
    pub(crate) fn apply_shift(&self, value: u32, shift: Shift) -> (r: Result<
        (u32, bool),
        ProcessorError,
    >)
        ensures
            r == shifted_value(self@.regs, value, shift),
    {
        let amount: u8 = match shift.shift_amount {
            ShiftAmount::Constant(n) => n,
            ShiftAmount::Register(register) => {
                if register == Register::R15 {
                    return Err(ProcessorError::PcUsedInShift);
                }
                (self.registers.get(register) % 256) as u8
            },
        };
        Ok(compute_barrel_shift(value, shift.shift_type, amount, self.registers.carry()))
    }
}

} // verus!
