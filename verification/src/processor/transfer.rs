//! The single data transfers.

use vstd::prelude::*;
use crate::instr::bits::bit_is_set;
use crate::instr::bits::field;
use crate::instr::bits::get_field;
use crate::instr::bits::ror32;
use crate::instr::bits::rotate_right;
use crate::instr::ty::Register;
use crate::instr::ty::SpecialOperand;
use crate::instr::ty::TransferKind;
use crate::instr::ty::TransferOperand;
use crate::instr::ty::TransferSize;
use crate::instr::ty::TransferSizeSpecial;
use crate::memory::byte_of_word;
use crate::memory::word_with_byte;
use crate::processor::shifter::barrel_shift;
use crate::processor::shifter::compute_barrel_shift;
use crate::processor::MachineState;
use crate::processor::Processor;
use crate::processor::ProcessorError;
use crate::processor::StepCost;
use crate::processor::StepOutcome;
use crate::registers::cpsr_slot;
use crate::registers::read_register;
use crate::registers::read_register_pc;
use crate::registers::write_register;

verus! {

/// What a transfer costs: two non-sequential cycles for a store; one
/// sequential, one non-sequential and one internal cycle for a load, and
/// one sequential and one non-sequential cycle more if it loads `R15`.
pub open spec fn transfer_cost(kind: TransferKind, data_register: Register) -> StepCost {
    if kind == TransferKind::Store {
        StepCost::spec_of(0, 2, 0, false)
    } else if data_register == Register::R15 {
        StepCost::spec_of(2, 2, 1, false)
    } else {
        StepCost::spec_of(1, 1, 1, false)
    }
}

/// The base moved by the offset, up or down, modulo 2^32.
pub open spec fn moved_base(base: u32, magnitude: u32, offset_positive: bool) -> u32 {
    if offset_positive {
        base.wrapping_add(magnitude)
    } else {
        base.wrapping_sub(magnitude)
    }
}

/// A value as it is loaded into a register: a value for `R15` is written
/// less the four that the driver adds.
pub open spec fn loaded_for(data_register: Register, value: u32) -> u32 {
    if data_register == Register::R15 {
        value.wrapping_sub(4)
    } else {
        value
    }
}

/// The halfword in the lower or the upper half of a word.
pub open spec fn halfword_of_word(word: u32, upper: bool) -> u32 {
    if upper {
        field(word, 16, 16)
    } else {
        field(word, 0, 16)
    }
}

/// A word with its lower or its upper half replaced by the low half of
/// `value`.
pub open spec fn word_with_halfword(word: u32, upper: bool, value: u32) -> u32 {
    if upper {
        (field(word, 0, 16) + field(value, 0, 16) * 0x1_0000) as u32
    } else {
        (field(word, 16, 16) * 0x1_0000 + field(value, 0, 16)) as u32
    }
}

/// A byte sign-extended to a word.
pub open spec fn sign_extend_byte(byte: u8) -> u32 {
    if byte >= 0x80 {
        (byte + 0xFFFF_FF00) as u32
    } else {
        byte as u32
    }
}

/// A halfword sign-extended to a word.
pub open spec fn sign_extend_halfword(half: u32) -> u32 {
    if 0x8000 <= half < 0x1_0000 {
        (half + 0xFFFF_0000) as u32
    } else {
        half
    }
}

/// LDR and STR of a word or a byte.
///
/// The offset is a constant, or a register shifted by a constant; the
/// register must not be `R15` (`InvalidUseOfPc`) and the shift not by a
/// register (`AddressTooComplex`). It is added to the base or taken from
/// it. A pre-indexed transfer uses the moved base as its address and
/// writes it back if asked to; a post-indexed transfer uses the base and
/// always writes the moved base back. `R15` cannot be written back
/// (`InvalidUseOfPc`); as a base it reads 8 bytes ahead, as the data of a
/// store 12 bytes ahead.
///
/// A word is loaded from the aligned word and rotated right by eight bits
/// for each byte that the address is past it; a byte is loaded from its
/// lane. A word is stored to the aligned word, a byte to its lane.
/// On a load the loaded value wins over the write-back.
#[verifier::opaque]
pub open spec fn step_single_transfer(
    m: MachineState,
    kind: TransferKind,
    size: TransferSize,
    write_back: bool,
    offset_positive: bool,
    pre_index: bool,
    data_register: Register,
    base_register: Register,
    offset: TransferOperand,
) -> StepOutcome {
    let writes_back = write_back || !pre_index;
    if offset matches TransferOperand::Register(register, _) && register == Register::R15 {
        Err(ProcessorError::InvalidUseOfPc)
    } else if offset matches TransferOperand::Register(_, shift) && shift.shift_amount
        is Register {
        Err(ProcessorError::AddressTooComplex)
    } else if writes_back && base_register == Register::R15 {
        Err(ProcessorError::InvalidUseOfPc)
    } else {
        let magnitude = match offset {
            TransferOperand::Constant(value) => value as u32,
            TransferOperand::Register(register, shift) => barrel_shift(
                read_register(m.regs, register),
                shift.shift_type,
                shift.shift_amount->Constant_0,
                bit_is_set(m.regs[cpsr_slot()], 29),
            ).0,
        };
        let base = read_register_pc(m.regs, base_register, 8);
        let moved = moved_base(base, magnitude, offset_positive);
        let address = if pre_index {
            moved
        } else {
            base
        };
        let word = m.mem[(address / 4) as int];
        let based = if writes_back {
            write_register(m.regs, base_register, moved)
        } else {
            m.regs
        };
        match kind {
            TransferKind::Load => {
                let value = match size {
                    TransferSize::Byte => byte_of_word(word, address % 4) as u32,
                    TransferSize::Word => ror32(word, (8 * (address % 4)) as u32),
                };
                Ok(
                    (
                        MachineState {
                            regs: write_register(
                                based,
                                data_register,
                                loaded_for(data_register, value),
                            ),
                            ..m
                        },
                        transfer_cost(kind, data_register),
                    ),
                )
            },
            TransferKind::Store => {
                let stored = read_register_pc(m.regs, data_register, 12);
                let new_word = match size {
                    TransferSize::Byte => word_with_byte(word, address % 4, (stored % 256) as u8),
                    TransferSize::Word => stored,
                };
                Ok(
                    (
                        MachineState {
                            regs: based,
                            mem: m.mem.update((address / 4) as int, new_word),
                            ..m
                        },
                        transfer_cost(kind, data_register),
                    ),
                )
            },
        }
    }
}

/// LDR and STR of a halfword, and LDR of a signed byte or halfword.
///
/// Only a halfword can be stored (`UnrecognisedInstruction` otherwise).
/// The offset is a constant or a register, which must not be `R15`
/// (`InvalidUseOfPc`). The address and the write-back are as in
/// `step_single_transfer`. The address of a halfword must be a multiple of
/// two (`UnalignedTransfer`).
///
/// A halfword is loaded from the half of the aligned word that holds it,
/// a signed halfword or byte is sign-extended to 32 bits. A halfword is
/// stored to its half of the aligned word; the other half stays.
#[verifier::opaque]
pub open spec fn step_single_transfer_special(
    m: MachineState,
    kind: TransferKind,
    size: TransferSizeSpecial,
    write_back: bool,
    offset_positive: bool,
    pre_index: bool,
    data_register: Register,
    base_register: Register,
    offset: SpecialOperand,
) -> StepOutcome {
    let writes_back = write_back || !pre_index;
    let magnitude = match offset {
        SpecialOperand::Constant(value) => value as u32,
        SpecialOperand::Register(register) => read_register(m.regs, register),
    };
    let base = read_register_pc(m.regs, base_register, 8);
    let moved = moved_base(base, magnitude, offset_positive);
    let address = if pre_index {
        moved
    } else {
        base
    };
    if kind == TransferKind::Store && size != TransferSizeSpecial::HalfWord {
        Err(ProcessorError::UnrecognisedInstruction)
    } else if offset matches SpecialOperand::Register(register) && register == Register::R15 {
        Err(ProcessorError::InvalidUseOfPc)
    } else if writes_back && base_register == Register::R15 {
        Err(ProcessorError::InvalidUseOfPc)
    } else if size != TransferSizeSpecial::SignExtendedByte && address % 2 != 0 {
        Err(ProcessorError::UnalignedTransfer)
    } else {
        let word = m.mem[(address / 4) as int];
        let upper = address % 4 >= 2;
        let based = if writes_back {
            write_register(m.regs, base_register, moved)
        } else {
            m.regs
        };
        match kind {
            TransferKind::Load => {
                let value = match size {
                    TransferSizeSpecial::HalfWord => halfword_of_word(word, upper),
                    TransferSizeSpecial::SignExtendedByte => sign_extend_byte(
                        byte_of_word(word, address % 4),
                    ),
                    TransferSizeSpecial::SignExtendedHalfWord => sign_extend_halfword(
                        halfword_of_word(word, upper),
                    ),
                };
                Ok(
                    (
                        MachineState {
                            regs: write_register(
                                based,
                                data_register,
                                loaded_for(data_register, value),
                            ),
                            ..m
                        },
                        transfer_cost(kind, data_register),
                    ),
                )
            },
            TransferKind::Store => Ok(
                (
                    MachineState {
                        regs: based,
                        mem: m.mem.update(
                            (address / 4) as int,
                            word_with_halfword(
                                word,
                                upper,
                                read_register_pc(m.regs, data_register, 12),
                            ),
                        ),
                        ..m
                    },
                    transfer_cost(kind, data_register),
                ),
            ),
        }
    }
}

/// Works out what a transfer costs.
fn compute_transfer_cost(kind: TransferKind, data_register: Register) -> (r: StepCost)
    ensures
        r == transfer_cost(kind, data_register),
{
    if kind == TransferKind::Store {
        StepCost { seq: 0, non_seq: 2, internal: 0, pipeline_flush: false }
    } else if data_register == Register::R15 {
        StepCost { seq: 2, non_seq: 2, internal: 1, pipeline_flush: false }
    } else {
        StepCost { seq: 1, non_seq: 1, internal: 1, pipeline_flush: false }
    }
}

/// Moves a base by an offset, up or down.
fn compute_moved_base(base: u32, magnitude: u32, offset_positive: bool) -> (r: u32)
    ensures
        r == moved_base(base, magnitude, offset_positive),
{
    if offset_positive {
        base.wrapping_add(magnitude)
    } else {
        base.wrapping_sub(magnitude)
    }
}

/// `step_single_transfer` keeps the sizes of the bank and of the memory, and leaves the
/// processor running or stopped as it was.
pub proof fn lemma_step_single_transfer_keeps_state(m: MachineState, kind: TransferKind, size: TransferSize, write_back: bool, offset_positive: bool, pre_index: bool, data_register: Register, base_register: Register, offset: TransferOperand)
    requires
        m.wf(),
        step_single_transfer(m, kind, size, write_back, offset_positive, pre_index, data_register, base_register, offset) is Ok,
    ensures
        step_single_transfer(m, kind, size, write_back, offset_positive, pre_index, data_register, base_register, offset).unwrap().0.wf(),
        step_single_transfer(m, kind, size, write_back, offset_positive, pre_index, data_register, base_register, offset).unwrap().0.state == m.state,
{
    reveal(step_single_transfer);
}

/// `step_single_transfer_special` keeps the sizes of the bank and of the memory, and leaves the
/// processor running or stopped as it was.
pub proof fn lemma_step_single_transfer_special_keeps_state(m: MachineState, kind: TransferKind, size: TransferSizeSpecial, write_back: bool, offset_positive: bool, pre_index: bool, data_register: Register, base_register: Register, offset: SpecialOperand)
    requires
        m.wf(),
        step_single_transfer_special(m, kind, size, write_back, offset_positive, pre_index, data_register, base_register, offset) is Ok,
    ensures
        step_single_transfer_special(m, kind, size, write_back, offset_positive, pre_index, data_register, base_register, offset).unwrap().0.wf(),
        step_single_transfer_special(m, kind, size, write_back, offset_positive, pre_index, data_register, base_register, offset).unwrap().0.state == m.state,
{
    reveal(step_single_transfer_special);
}

impl Processor {
    /// The size of a transfer offset, before its sign is applied.
    pub(crate) fn evaluate_transfer_operand(&self, operand: TransferOperand) -> (r: Result<
        u32,
        ProcessorError,
    >)
        ensures
            r == (match operand {
                TransferOperand::Constant(value) => Ok::<u32, ProcessorError>(value as u32),
                TransferOperand::Register(register, shift) => if register == Register::R15 {
                    Err(ProcessorError::InvalidUseOfPc)
                } else if shift.shift_amount is Register {
                    Err(ProcessorError::AddressTooComplex)
                } else {
                    Ok(
                        barrel_shift(
                            read_register(self@.regs, register),
                            shift.shift_type,
                            shift.shift_amount->Constant_0,
                            bit_is_set(self@.regs[cpsr_slot()], 29),
                        ).0,
                    )
                },
            }),
    {
        match operand {
            TransferOperand::Constant(value) => Ok(value as u32),
            TransferOperand::Register(register, shift) => {
                if register == Register::R15 {
                    return Err(ProcessorError::InvalidUseOfPc);
                }
                match shift.shift_amount {
                    crate::instr::ty::ShiftAmount::Constant(amount) => {
                        // The barrel shifter carry out is not used.
                        let shifted = compute_barrel_shift(
                            self.registers.get(register),
                            shift.shift_type,
                            amount,
                            self.registers.carry(),
                        );
                        Ok(shifted.0)
                    },
                    crate::instr::ty::ShiftAmount::Register(_) => Err(
                        ProcessorError::AddressTooComplex,
                    ),
                }
            },
        }
    }

    /// Executes an LDR or STR of a word or a byte.
    pub(crate) fn execute_single_transfer(
        &mut self,
        kind: TransferKind,
        size: TransferSize,
        write_back: bool,
        offset_positive: bool,
        pre_index: bool,
        data_register: Register,
        base_register: Register,
        offset: TransferOperand,
    ) -> (r: Result<StepCost, ProcessorError>)
        requires
            old(self).wf(),
        ensures
            final(self).wf(),
            match step_single_transfer(
                old(self)@,
                kind,
                size,
                write_back,
                offset_positive,
                pre_index,
                data_register,
                base_register,
                offset,
            ) {
                Ok((next, cost)) => r == Ok::<StepCost, ProcessorError>(cost) && final(self)@
                    == next,
                Err(e) => r == Err::<StepCost, ProcessorError>(e) && final(self)@ == old(self)@,
            },
    {
        reveal(step_single_transfer);
        let writes_back = write_back || !pre_index;
        let magnitude = match self.evaluate_transfer_operand(offset) {
            Ok(magnitude) => magnitude,
            Err(e) => {
                return Err(e);
            },
        };
        if writes_back && base_register == Register::R15 {
            return Err(ProcessorError::InvalidUseOfPc);
        }
        // We emulate a little-endian architecture.
        let base = self.registers.get_pc_offset(base_register, 8);
        let moved = compute_moved_base(base, magnitude, offset_positive);
        let address = if pre_index {
            moved
        } else {
            base
        };
        match kind {
            TransferKind::Load => {
                let value = match size {
                    TransferSize::Byte => self.memory.get_byte(address) as u32,
                    TransferSize::Word => {
                        // Rotate the aligned word to match the offset from
                        // word alignment.
                        rotate_right(self.memory.get_word_aligned(address), 8 * (address % 4))
                    },
                };
                if writes_back {
                    self.registers.set(base_register, moved);
                }
                if data_register == Register::R15 {
                    // Pre-decrement by 4 to compensate for auto-increment.
                    self.registers.set(data_register, value.wrapping_sub(4));
                } else {
                    self.registers.set(data_register, value);
                }
            },
            TransferKind::Store => {
                let stored = self.registers.get_pc_offset(data_register, 12);
                match size {
                    TransferSize::Byte => self.memory.set_byte(address, (stored % 256) as u8),
                    TransferSize::Word => self.memory.set_word_aligned(address, stored),
                }
                if writes_back {
                    self.registers.set(base_register, moved);
                }
            },
        }
        Ok(compute_transfer_cost(kind, data_register))
    }

    /// Executes an LDR or STR of a halfword, or an LDR of a signed byte or
    /// halfword.
    pub(crate) fn execute_single_transfer_special(
        &mut self,
        kind: TransferKind,
        size: TransferSizeSpecial,
        write_back: bool,
        offset_positive: bool,
        pre_index: bool,
        data_register: Register,
        base_register: Register,
        offset: SpecialOperand,
    ) -> (r: Result<StepCost, ProcessorError>)
        requires
            old(self).wf(),
        ensures
            final(self).wf(),
            match step_single_transfer_special(
                old(self)@,
                kind,
                size,
                write_back,
                offset_positive,
                pre_index,
                data_register,
                base_register,
                offset,
            ) {
                Ok((next, cost)) => r == Ok::<StepCost, ProcessorError>(cost) && final(self)@
                    == next,
                Err(e) => r == Err::<StepCost, ProcessorError>(e) && final(self)@ == old(self)@,
            },
    {
        reveal(step_single_transfer_special);
        let writes_back = write_back || !pre_index;
        if kind == TransferKind::Store && size != TransferSizeSpecial::HalfWord {
            return Err(ProcessorError::UnrecognisedInstruction);
        }
        let magnitude = match offset {
            SpecialOperand::Constant(value) => value as u32,
            SpecialOperand::Register(register) => {
                if register == Register::R15 {
                    return Err(ProcessorError::InvalidUseOfPc);
                }
                self.registers.get(register)
            },
        };
        if writes_back && base_register == Register::R15 {
            return Err(ProcessorError::InvalidUseOfPc);
        }
        let base = self.registers.get_pc_offset(base_register, 8);
        let moved = compute_moved_base(base, magnitude, offset_positive);
        let address = if pre_index {
            moved
        } else {
            base
        };
        if size != TransferSizeSpecial::SignExtendedByte && address % 2 != 0 {
            return Err(ProcessorError::UnalignedTransfer);
        }
        let word = self.memory.get_word_aligned(address);
        let upper = address % 4 >= 2;
        match kind {
            TransferKind::Load => {
                let half: u32 = if upper {
                    get_field(word, 16, 16)
                } else {
                    get_field(word, 0, 16)
                };
                let value: u32 = match size {
                    TransferSizeSpecial::HalfWord => half,
                    TransferSizeSpecial::SignExtendedByte => {
                        let byte = self.memory.get_byte(address);
                        if byte >= 0x80 {
                            byte as u32 + 0xFFFF_FF00
                        } else {
                            byte as u32
                        }
                    },
                    TransferSizeSpecial::SignExtendedHalfWord => {
                        if half >= 0x8000 {
                            half + 0xFFFF_0000
                        } else {
                            half
                        }
                    },
                };
                if writes_back {
                    self.registers.set(base_register, moved);
                }
                if data_register == Register::R15 {
                    self.registers.set(data_register, value.wrapping_sub(4));
                } else {
                    self.registers.set(data_register, value);
                }
            },
            TransferKind::Store => {
                let operand = self.registers.get_pc_offset(data_register, 12);
                let new_word: u32 = if upper {
                    // Set the most significant two bytes.
                    get_field(word, 0, 16) + get_field(operand, 0, 16) * 0x1_0000
                } else {
                    // Set the least significant two bytes.
                    get_field(word, 16, 16) * 0x1_0000 + get_field(operand, 0, 16)
                };
                self.memory.set_word_aligned(address, new_word);
                if writes_back {
                    self.registers.set(base_register, moved);
                }
            },
        }
        Ok(compute_transfer_cost(kind, data_register))
    }
}

} // verus!
