//! Encoding instructions as 32-bit words.

use vstd::prelude::*;
use crate::assemble::LineError;
use crate::instr::bits::field;
use crate::instr::bits::get_field;
use crate::instr::layout::enc_block;
use crate::instr::layout::put_condition;
use crate::instr::layout::with_condition;
use crate::instr::layout::enc_branch;
use crate::instr::layout::enc_bx;
use crate::instr::layout::enc_data;
use crate::instr::layout::enc_mrs;
use crate::instr::layout::enc_msr_immediate;
use crate::instr::layout::enc_msr_register;
use crate::instr::layout::enc_multiply;
use crate::instr::layout::enc_multiply_long;
use crate::instr::layout::enc_rotated;
use crate::instr::layout::enc_shift_constant;
use crate::instr::layout::enc_shift_register;
use crate::instr::layout::enc_swap;
use crate::instr::layout::enc_swi;
use crate::instr::layout::enc_transfer;
use crate::instr::layout::enc_transfer_special;
use crate::instr::layout::word_block;
use crate::instr::layout::word_branch;
use crate::instr::layout::word_bx;
use crate::instr::layout::word_rotated;
use crate::instr::layout::word_shift_constant;
use crate::instr::layout::word_shift_register;
use crate::instr::layout::word_swi;
use crate::instr::layout::word_data;
use crate::instr::layout::word_mrs;
use crate::instr::layout::word_msr_immediate;
use crate::instr::layout::word_msr_register;
use crate::instr::layout::word_multiply;
use crate::instr::layout::word_multiply_long;
use crate::instr::layout::word_swap;
use crate::instr::layout::word_transfer;
use crate::instr::layout::word_transfer_special;
use crate::instr::ty::Cond;
use crate::instr::ty::DataOperand;
use crate::instr::ty::Instr;
use crate::instr::ty::MsrSource;
use crate::instr::ty::Psr;
use crate::instr::ty::Register;
use crate::instr::ty::RotatedConstant;
use crate::instr::ty::Shift;
use crate::instr::ty::ShiftAmount;
use crate::instr::ty::ShiftType;
use crate::instr::ty::SpecialOperand;
use crate::instr::ty::TransferKind;
use crate::instr::ty::TransferOperand;
use crate::instr::ty::TransferSize;
use crate::instr::ty::TransferSizeSpecial;

verus! {

/// Whether a branch offset is a whole number of words.
pub open spec fn branch_offset_aligned(offset: i32) -> bool {
    offset as int % 4 == 0
}

/// Whether a branch offset, counted in words, fits in 24 signed bits.
pub open spec fn branch_offset_in_range(offset: i32) -> bool {
    -0x0200_0000 <= offset < 0x0200_0000
}

/// The 24-bit two's-complement field that holds a branch offset in words.
pub open spec fn branch_offset_field(offset: i32) -> u32 {
    if offset >= 0 {
        (offset as int / 4) as u32
    } else {
        ((offset as int + 0x0400_0000) / 4) as u32
    }
}

/// The size selector of a special transfer, in bits 6 and 5.
pub open spec fn special_size_bits(size: TransferSizeSpecial) -> u32 {
    match size {
        TransferSizeSpecial::HalfWord => 1,
        TransferSizeSpecial::SignExtendedByte => 2,
        TransferSizeSpecial::SignExtendedHalfWord => 3,
    }
}

impl Instr {
    /// The twelve operand bits of a register with a shift, or the reason
    /// why the shift has no encoding.
    ///
    /// A shift by the constant 0 is always written as `LSL #0`, because the
    /// bit patterns of the other shifts by zero mean something else: `LSR`
    /// and `ASR` by 32 are written with amount 0, and `RRX` is written as
    /// `ROR` with amount 0.
    pub open spec fn spec_encode_shift(register: Register, shift: Shift) -> Result<u32, LineError> {
        match shift.shift_amount {
            ShiftAmount::Constant(amount) => {
                if amount == 0 {
                    Ok(enc_shift_constant(register.spec_index(), 0, 0))
                } else if shift.shift_type == ShiftType::RotateRightExtended {
                    Ok(enc_shift_constant(register.spec_index(), 3, 0))
                } else if amount == 32 && (shift.shift_type == ShiftType::LogicalRight
                    || shift.shift_type == ShiftType::ArithmeticRight) {
                    Ok(enc_shift_constant(register.spec_index(), shift.shift_type.spec_index(), 0))
                } else if amount >= 32 {
                    Err(LineError::ShiftOutOfRange)
                } else {
                    Ok(
                        enc_shift_constant(
                            register.spec_index(),
                            shift.shift_type.spec_index(),
                            amount as u32,
                        ),
                    )
                }
            },
            ShiftAmount::Register(by) => {
                if shift.shift_type == ShiftType::RotateRightExtended {
                    Err(LineError::InvalidShiftType)
                } else {
                    Ok(
                        enc_shift_register(
                            register.spec_index(),
                            shift.shift_type.spec_index(),
                            by.spec_index(),
                        ),
                    )
                }
            },
        }
    }

    /// The twelve operand bits of a rotated constant. A half-rotate of 16 or
    /// more turns as far as its remainder modulo 16, and is written as that.
    pub open spec fn spec_encode_constant(value: RotatedConstant) -> u32 {
        enc_rotated((value.half_rotate % 16) as u32, value.immediate as u32)
    }

    /// The word of an instruction without its condition, in the lower 28
    /// bits, or the reason why the instruction has no encoding:
    /// - a branch offset that is no multiple of four, or too far;
    /// - a shift by a constant that the shift type cannot take, or `RRX` by a
    ///   register;
    /// - a transfer offset of 4096 or more, or a transfer whose offset
    ///   register is shifted by a register;
    /// - a store of a sign-extended size.
    pub open spec fn spec_encode_no_cond(self) -> Result<u32, LineError> {
        match self {
            Instr::BranchExchange { operand } => Ok(enc_bx(operand.spec_index())),
            Instr::Branch { link, offset } => {
                if !branch_offset_aligned(offset) {
                    Err(LineError::MisalignedBranchOffset)
                } else if !branch_offset_in_range(offset) {
                    Err(LineError::OffsetOutOfRange)
                } else {
                    Ok(enc_branch(link, branch_offset_field(offset)))
                }
            },
            Instr::Data { set_condition_codes, op, dest, op1, op2 } => match op2 {
                DataOperand::Constant(constant) => Ok(
                    enc_data(
                        true,
                        op.spec_index(),
                        set_condition_codes,
                        op1.spec_index(),
                        dest.spec_index(),
                        Instr::spec_encode_constant(constant),
                    ),
                ),
                DataOperand::Register(register, shift) => match Instr::spec_encode_shift(
                    register,
                    shift,
                ) {
                    Ok(operand) => Ok(
                        enc_data(
                            false,
                            op.spec_index(),
                            set_condition_codes,
                            op1.spec_index(),
                            dest.spec_index(),
                            operand,
                        ),
                    ),
                    Err(e) => Err(e),
                },
            },
            Instr::Mrs { psr, target } => Ok(enc_mrs(psr == Psr::Spsr, target.spec_index())),
            Instr::Msr { psr, source } => match source {
                MsrSource::Register(register) => Ok(
                    enc_msr_register(psr == Psr::Spsr, true, register.spec_index()),
                ),
                MsrSource::RegisterFlags(register) => Ok(
                    enc_msr_register(psr == Psr::Spsr, false, register.spec_index()),
                ),
                MsrSource::Flags(flags) => Ok(
                    enc_msr_immediate(psr == Psr::Spsr, field(flags, 28, 4)),
                ),
            },
            Instr::Multiply { set_condition_codes, dest, op1, op2, addend } => Ok(
                enc_multiply(
                    addend is Some,
                    set_condition_codes,
                    dest.spec_index(),
                    match addend {
                        Some(addend) => addend.spec_index(),
                        None => 0,
                    },
                    op2.spec_index(),
                    op1.spec_index(),
                ),
            ),
            Instr::MultiplyLong {
                set_condition_codes,
                signed,
                accumulate,
                dest_hi,
                dest_lo,
                op1,
                op2,
            } => Ok(
                enc_multiply_long(
                    signed,
                    accumulate,
                    set_condition_codes,
                    dest_hi.spec_index(),
                    dest_lo.spec_index(),
                    op2.spec_index(),
                    op1.spec_index(),
                ),
            ),
            Instr::SingleTransfer {
                kind,
                size,
                write_back,
                offset_positive,
                pre_index,
                data_register,
                base_register,
                offset,
            } => match offset {
                TransferOperand::Constant(value) => {
                    if value < 4096 {
                        Ok(
                            enc_transfer(
                                false,
                                pre_index,
                                offset_positive,
                                size == TransferSize::Byte,
                                write_back,
                                kind == TransferKind::Load,
                                base_register.spec_index(),
                                data_register.spec_index(),
                                value as u32,
                            ),
                        )
                    } else {
                        Err(LineError::ImmediateOutOfRange(value as u32))
                    }
                },
                TransferOperand::Register(register, shift) => {
                    if shift.shift_amount is Register {
                        Err(LineError::AddressTooComplex)
                    } else {
                        match Instr::spec_encode_shift(register, shift) {
                            Ok(operand) => Ok(
                                enc_transfer(
                                    true,
                                    pre_index,
                                    offset_positive,
                                    size == TransferSize::Byte,
                                    write_back,
                                    kind == TransferKind::Load,
                                    base_register.spec_index(),
                                    data_register.spec_index(),
                                    operand,
                                ),
                            ),
                            Err(e) => Err(e),
                        }
                    }
                },
            },
            Instr::SingleTransferSpecial {
                kind,
                size,
                write_back,
                offset_positive,
                pre_index,
                data_register,
                base_register,
                offset,
            } => {
                if kind == TransferKind::Store && size != TransferSizeSpecial::HalfWord {
                    Err(LineError::InvalidStoreSize)
                } else {
                    match offset {
                        SpecialOperand::Constant(value) => Ok(
                            enc_transfer_special(
                                pre_index,
                                offset_positive,
                                true,
                                write_back,
                                kind == TransferKind::Load,
                                base_register.spec_index(),
                                data_register.spec_index(),
                                special_size_bits(size),
                                field(value as u32, 4, 4),
                                field(value as u32, 0, 4),
                            ),
                        ),
                        SpecialOperand::Register(register) => Ok(
                            enc_transfer_special(
                                pre_index,
                                offset_positive,
                                false,
                                write_back,
                                kind == TransferKind::Load,
                                base_register.spec_index(),
                                data_register.spec_index(),
                                special_size_bits(size),
                                0,
                                register.spec_index(),
                            ),
                        ),
                    }
                }
            },
            Instr::BlockTransfer {
                kind,
                write_back,
                offset_positive,
                pre_index,
                psr,
                base_register,
                registers,
            } => Ok(
                enc_block(
                    pre_index,
                    offset_positive,
                    psr,
                    write_back,
                    kind == TransferKind::Load,
                    base_register.spec_index(),
                    registers as u32,
                ),
            ),
            Instr::Swap { byte, dest, source, base } => Ok(
                enc_swap(byte, base.spec_index(), dest.spec_index(), source.spec_index()),
            ),
            Instr::SoftwareInterrupt { comment } => Ok(enc_swi(comment)),
        }
    }

    /// The word of an instruction under a condition: the condition code in
    /// the top four bits, above the word of `spec_encode_no_cond`.
    pub open spec fn spec_encode(self, cond: Cond) -> Result<u32, LineError> {
        match self.spec_encode_no_cond() {
            Ok(body) => Ok(with_condition(body, cond.spec_index())),
            Err(e) => Err(e),
        }
    }

    /// Encode the given instruction as a 32-bit integer.
    pub fn encode(self, cond: Cond) -> (r: Result<u32, LineError>)
        ensures
            r == self.spec_encode(cond),
    {
        match self.encode_no_cond() {
            Ok(body) => Ok(put_condition(body, cond.index())),
            Err(e) => Err(e),
        }
    }

    /// Encode an instruction into the bottom 28 bits of a 32-bit integer.
    pub fn encode_no_cond(self) -> (r: Result<u32, LineError>)
        ensures
            r == self.spec_encode_no_cond(),
            r is Ok ==> r->Ok_0 < 0x1000_0000,
    {
        match self {
            Instr::BranchExchange { operand } => Ok(word_bx(operand.index())),
            Instr::Branch { link, offset } => match Instr::encode_branch_offset(offset) {
                Ok(offset_field) => Ok(word_branch(link, offset_field)),
                Err(e) => Err(e),
            },
            Instr::Data { .. } => self.encode_data(),
            Instr::Mrs { psr, target } => Ok(word_mrs(psr == Psr::Spsr, target.index())),
            Instr::Msr { psr, source } => {
                match source {
                    MsrSource::Register(register) => Ok(
                        word_msr_register(psr == Psr::Spsr, true, register.index()),
                    ),
                    MsrSource::RegisterFlags(register) => Ok(
                        word_msr_register(psr == Psr::Spsr, false, register.index()),
                    ),
                    // The upper four bits are encoded as the lower four bits
                    // of the immediate value, which are rotated right by 4 places.
                    MsrSource::Flags(flags) => Ok(
                        word_msr_immediate(psr == Psr::Spsr, get_field(flags, 28, 4)),
                    ),
                }
            },
            Instr::Multiply { set_condition_codes, dest, op1, op2, addend } => {
                let rn: u32 = match addend {
                    Some(addend) => addend.index(),
                    None => 0,
                };
                Ok(
                    word_multiply(
                        addend.is_some(),
                        set_condition_codes,
                        dest.index(),
                        rn,
                        op2.index(),
                        op1.index(),
                    ),
                )
            },
            Instr::MultiplyLong {
                set_condition_codes,
                signed,
                accumulate,
                dest_hi,
                dest_lo,
                op1,
                op2,
            } => Ok(
                word_multiply_long(
                    signed,
                    accumulate,
                    set_condition_codes,
                    dest_hi.index(),
                    dest_lo.index(),
                    op2.index(),
                    op1.index(),
                ),
            ),
            Instr::SingleTransfer { .. } => self.encode_single_transfer(),
            Instr::SingleTransferSpecial { .. } => self.encode_single_transfer_special(),
            Instr::BlockTransfer {
                kind,
                write_back,
                offset_positive,
                pre_index,
                psr,
                base_register,
                registers,
            } => Ok(
                word_block(
                    pre_index,
                    offset_positive,
                    psr,
                    write_back,
                    kind == TransferKind::Load,
                    base_register.index(),
                    registers as u32,
                ),
            ),
            Instr::Swap { byte, dest, source, base } => Ok(
                word_swap(byte, base.index(), dest.index(), source.index()),
            ),
            Instr::SoftwareInterrupt { comment } => Ok(word_swi(comment)),
        }
    }

    /// Encodes a data-processing instruction.
    fn encode_data(self) -> (r: Result<u32, LineError>)
        requires
            self is Data,
        ensures
            r == self.spec_encode_no_cond(),
            r is Ok ==> r->Ok_0 < 0x1000_0000,
    {
        match self {
            Instr::Data { set_condition_codes, op, dest, op1, op2 } => {
                match Instr::encode_data_operand(op2) {
                    Ok((immediate, operand)) => Ok(
                        word_data(
                            immediate,
                            op.index(),
                            set_condition_codes,
                            op1.index(),
                            dest.index(),
                            operand,
                        ),
                    ),
                    Err(e) => Err(e),
                }
            },
            _ => Err(LineError::AddressTooComplex),
        }
    }

    /// Encodes a word or byte transfer.
    fn encode_single_transfer(self) -> (r: Result<u32, LineError>)
        requires
            self is SingleTransfer,
        ensures
            r == self.spec_encode_no_cond(),
            r is Ok ==> r->Ok_0 < 0x1000_0000,
    {
        match self {
            Instr::SingleTransfer {
                kind,
                size,
                write_back,
                offset_positive,
                pre_index,
                data_register,
                base_register,
                offset,
            } => {
                match Instr::encode_transfer_operand(offset) {
                    Ok((register, operand)) => Ok(
                        word_transfer(
                            register,
                            pre_index,
                            offset_positive,
                            size == TransferSize::Byte,
                            write_back,
                            kind == TransferKind::Load,
                            base_register.index(),
                            data_register.index(),
                            operand,
                        ),
                    ),
                    Err(e) => Err(e),
                }
            },
            _ => Err(LineError::AddressTooComplex),
        }
    }

    /// Encodes a halfword or signed transfer.
    fn encode_single_transfer_special(self) -> (r: Result<u32, LineError>)
        requires
            self is SingleTransferSpecial,
        ensures
            r == self.spec_encode_no_cond(),
            r is Ok ==> r->Ok_0 < 0x1000_0000,
    {
        match self {
            Instr::SingleTransferSpecial {
                kind,
                size,
                write_back,
                offset_positive,
                pre_index,
                data_register,
                base_register,
                offset,
            } => {
                if kind == TransferKind::Store && size != TransferSizeSpecial::HalfWord {
                    Err(LineError::InvalidStoreSize)
                } else {
                    let sh: u32 = match size {
                        TransferSizeSpecial::HalfWord => 1,
                        TransferSizeSpecial::SignExtendedByte => 2,
                        TransferSizeSpecial::SignExtendedHalfWord => 3,
                    };
                    let (immediate, hi, lo) = Instr::encode_special_operand(offset);
                    Ok(
                        word_transfer_special(
                            pre_index,
                            offset_positive,
                            immediate,
                            write_back,
                            kind == TransferKind::Load,
                            base_register.index(),
                            data_register.index(),
                            sh,
                            hi,
                            lo,
                        ),
                    )
                }
            },
            _ => Err(LineError::AddressTooComplex),
        }
    }

    /// Checks a branch offset and turns it into its 24-bit field.
    pub fn encode_branch_offset(offset: i32) -> (r: Result<u32, LineError>)
        ensures
            r == (if !branch_offset_aligned(offset) {
                Err::<u32, LineError>(LineError::MisalignedBranchOffset)
            } else if !branch_offset_in_range(offset) {
                Err(LineError::OffsetOutOfRange)
            } else {
                Ok(branch_offset_field(offset))
            }),
            r is Ok ==> r.unwrap() < 0x0100_0000,
    {
        let wide: i64 = offset as i64;
        let lifted: u64 = (wide + 0x8000_0000) as u64;
        if lifted % 4 != 0 {
            Err(LineError::MisalignedBranchOffset)
        } else if wide < -0x0200_0000 || wide >= 0x0200_0000 {
            Err(LineError::OffsetOutOfRange)
        } else if wide >= 0 {
            Ok((wide / 4) as u32)
        } else {
            Ok(((wide + 0x0400_0000) / 4) as u32)
        }
    }

    /// Encodes a data operand: whether it is an immediate (bit 25), and its
    /// bits 11..0.
    pub fn encode_data_operand(operand: DataOperand) -> (r: Result<(bool, u32), LineError>)
        ensures
            r == (match operand {
                DataOperand::Constant(constant) => Ok(
                    (true, Instr::spec_encode_constant(constant)),
                ),
                DataOperand::Register(register, shift) => match Instr::spec_encode_shift(
                    register,
                    shift,
                ) {
                    Ok(bits) => Ok((false, bits)),
                    Err(e) => Err(e),
                },
            }),
            r is Ok ==> r->Ok_0.1 < 4096,
    {
        match operand {
            DataOperand::Constant(constant) => Ok((true, Instr::encode_constant(constant))),
            DataOperand::Register(register, shift) => match Instr::encode_shift(register, shift) {
                Ok(bits) => Ok((false, bits)),
                Err(e) => Err(e),
            },
        }
    }

    /// Encodes a transfer operand: whether it is a register (bit 25), and
    /// its bits 11..0.
    pub fn encode_transfer_operand(operand: TransferOperand) -> (r: Result<(bool, u32), LineError>)
        ensures
            r == (match operand {
                TransferOperand::Constant(value) => if value < 4096 {
                    Ok((false, value as u32))
                } else {
                    Err(LineError::ImmediateOutOfRange(value as u32))
                },
                TransferOperand::Register(register, shift) => if shift.shift_amount is Register {
                    Err(LineError::AddressTooComplex)
                } else {
                    match Instr::spec_encode_shift(register, shift) {
                        Ok(bits) => Ok((true, bits)),
                        Err(e) => Err(e),
                    }
                },
            }),
            r is Ok ==> r->Ok_0.1 < 4096,
    {
        match operand {
            TransferOperand::Constant(value) => {
                if value < 4096 {
                    Ok((false, value as u32))
                } else {
                    Err(LineError::ImmediateOutOfRange(value as u32))
                }
            },
            TransferOperand::Register(register, shift) => {
                match shift.shift_amount {
                    ShiftAmount::Register(_) => Err(LineError::AddressTooComplex),
                    ShiftAmount::Constant(_) => match Instr::encode_shift(register, shift) {
                        Ok(bits) => Ok((true, bits)),
                        Err(e) => Err(e),
                    },
                }
            },
        }
    }

    /// Encodes a special operand: whether it is an immediate (bit 22), and
    /// its two nybbles for bits 11..8 and 3..0.
    pub fn encode_special_operand(operand: SpecialOperand) -> (r: (bool, u32, u32))
        ensures
            r == (match operand {
                SpecialOperand::Constant(value) => (
                    true,
                    field(value as u32, 4, 4),
                    field(value as u32, 0, 4),
                ),
                SpecialOperand::Register(register) => (false, 0u32, register.spec_index()),
            }),
            r.1 < 16,
            r.2 < 16,
    {
        match operand {
            SpecialOperand::Constant(value) => (
                true,
                get_field(value as u32, 4, 4),
                get_field(value as u32, 0, 4),
            ),
            SpecialOperand::Register(register) => (false, 0, register.index()),
        }
    }

    /// Encodes a register and its shift in bits 11..0.
    pub fn encode_shift(register: Register, shift: Shift) -> (r: Result<u32, LineError>)
        ensures
            r == Instr::spec_encode_shift(register, shift),
            r is Ok ==> r->Ok_0 < 4096,
    {
        match shift.shift_amount {
            ShiftAmount::Constant(amount) => {
                let ty: u32 = shift.shift_type.index();
                let is_rrx = matches!(shift.shift_type, ShiftType::RotateRightExtended);
                let to_the_right = matches!(
                    shift.shift_type,
                    ShiftType::LogicalRight | ShiftType::ArithmeticRight
                );
                if amount == 0 {
                    // Any shift by zero is encoded as LSL #0.
                    Ok(word_shift_constant(register.index(), 0, 0))
                } else if is_rrx {
                    Ok(word_shift_constant(register.index(), 3, 0))
                } else if amount == 32 && to_the_right {
                    Ok(word_shift_constant(register.index(), ty, 0))
                } else if amount >= 32 {
                    Err(LineError::ShiftOutOfRange)
                } else {
                    Ok(word_shift_constant(register.index(), ty, amount as u32))
                }
            },
            ShiftAmount::Register(by) => {
                if matches!(shift.shift_type, ShiftType::RotateRightExtended) {
                    Err(LineError::InvalidShiftType)
                } else {
                    Ok(word_shift_register(register.index(), shift.shift_type.index(), by.index()))
                }
            },
        }
    }

    /// Encodes a rotated constant in bits 11..0.
    pub fn encode_constant(value: RotatedConstant) -> (r: u32)
        ensures
            r == Instr::spec_encode_constant(value),
            r < 4096,
    {
        word_rotated((value.half_rotate % 16) as u32, value.immediate as u32)
    }
}

} // verus!
