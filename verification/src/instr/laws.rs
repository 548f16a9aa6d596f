//! What holds between the encoder and the decoder.

use vstd::prelude::*;
use crate::instr::bits::bit_is_set;
use crate::instr::decode::branch_offset_of_field;
use crate::instr::decode::is_coprocessor;
use crate::instr::decode::kind_of;
use crate::instr::encode::branch_offset_aligned;
use crate::instr::encode::branch_offset_field;
use crate::instr::encode::branch_offset_in_range;
use crate::instr::encode::special_size_bits;
use crate::instr::layout::class_bits;
use crate::instr::layout::enc_transfer_special;
use crate::instr::bits::field;
use crate::instr::layout::is_bx;
use crate::instr::layout::lemma_condition_field;
use crate::instr::layout::lemma_layout_block;
use crate::instr::layout::lemma_layout_branch;
use crate::instr::layout::lemma_layout_bx;
use crate::instr::layout::lemma_layout_data;
use crate::instr::layout::lemma_layout_mrs;
use crate::instr::layout::lemma_layout_msr_immediate;
use crate::instr::layout::lemma_layout_msr_register;
use crate::instr::layout::lemma_layout_multiply;
use crate::instr::layout::lemma_layout_multiply_long;
use crate::instr::layout::lemma_layout_rotated;
use crate::instr::layout::lemma_layout_shift;
use crate::instr::layout::lemma_layout_swap;
use crate::instr::layout::lemma_layout_swi;
use crate::instr::layout::lemma_layout_transfer;
use crate::instr::layout::lemma_layout_transfer_special;
use crate::instr::ty::Cond;
use crate::instr::ty::DataOperand;
use crate::instr::ty::Instr;
use crate::instr::ty::MsrSource;
use crate::instr::ty::Psr;
use crate::instr::ty::Register;
use crate::instr::ty::RotatedConstant;
use crate::instr::ty::Shift;
use crate::instr::ty::ShiftAmount;
use crate::instr::ty::SpecialOperand;
use crate::instr::ty::TransferKind;
use crate::instr::ty::TransferOperand;
use crate::instr::ty::TransferSize;
use crate::instr::ty::TransferSizeSpecial;

verus! {

impl Instr {
    /// Whether an instruction word can hold this instruction and give it
    /// back unchanged:
    /// - a branch offset is a multiple of four and fits the 24-bit field;
    /// - the operands are representable;
    /// - a comparing data operation sets the flags (without the flag bit its
    ///   word means a status-register transfer);
    /// - an immediate for the flags has only its top four bits set;
    /// - a store of a special size is of a halfword;
    /// - a software-interrupt comment fits in 24 bits.
    pub open spec fn spec_representable(self) -> bool {
        match self {
            Instr::Branch { link, offset } => branch_offset_aligned(offset)
                && branch_offset_in_range(offset),
            Instr::Data { set_condition_codes, op, dest, op1, op2 } => op2.spec_representable()
                && (op.spec_is_test() ==> set_condition_codes),
            Instr::Msr { psr, source } => match source {
                MsrSource::Flags(flags) => field(flags, 0, 28) == 0,
                _ => true,
            },
            Instr::SingleTransfer {
                kind,
                size,
                write_back,
                offset_positive,
                pre_index,
                data_register,
                base_register,
                offset,
            } => offset.spec_representable(),
            Instr::SingleTransferSpecial {
                kind,
                size,
                write_back,
                offset_positive,
                pre_index,
                data_register,
                base_register,
                offset,
            } => !(kind == TransferKind::Store && size != TransferSizeSpecial::HalfWord),
            Instr::SoftwareInterrupt { comment } => comment < 0x0100_0000,
            _ => true,
        }
    }
}

/// A representable shift of a register has operand bits, and they decode to
/// the same register and shift.
pub proof fn lemma_shift_round_trip(register: Register, shift: Shift)
    requires
        shift.spec_representable(),
    ensures
        Instr::spec_encode_shift(register, shift) is Ok,
        Instr::spec_encode_shift(register, shift).unwrap() < 4096,
        !(bit_is_set(Instr::spec_encode_shift(register, shift).unwrap(), 7) && bit_is_set(
            Instr::spec_encode_shift(register, shift).unwrap(),
            4,
        )),
        Instr::spec_decode_shifted_register(Instr::spec_encode_shift(register, shift).unwrap())
            == (register, shift),
{
    register.lemma_index_round_trip();
    let rm = register.spec_index();
    let ty = shift.shift_type.spec_index();
    match shift.shift_amount {
        ShiftAmount::Constant(amount) => {
            lemma_layout_shift(rm, 0, 0, 0);
            lemma_layout_shift(rm, 3, 0, 0);
            lemma_layout_shift(rm, ty, 0, 0);
            if amount < 32 {
                lemma_layout_shift(rm, ty, amount as u32, 0);
            }
        },
        ShiftAmount::Register(by) => {
            by.lemma_index_round_trip();
            lemma_layout_shift(rm, ty, 0, by.spec_index());
        },
    }
}

/// A well-formed rotated constant has operand bits that decode to it.
pub proof fn lemma_constant_round_trip(constant: RotatedConstant)
    requires
        constant.spec_wf(),
    ensures
        Instr::spec_encode_constant(constant) < 4096,
        Instr::spec_decode_constant(Instr::spec_encode_constant(constant)) == constant,
{
    lemma_layout_rotated(constant.half_rotate as u32, constant.immediate as u32);
}

/// The 24-bit field of a branch offset stands for that offset.
pub proof fn lemma_branch_offset_round_trip(offset: i32)
    requires
        branch_offset_aligned(offset),
        branch_offset_in_range(offset),
    ensures
        branch_offset_field(offset) < 0x0100_0000,
        branch_offset_of_field(branch_offset_field(offset)) == offset,
{
}

/// Encoding and then decoding gives back what was encoded: every
/// representable instruction, under every condition, has a word, and that
/// word decodes to the same condition and instruction.
pub proof fn lemma_encode_decode_round_trip(instr: Instr, cond: Cond)
    requires
        instr.spec_representable(),
    ensures
        instr.spec_encode(cond) is Ok,
        Instr::spec_decode(instr.spec_encode(cond).unwrap()) == Some((cond, instr)),
{
    lemma_body_round_trip(instr);
    cond.lemma_index_round_trip();
    lemma_condition_field(cond.spec_index(), instr.spec_encode_no_cond().unwrap());
}

/// The round trip of the lower 28 bits, without the condition.
pub proof fn lemma_body_round_trip(instr: Instr)
    requires
        instr.spec_representable(),
    ensures
        instr.spec_encode_no_cond() is Ok,
        instr.spec_encode_no_cond().unwrap() < 0x1000_0000,
        Instr::spec_decode_no_cond(instr.spec_encode_no_cond().unwrap()) == Some(instr),
{
    match instr {
        Instr::BranchExchange { .. } => lemma_branch_exchange_round_trip(instr),
        Instr::Branch { .. } => lemma_branch_round_trip(instr),
        Instr::Data { .. } => lemma_data_round_trip(instr),
        Instr::Mrs { .. } => lemma_mrs_round_trip(instr),
        Instr::Msr { .. } => lemma_msr_round_trip(instr),
        Instr::Multiply { .. } => lemma_multiply_round_trip(instr),
        Instr::MultiplyLong { .. } => lemma_multiply_long_round_trip(instr),
        Instr::SingleTransfer { .. } => lemma_transfer_round_trip(instr),
        Instr::SingleTransferSpecial { .. } => lemma_transfer_special_round_trip(instr),
        Instr::BlockTransfer { .. } => lemma_block_round_trip(instr),
        Instr::Swap { .. } => lemma_swap_round_trip(instr),
        Instr::SoftwareInterrupt { .. } => lemma_swi_round_trip(instr),
    }
}

/// The round trip of a Branch and Exchange.
proof fn lemma_branch_exchange_round_trip(instr: Instr)
    requires
        instr is BranchExchange,
        instr.spec_representable(),
    ensures
        instr.spec_encode_no_cond() is Ok,
        instr.spec_encode_no_cond().unwrap() < 0x1000_0000,
        Instr::spec_decode_no_cond(instr.spec_encode_no_cond().unwrap()) == Some(instr),
{
    match instr {
        Instr::BranchExchange { operand } => {
            operand.lemma_index_round_trip();
            lemma_layout_bx(operand.spec_index());
        },
        _ => {},
    }
}

/// The round trip of a branch.
proof fn lemma_branch_round_trip(instr: Instr)
    requires
        instr is Branch,
        instr.spec_representable(),
    ensures
        instr.spec_encode_no_cond() is Ok,
        instr.spec_encode_no_cond().unwrap() < 0x1000_0000,
        Instr::spec_decode_no_cond(instr.spec_encode_no_cond().unwrap()) == Some(instr),
{
    match instr {
        Instr::Branch { link, offset } => {
            lemma_branch_offset_round_trip(offset);
            lemma_layout_branch(link, branch_offset_field(offset));
        },
        _ => {},
    }
}

/// The round trip of an MRS.
proof fn lemma_mrs_round_trip(instr: Instr)
    requires
        instr is Mrs,
        instr.spec_representable(),
    ensures
        instr.spec_encode_no_cond() is Ok,
        instr.spec_encode_no_cond().unwrap() < 0x1000_0000,
        Instr::spec_decode_no_cond(instr.spec_encode_no_cond().unwrap()) == Some(instr),
{
    match instr {
        Instr::Mrs { psr, target } => {
            target.lemma_index_round_trip();
            lemma_layout_mrs(psr == Psr::Spsr, target.spec_index());
        },
        _ => {},
    }
}

/// The round trip of an MSR.
proof fn lemma_msr_round_trip(instr: Instr)
    requires
        instr is Msr,
        instr.spec_representable(),
    ensures
        instr.spec_encode_no_cond() is Ok,
        instr.spec_encode_no_cond().unwrap() < 0x1000_0000,
        Instr::spec_decode_no_cond(instr.spec_encode_no_cond().unwrap()) == Some(instr),
{
    match instr {
        Instr::Msr { psr, source } => {
            match source {
                MsrSource::Register(register) => {
                    register.lemma_index_round_trip();
                    lemma_layout_msr_register(psr == Psr::Spsr, true, register.spec_index());
                },
                MsrSource::RegisterFlags(register) => {
                    register.lemma_index_round_trip();
                    lemma_layout_msr_register(psr == Psr::Spsr, false, register.spec_index());
                },
                MsrSource::Flags(flags) => {
                    lemma_layout_msr_immediate(psr == Psr::Spsr, flags);
                },
            }
        },
        _ => {},
    }
}

/// The round trip of a MUL or MLA.
proof fn lemma_multiply_round_trip(instr: Instr)
    requires
        instr is Multiply,
        instr.spec_representable(),
    ensures
        instr.spec_encode_no_cond() is Ok,
        instr.spec_encode_no_cond().unwrap() < 0x1000_0000,
        Instr::spec_decode_no_cond(instr.spec_encode_no_cond().unwrap()) == Some(instr),
{
    match instr {
        Instr::Multiply { set_condition_codes, dest, op1, op2, addend } => {
            dest.lemma_index_round_trip();
            op1.lemma_index_round_trip();
            op2.lemma_index_round_trip();
            let rn = match addend {
                Some(addend) => addend.spec_index(),
                None => 0,
            };
            if addend is Some {
                addend.unwrap().lemma_index_round_trip();
            }
            lemma_layout_multiply(
                addend is Some,
                set_condition_codes,
                dest.spec_index(),
                rn,
                op2.spec_index(),
                op1.spec_index(),
            );
        },
        _ => {},
    }
}

/// The round trip of a long multiply.
proof fn lemma_multiply_long_round_trip(instr: Instr)
    requires
        instr is MultiplyLong,
        instr.spec_representable(),
    ensures
        instr.spec_encode_no_cond() is Ok,
        instr.spec_encode_no_cond().unwrap() < 0x1000_0000,
        Instr::spec_decode_no_cond(instr.spec_encode_no_cond().unwrap()) == Some(instr),
{
    match instr {
        Instr::MultiplyLong {
            set_condition_codes,
            signed,
            accumulate,
            dest_hi,
            dest_lo,
            op1,
            op2,
        } => {
            dest_hi.lemma_index_round_trip();
            dest_lo.lemma_index_round_trip();
            op1.lemma_index_round_trip();
            op2.lemma_index_round_trip();
            lemma_layout_multiply_long(
                signed,
                accumulate,
                set_condition_codes,
                dest_hi.spec_index(),
                dest_lo.spec_index(),
                op2.spec_index(),
                op1.spec_index(),
            );
        },
        _ => {},
    }
}

/// The round trip of a block transfer.
proof fn lemma_block_round_trip(instr: Instr)
    requires
        instr is BlockTransfer,
        instr.spec_representable(),
    ensures
        instr.spec_encode_no_cond() is Ok,
        instr.spec_encode_no_cond().unwrap() < 0x1000_0000,
        Instr::spec_decode_no_cond(instr.spec_encode_no_cond().unwrap()) == Some(instr),
{
    match instr {
        Instr::BlockTransfer {
            kind,
            write_back,
            offset_positive,
            pre_index,
            psr,
            base_register,
            registers,
        } => {
            base_register.lemma_index_round_trip();
            lemma_layout_block(
                pre_index,
                offset_positive,
                psr,
                write_back,
                kind == TransferKind::Load,
                base_register.spec_index(),
                registers as u32,
            );
        },
        _ => {},
    }
}

/// The round trip of a swap.
proof fn lemma_swap_round_trip(instr: Instr)
    requires
        instr is Swap,
        instr.spec_representable(),
    ensures
        instr.spec_encode_no_cond() is Ok,
        instr.spec_encode_no_cond().unwrap() < 0x1000_0000,
        Instr::spec_decode_no_cond(instr.spec_encode_no_cond().unwrap()) == Some(instr),
{
    match instr {
        Instr::Swap { byte, dest, source, base } => {
            dest.lemma_index_round_trip();
            source.lemma_index_round_trip();
            base.lemma_index_round_trip();
            lemma_layout_swap(byte, base.spec_index(), dest.spec_index(), source.spec_index());
        },
        _ => {},
    }
}

/// The round trip of a software interrupt.
proof fn lemma_swi_round_trip(instr: Instr)
    requires
        instr is SoftwareInterrupt,
        instr.spec_representable(),
    ensures
        instr.spec_encode_no_cond() is Ok,
        instr.spec_encode_no_cond().unwrap() < 0x1000_0000,
        Instr::spec_decode_no_cond(instr.spec_encode_no_cond().unwrap()) == Some(instr),
{
    match instr {
        Instr::SoftwareInterrupt { comment } => {
            lemma_layout_swi(comment);
        },
        _ => {},
    }
}

/// The round trip of a data-processing instruction.
proof fn lemma_data_round_trip(instr: Instr)
    requires
        instr is Data,
        instr.spec_representable(),
    ensures
        instr.spec_encode_no_cond() is Ok,
        instr.spec_encode_no_cond().unwrap() < 0x1000_0000,
        Instr::spec_decode_no_cond(instr.spec_encode_no_cond().unwrap()) == Some(instr),
{
    match instr {
        Instr::Data { set_condition_codes, op, dest, op1, op2 } => {
            op.lemma_index_round_trip();
            dest.lemma_index_round_trip();
            op1.lemma_index_round_trip();
            match op2 {
                DataOperand::Constant(constant) => {
                    lemma_constant_round_trip(constant);
                    lemma_layout_data(
                        true,
                        op.spec_index(),
                        set_condition_codes,
                        op1.spec_index(),
                        dest.spec_index(),
                        Instr::spec_encode_constant(constant),
                    );
                },
                DataOperand::Register(register, shift) => {
                    lemma_shift_round_trip(register, shift);
                    lemma_layout_data(
                        false,
                        op.spec_index(),
                        set_condition_codes,
                        op1.spec_index(),
                        dest.spec_index(),
                        Instr::spec_encode_shift(register, shift).unwrap(),
                    );
                },
            }
        },
        _ => {},
    }
}

/// The round trip of a word or byte transfer.
#[verifier::rlimit(100)]
proof fn lemma_transfer_round_trip(instr: Instr)
    requires
        instr is SingleTransfer,
        instr.spec_representable(),
    ensures
        instr.spec_encode_no_cond() is Ok,
        instr.spec_encode_no_cond().unwrap() < 0x1000_0000,
        Instr::spec_decode_no_cond(instr.spec_encode_no_cond().unwrap()) == Some(instr),
{
    match instr {
        Instr::SingleTransfer {
            kind,
            size,
            write_back,
            offset_positive,
            pre_index,
            data_register,
            base_register,
            offset,
        } => {
            data_register.lemma_index_round_trip();
            base_register.lemma_index_round_trip();
            match offset {
                TransferOperand::Constant(value) => {
                    lemma_layout_transfer(
                        false,
                        pre_index,
                        offset_positive,
                        size == TransferSize::Byte,
                        write_back,
                        kind == TransferKind::Load,
                        base_register.spec_index(),
                        data_register.spec_index(),
                        value as u32,
                    );
                },
                TransferOperand::Register(register, shift) => {
                    lemma_shift_round_trip(register, shift);
                    lemma_layout_transfer(
                        true,
                        pre_index,
                        offset_positive,
                        size == TransferSize::Byte,
                        write_back,
                        kind == TransferKind::Load,
                        base_register.spec_index(),
                        data_register.spec_index(),
                        Instr::spec_encode_shift(register, shift).unwrap(),
                    );
                },
            }
        },
        _ => {},
    }
}

/// The upper four bits of the offset field of a halfword or signed
/// transfer.
spec fn special_offset_high(offset: SpecialOperand) -> u32 {
    match offset {
        SpecialOperand::Constant(value) => field(value as u32, 4, 4),
        SpecialOperand::Register(_) => 0,
    }
}

/// The lower four bits of the offset field of a halfword or signed
/// transfer.
spec fn special_offset_low(offset: SpecialOperand) -> u32 {
    match offset {
        SpecialOperand::Constant(value) => field(value as u32, 0, 4),
        SpecialOperand::Register(register) => register.spec_index(),
    }
}

/// What the decoder makes of the word of a halfword or signed transfer,
/// in terms of the fields that the word was built from.
#[verifier::rlimit(100)]
proof fn lemma_transfer_special_word(
    pre: bool,
    up: bool,
    write_back: bool,
    load: bool,
    rn: u32,
    rd: u32,
    sh: u32,
    offset: SpecialOperand,
)
    requires
        rn < 16,
        rd < 16,
        1 <= sh <= 3,
    ensures
        enc_transfer_special(
            pre,
            up,
            offset is Constant,
            write_back,
            load,
            rn,
            rd,
            sh,
            special_offset_high(offset),
            special_offset_low(offset),
        ) < 0x1000_0000,
        Instr::spec_decode_no_cond(
            enc_transfer_special(
                pre,
                up,
                offset is Constant,
                write_back,
                load,
                rn,
                rd,
                sh,
                special_offset_high(offset),
                special_offset_low(offset),
            ),
        ) == Some(
            Instr::SingleTransferSpecial {
                kind: kind_of(load),
                size: if sh == 1 {
                    TransferSizeSpecial::HalfWord
                } else if sh == 2 {
                    TransferSizeSpecial::SignExtendedByte
                } else {
                    TransferSizeSpecial::SignExtendedHalfWord
                },
                write_back,
                offset_positive: up,
                pre_index: pre,
                data_register: Register::spec_from_index(rd),
                base_register: Register::spec_from_index(rn),
                offset,
            },
        ),
{
    let hi = special_offset_high(offset);
    let lo = special_offset_low(offset);
    match offset {
        SpecialOperand::Constant(value) => {
            assert(hi == value / 16 && lo == value % 16);
            assert((hi * 16 + lo) as u8 == value);
        },
        SpecialOperand::Register(register) => {
            register.lemma_index_round_trip();
        },
    }
    lemma_layout_transfer_special(
        pre,
        up,
        offset is Constant,
        write_back,
        load,
        rn,
        rd,
        sh,
        hi,
        lo,
    );
}

/// The round trip of a halfword or signed transfer.
proof fn lemma_transfer_special_round_trip(instr: Instr)
    requires
        instr is SingleTransferSpecial,
        instr.spec_representable(),
    ensures
        instr.spec_encode_no_cond() is Ok,
        instr.spec_encode_no_cond().unwrap() < 0x1000_0000,
        Instr::spec_decode_no_cond(instr.spec_encode_no_cond().unwrap()) == Some(instr),
{
    match instr {
        Instr::SingleTransferSpecial {
            kind,
            size,
            write_back,
            offset_positive,
            pre_index,
            data_register,
            base_register,
            offset,
        } => {
            data_register.lemma_index_round_trip();
            base_register.lemma_index_round_trip();
            lemma_transfer_special_word(
                pre_index,
                offset_positive,
                write_back,
                kind == TransferKind::Load,
                base_register.spec_index(),
                data_register.spec_index(),
                special_size_bits(size),
                offset,
            );
        },
        _ => {},
    }
}

/// The class bits of a word, read with and without the condition taken
/// off.
proof fn lemma_class_of_masked(word: u32)
    by (bit_vector)
    ensures
        field(word, 28, 4) < 16,
        class_bits(field(word, 0, 28)) == class_bits(word),
        bit_is_set(field(word, 0, 28), 24) == bit_is_set(word, 24),
        class_bits(word) <= 7,
        is_bx(field(word, 0, 28)) ==> class_bits(word) == 0,
{
}

/// The decoder gives up on a word in two cases only, and always in those:
/// the condition field is `1111`, or the word belongs to the coprocessor
/// instructions.
pub proof fn lemma_decode_closure(word: u32)
    ensures
        Instr::spec_decode(word) is None <==> (field(word, 28, 4) == 15 || is_coprocessor(
            word,
        )),
{
    lemma_class_of_masked(word);
}

} // verus!
