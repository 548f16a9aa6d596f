//! Decoding 32-bit words into instructions.

use vstd::prelude::*;
use crate::instr::bits::bit_is_set;
use crate::instr::bits::ror32;
use crate::instr::bits::rotate_right;
use crate::instr::bits::test_bit;
use crate::instr::layout::class_bits;
use crate::instr::bits::field;
use crate::instr::bits::get_field;
use crate::instr::layout::is_bx;
use crate::instr::layout::is_extension;
use crate::instr::layout::is_mrs;
use crate::instr::layout::is_msr_flags;
use crate::instr::layout::is_msr_register;
use crate::instr::layout::is_multiply_family;
use crate::instr::ty::Cond;
use crate::instr::ty::DataOp;
use crate::instr::ty::DataOperand;
use crate::instr::ty::Instr;
use crate::instr::ty::MsrSource;
use crate::instr::ty::Psr;
use crate::instr::ty::Register;
use crate::instr::ty::RotatedConstant;
use crate::instr::ty::Shift;
use crate::instr::ty::ShiftAmount;
use crate::instr::ty::ShiftType;
use crate::instr::ty::SpecialOperand;
use crate::instr::ty::TransferKind;
use crate::instr::ty::TransferOperand;
use crate::instr::ty::TransferSize;
use crate::instr::ty::TransferSizeSpecial;

verus! {

/// The byte offset that a 24-bit two's-complement word offset stands for.
pub open spec fn branch_offset_of_field(offset_field: u32) -> i32 {
    if offset_field < 0x0080_0000 {
        (offset_field * 4) as i32
    } else {
        (offset_field * 4 - 0x0400_0000) as i32
    }
}

/// `Load` if the flag is set, `Store` otherwise.
pub open spec fn kind_of(load: bool) -> TransferKind {
    if load {
        TransferKind::Load
    } else {
        TransferKind::Store
    }
}

/// `Spsr` if the flag is set, `Cpsr` otherwise.
pub open spec fn psr_of(saved: bool) -> Psr {
    if saved {
        Psr::Spsr
    } else {
        Psr::Cpsr
    }
}

/// Whether a word belongs to the coprocessor instructions, which are not
/// supported: class `110`, and class `111` with bit 24 clear.
pub open spec fn is_coprocessor(word: u32) -> bool {
    class_bits(word) >= 6 && !(class_bits(word) >= 7 && bit_is_set(word, 24))
}

impl Instr {
    /// The register and shift held in twelve operand bits.
    ///
    /// With bit 4 clear the shift is by a constant. An amount field of zero
    /// then means `LSR #32`, `ASR #32`, or for `ROR` rotate right extended,
    /// which is given its canonical amount 1. With bit 4 set the amount is
    /// in a register.
    pub open spec fn spec_decode_shifted_register(operand: u32) -> (Register, Shift) {
        let register = Register::spec_from_index(field(operand, 0, 4));
        let shift_type = ShiftType::spec_from_index(field(operand, 5, 2));
        if !bit_is_set(operand, 4) {
            let amount = field(operand, 7, 5);
            if amount == 0 {
                match shift_type {
                    ShiftType::LogicalRight | ShiftType::ArithmeticRight => (
                        register,
                        Shift { shift_type, shift_amount: ShiftAmount::Constant(32) },
                    ),
                    ShiftType::RotateRight => (
                        register,
                        Shift {
                            shift_type: ShiftType::RotateRightExtended,
                            shift_amount: ShiftAmount::Constant(1),
                        },
                    ),
                    _ => (register, Shift { shift_type, shift_amount: ShiftAmount::Constant(0) }),
                }
            } else {
                (register, Shift { shift_type, shift_amount: ShiftAmount::Constant(amount as u8) })
            }
        } else {
            (
                register,
                Shift {
                    shift_type,
                    shift_amount: ShiftAmount::Register(
                        Register::spec_from_index(field(operand, 8, 4)),
                    ),
                },
            )
        }
    }

    /// The rotated constant held in twelve operand bits.
    pub open spec fn spec_decode_constant(operand: u32) -> RotatedConstant {
        RotatedConstant {
            immediate: field(operand, 0, 8) as u8,
            half_rotate: field(operand, 8, 4) as u8,
        }
    }

    /// What an extension word is: a long multiply if bit 23 is set, else a
    /// swap if bit 24 is set, else a multiply; or, with bits 6 and 5 not both
    /// clear, a halfword or signed transfer.
    pub open spec fn spec_decode_extension(i: u32) -> Instr {
        if is_multiply_family(i) {
            if bit_is_set(i, 23) {
                Instr::MultiplyLong {
                    set_condition_codes: bit_is_set(i, 20),
                    signed: bit_is_set(i, 22),
                    accumulate: bit_is_set(i, 21),
                    dest_hi: Register::spec_from_index(field(i, 16, 4)),
                    dest_lo: Register::spec_from_index(field(i, 12, 4)),
                    op1: Register::spec_from_index(field(i, 0, 4)),
                    op2: Register::spec_from_index(field(i, 8, 4)),
                }
            } else if bit_is_set(i, 24) {
                Instr::Swap {
                    byte: bit_is_set(i, 22),
                    dest: Register::spec_from_index(field(i, 12, 4)),
                    source: Register::spec_from_index(field(i, 0, 4)),
                    base: Register::spec_from_index(field(i, 16, 4)),
                }
            } else {
                Instr::Multiply {
                    set_condition_codes: bit_is_set(i, 20),
                    dest: Register::spec_from_index(field(i, 16, 4)),
                    op1: Register::spec_from_index(field(i, 0, 4)),
                    op2: Register::spec_from_index(field(i, 8, 4)),
                    addend: if bit_is_set(i, 21) {
                        Some(Register::spec_from_index(field(i, 12, 4)))
                    } else {
                        None
                    },
                }
            }
        } else {
            Instr::SingleTransferSpecial {
                kind: kind_of(bit_is_set(i, 20)),
                size: match field(i, 5, 2) {
                    1 => TransferSizeSpecial::HalfWord,
                    2 => TransferSizeSpecial::SignExtendedByte,
                    _ => TransferSizeSpecial::SignExtendedHalfWord,
                },
                write_back: bit_is_set(i, 21),
                offset_positive: bit_is_set(i, 23),
                pre_index: bit_is_set(i, 24),
                data_register: Register::spec_from_index(field(i, 12, 4)),
                base_register: Register::spec_from_index(field(i, 16, 4)),
                offset: if bit_is_set(i, 22) {
                    SpecialOperand::Constant((field(i, 8, 4) * 16 + field(i, 0, 4)) as u8)
                } else {
                    SpecialOperand::Register(Register::spec_from_index(field(i, 0, 4)))
                },
            }
        }
    }

    /// What a word of class `000` or `001` is when it is no extension word:
    /// a status-register transfer where its pattern says so, else a
    /// data-processing instruction.
    pub open spec fn spec_decode_data(i: u32) -> Instr {
        if is_mrs(i) {
            Instr::Mrs {
                psr: psr_of(bit_is_set(i, 22)),
                target: Register::spec_from_index(field(i, 12, 4)),
            }
        } else if is_msr_flags(i) {
            Instr::Msr {
                psr: psr_of(bit_is_set(i, 22)),
                source: if bit_is_set(i, 25) {
                    MsrSource::Flags(ror32(field(i, 0, 8), (field(i, 8, 4) * 2) as u32))
                } else {
                    MsrSource::RegisterFlags(Register::spec_from_index(field(i, 0, 4)))
                },
            }
        } else if is_msr_register(i) {
            Instr::Msr {
                psr: psr_of(bit_is_set(i, 22)),
                source: MsrSource::Register(Register::spec_from_index(field(i, 0, 4))),
            }
        } else {
            Instr::Data {
                set_condition_codes: bit_is_set(i, 20),
                op: DataOp::spec_from_index(field(i, 21, 4)),
                dest: Register::spec_from_index(field(i, 12, 4)),
                op1: Register::spec_from_index(field(i, 16, 4)),
                op2: if bit_is_set(i, 25) {
                    DataOperand::Constant(Instr::spec_decode_constant(field(i, 0, 12)))
                } else {
                    DataOperand::Register(
                        Instr::spec_decode_shifted_register(field(i, 0, 12)).0,
                        Instr::spec_decode_shifted_register(field(i, 0, 12)).1,
                    )
                },
            }
        }
    }

    /// What a word of class `010` or `011` is: a word or byte transfer.
    pub open spec fn spec_decode_transfer(i: u32) -> Instr {
        Instr::SingleTransfer {
            kind: kind_of(bit_is_set(i, 20)),
            size: if bit_is_set(i, 22) {
                TransferSize::Byte
            } else {
                TransferSize::Word
            },
            write_back: bit_is_set(i, 21),
            offset_positive: bit_is_set(i, 23),
            pre_index: bit_is_set(i, 24),
            data_register: Register::spec_from_index(field(i, 12, 4)),
            base_register: Register::spec_from_index(field(i, 16, 4)),
            offset: if bit_is_set(i, 25) {
                TransferOperand::Register(
                    Instr::spec_decode_shifted_register(field(i, 0, 12)).0,
                    Instr::spec_decode_shifted_register(field(i, 0, 12)).1,
                )
            } else {
                TransferOperand::Constant(field(i, 0, 12) as u16)
            },
        }
    }

    /// What a word of class `100` is: a block transfer.
    pub open spec fn spec_decode_block(i: u32) -> Instr {
        Instr::BlockTransfer {
            kind: kind_of(bit_is_set(i, 20)),
            write_back: bit_is_set(i, 21),
            offset_positive: bit_is_set(i, 23),
            pre_index: bit_is_set(i, 24),
            psr: bit_is_set(i, 22),
            base_register: Register::spec_from_index(field(i, 16, 4)),
            registers: field(i, 0, 16) as u16,
        }
    }

    /// The instruction in the lower 28 bits of a word, if there is one.
    ///
    /// Branch and Exchange is told by its fixed pattern. Otherwise bits 27
    /// to 25 select the class: `000` and `001` hold the data-processing
    /// instructions, the status-register transfers, the multiplies, the swap
    /// and the special transfers; `010` and `011` the word and byte
    /// transfers; `100` the block transfers; `101` the branches; and `111`
    /// with bit 24 set the software interrupt. The rest belongs to the
    /// coprocessor and gives nothing.
    pub open spec fn spec_decode_no_cond(i: u32) -> Option<Instr> {
        if is_bx(i) {
            Some(Instr::BranchExchange { operand: Register::spec_from_index(field(i, 0, 4)) })
        } else if class_bits(i) <= 1 {
            if is_extension(i) {
                Some(Instr::spec_decode_extension(i))
            } else {
                Some(Instr::spec_decode_data(i))
            }
        } else if class_bits(i) <= 3 {
            Some(Instr::spec_decode_transfer(i))
        } else if class_bits(i) == 4 {
            Some(Instr::spec_decode_block(i))
        } else if class_bits(i) == 5 {
            Some(
                Instr::Branch {
                    link: bit_is_set(i, 24),
                    offset: branch_offset_of_field(field(i, 0, 24)),
                },
            )
        } else if class_bits(i) >= 7 && bit_is_set(i, 24) {
            Some(Instr::SoftwareInterrupt { comment: field(i, 0, 24) })
        } else {
            None
        }
    }

    /// The condition and instruction that a word holds, if it holds any:
    /// the top four bits name the condition, and the code `1111` names none.
    pub open spec fn spec_decode(word: u32) -> Option<(Cond, Instr)> {
        match Cond::spec_from_index(field(word, 28, 4)) {
            Some(cond) => match Instr::spec_decode_no_cond(field(word, 0, 28)) {
                Some(instr) => Some((cond, instr)),
                None => None,
            },
            None => None,
        }
    }

    /// Attempt to decode the given 32-bit value as an instruction.
    /// If this instruction could not be decoded, return `None`.
    pub fn decode(instr: u32) -> (r: Option<(Cond, Instr)>)
        ensures
            r == Instr::spec_decode(instr),
    {
        // On condition 0b1111, return `None`.
        match Cond::from_index(get_field(instr, 28, 4)) {
            Some(cond) => match Instr::decode_no_cond(get_field(instr, 0, 28)) {
                Some(i) => Some((cond, i)),
                None => None,
            },
            None => None,
        }
    }

    /// Perform a decode, assuming that the top four bits are masked out.
    pub fn decode_no_cond(instr: u32) -> (r: Option<Instr>)
        ensures
            r == Instr::spec_decode_no_cond(instr),
    {
        // First, test for the BX instruction since its pattern is very specific
        // and overlaps with other tests we'll do later.
        if get_field(instr, 4, 28) == 0x012F_FF1u32 {
            return Some(Instr::BranchExchange { operand: Register::from_u4(instr, 0) });
        }
        // Test bits 27 to 25 of the instruction to determine its class.
        let class = get_field(instr, 25, 3);
        if class <= 1 {
            // In a data-processing instruction with a register operand,
            // either bit 4 or bit 7 is unset. Both are set in the
            // multiplies, the swap and the special transfers.
            if !test_bit(instr, 25) && test_bit(instr, 7) && test_bit(instr, 4) {
                Some(Instr::decode_extension(instr))
            } else {
                Some(Instr::decode_data(instr))
            }
        } else if class <= 3 {
            Some(Instr::decode_transfer(instr))
        } else if class == 4 {
            Some(
                Instr::BlockTransfer {
                    kind: Instr::decode_kind(instr),
                    write_back: test_bit(instr, 21),
                    offset_positive: test_bit(instr, 23),
                    pre_index: test_bit(instr, 24),
                    psr: test_bit(instr, 22),
                    base_register: Register::from_u4(instr, 16),
                    registers: get_field(instr, 0, 16) as u16,
                },
            )
        } else if class == 5 {
            let offset_field = get_field(instr, 0, 24);
            // Sign-extend the 24-bit word offset to a byte offset.
            let offset: i32 = if offset_field < 0x0080_0000 {
                (offset_field * 4) as i32
            } else {
                (offset_field as i64 * 4 - 0x0400_0000) as i32
            };
            Some(Instr::Branch { link: test_bit(instr, 24), offset })
        } else if class >= 7 && test_bit(instr, 24) {
            Some(Instr::SoftwareInterrupt { comment: get_field(instr, 0, 24) })
        } else {
            // This is a coprocessor instruction, which is unsupported.
            None
        }
    }

    /// The transfer kind in bit 20.
    fn decode_kind(instr: u32) -> (r: TransferKind)
        ensures
            r == kind_of(bit_is_set(instr, 20)),
    {
        if test_bit(instr, 20) {
            TransferKind::Load
        } else {
            TransferKind::Store
        }
    }

    /// The status register in bit 22.
    fn decode_psr(instr: u32) -> (r: Psr)
        ensures
            r == psr_of(bit_is_set(instr, 22)),
    {
        if test_bit(instr, 22) {
            Psr::Spsr
        } else {
            Psr::Cpsr
        }
    }

    /// Decodes a multiply, a long multiply, a swap or a special transfer.
    fn decode_extension(instr: u32) -> (r: Instr)
        ensures
            r == Instr::spec_decode_extension(instr),
    {
        if get_field(instr, 5, 2) == 0 {
            if test_bit(instr, 23) {
                Instr::MultiplyLong {
                    set_condition_codes: test_bit(instr, 20),
                    signed: test_bit(instr, 22),
                    accumulate: test_bit(instr, 21),
                    dest_hi: Register::from_u4(instr, 16),
                    dest_lo: Register::from_u4(instr, 12),
                    op1: Register::from_u4(instr, 0),
                    op2: Register::from_u4(instr, 8),
                }
            } else if test_bit(instr, 24) {
                Instr::Swap {
                    byte: test_bit(instr, 22),
                    dest: Register::from_u4(instr, 12),
                    source: Register::from_u4(instr, 0),
                    base: Register::from_u4(instr, 16),
                }
            } else {
                Instr::Multiply {
                    set_condition_codes: test_bit(instr, 20),
                    dest: Register::from_u4(instr, 16),
                    op1: Register::from_u4(instr, 0),
                    op2: Register::from_u4(instr, 8),
                    addend: if test_bit(instr, 21) {
                        Some(Register::from_u4(instr, 12))
                    } else {
                        None
                    },
                }
            }
        } else {
            let hi = get_field(instr, 8, 4);
            let lo = get_field(instr, 0, 4);
            Instr::SingleTransferSpecial {
                kind: Instr::decode_kind(instr),
                size: match get_field(instr, 5, 2) {
                    1 => TransferSizeSpecial::HalfWord,
                    2 => TransferSizeSpecial::SignExtendedByte,
                    _ => TransferSizeSpecial::SignExtendedHalfWord,
                },
                write_back: test_bit(instr, 21),
                offset_positive: test_bit(instr, 23),
                pre_index: test_bit(instr, 24),
                data_register: Register::from_u4(instr, 12),
                base_register: Register::from_u4(instr, 16),
                offset: if test_bit(instr, 22) {
                    SpecialOperand::Constant((hi * 16 + lo) as u8)
                } else {
                    SpecialOperand::Register(Register::from_u4(instr, 0))
                },
            }
        }
    }

    /// Decodes a status-register transfer or a data-processing instruction.
    fn decode_data(instr: u32) -> (r: Instr)
        ensures
            r == Instr::spec_decode_data(instr),
    {
        // The MSR and MRS instructions would otherwise be TEQ, TST, CMP or
        // CMN with the S bit unset, which would be pointless.
        if get_field(instr, 23, 2) == 2 && get_field(instr, 16, 6) == 0x0F {
            Instr::Mrs { psr: Instr::decode_psr(instr), target: Register::from_u4(instr, 12) }
        } else if get_field(instr, 23, 2) == 2 && get_field(instr, 12, 10) == 0x28F {
            Instr::Msr {
                psr: Instr::decode_psr(instr),
                source: if test_bit(instr, 25) {
                    MsrSource::Flags(rotate_right(get_field(instr, 0, 8), get_field(instr, 8, 4) * 2))
                } else {
                    MsrSource::RegisterFlags(Register::from_u4(instr, 0))
                },
            }
        } else if get_field(instr, 23, 2) == 2 && get_field(instr, 20, 2) == 2 && get_field(
            instr,
            12,
            4,
        ) == 15 {
            Instr::Msr {
                psr: Instr::decode_psr(instr),
                source: MsrSource::Register(Register::from_u4(instr, 0)),
            }
        } else {
            let op2 = if test_bit(instr, 25) {
                let operand = get_field(instr, 0, 12);
                DataOperand::Constant(
                    RotatedConstant {
                        immediate: get_field(operand, 0, 8) as u8,
                        half_rotate: get_field(operand, 8, 4) as u8,
                    },
                )
            } else {
                let (register, shift) = Instr::decode_shifted_register(get_field(instr, 0, 12));
                DataOperand::Register(register, shift)
            };
            Instr::Data {
                set_condition_codes: test_bit(instr, 20),
                op: DataOp::from_index(get_field(instr, 21, 4)),
                dest: Register::from_u4(instr, 12),
                op1: Register::from_u4(instr, 16),
                op2,
            }
        }
    }

    /// Decodes a word or byte transfer.
    fn decode_transfer(instr: u32) -> (r: Instr)
        ensures
            r == Instr::spec_decode_transfer(instr),
    {
        let offset = if test_bit(instr, 25) {
            let (register, shift) = Instr::decode_shifted_register(get_field(instr, 0, 12));
            TransferOperand::Register(register, shift)
        } else {
            TransferOperand::Constant(get_field(instr, 0, 12) as u16)
        };
        Instr::SingleTransfer {
            kind: Instr::decode_kind(instr),
            size: if test_bit(instr, 22) {
                TransferSize::Byte
            } else {
                TransferSize::Word
            },
            write_back: test_bit(instr, 21),
            offset_positive: test_bit(instr, 23),
            pre_index: test_bit(instr, 24),
            data_register: Register::from_u4(instr, 12),
            base_register: Register::from_u4(instr, 16),
            offset,
        }
    }

    /// Decode the register and shift in bits 11..0.
    pub fn decode_shifted_register(instr: u32) -> (r: (Register, Shift))
        ensures
            r == Instr::spec_decode_shifted_register(instr),
    {
        let register = Register::from_u4(instr, 0);
        let shift_type = ShiftType::from_index(get_field(instr, 5, 2));
        if !test_bit(instr, 4) {
            // Shift by a constant.
            let amount = get_field(instr, 7, 5);
            if amount == 0 {
                match shift_type {
                    ShiftType::LogicalRight | ShiftType::ArithmeticRight => (
                        register,
                        Shift { shift_type, shift_amount: ShiftAmount::Constant(32) },
                    ),
                    ShiftType::RotateRight => (
                        register,
                        Shift {
                            shift_type: ShiftType::RotateRightExtended,
                            shift_amount: ShiftAmount::Constant(1),
                        },
                    ),
                    _ => (register, Shift { shift_type, shift_amount: ShiftAmount::Constant(0) }),
                }
            } else {
                (register, Shift { shift_type, shift_amount: ShiftAmount::Constant(amount as u8) })
            }
        } else {
            // Shift by a register.
            (
                register,
                Shift {
                    shift_type,
                    shift_amount: ShiftAmount::Register(Register::from_u4(instr, 8)),
                },
            )
        }
    }
}

} // verus!
