use armul::assemble::LineError;
use armul::instr::Cond;
use armul::instr::DataOp;
use armul::instr::DataOperand;
use armul::instr::Instr;
use armul::instr::MsrSource;
use armul::instr::Psr;
use armul::instr::Register;
use armul::instr::RotatedConstant;
use armul::instr::Shift;
use armul::instr::ShiftAmount;
use armul::instr::ShiftType;
use armul::instr::SpecialOperand;
use armul::instr::TransferKind;
use armul::instr::TransferOperand;
use armul::instr::TransferSize;
use armul::instr::TransferSizeSpecial;

fn shift(shift_type: ShiftType, amount: u8) -> Shift {
    Shift { shift_type, shift_amount: ShiftAmount::Constant(amount) }
}

fn representable_instructions() -> Vec<Instr> {
    vec![
        Instr::BranchExchange { operand: Register::R14 },
        Instr::Branch { link: false, offset: 0 },
        Instr::Branch { link: true, offset: -4 },
        Instr::Branch { link: false, offset: 0x01FF_FFFC },
        Instr::Branch { link: true, offset: -0x0200_0000 },
        Instr::Data {
            set_condition_codes: true,
            op: DataOp::Cmp,
            dest: Register::R0,
            op1: Register::R3,
            op2: DataOperand::Constant(RotatedConstant { immediate: 0xFF, half_rotate: 15 }),
        },
        Instr::Data {
            set_condition_codes: false,
            op: DataOp::Mov,
            dest: Register::R15,
            op1: Register::R0,
            op2: DataOperand::Register(Register::R14, shift(ShiftType::LogicalLeft, 0)),
        },
        Instr::Data {
            set_condition_codes: false,
            op: DataOp::Add,
            dest: Register::R1,
            op1: Register::R2,
            op2: DataOperand::Register(Register::R3, shift(ShiftType::LogicalRight, 32)),
        },
        Instr::Data {
            set_condition_codes: true,
            op: DataOp::Rsc,
            dest: Register::R1,
            op1: Register::R2,
            op2: DataOperand::Register(Register::R3, shift(ShiftType::ArithmeticRight, 32)),
        },
        Instr::Data {
            set_condition_codes: false,
            op: DataOp::Orr,
            dest: Register::R1,
            op1: Register::R2,
            op2: DataOperand::Register(Register::R3, shift(ShiftType::RotateRight, 31)),
        },
        Instr::Data {
            set_condition_codes: false,
            op: DataOp::Mvn,
            dest: Register::R1,
            op1: Register::R0,
            op2: DataOperand::Register(Register::R3, shift(ShiftType::RotateRightExtended, 1)),
        },
        Instr::Data {
            set_condition_codes: false,
            op: DataOp::Bic,
            dest: Register::R1,
            op1: Register::R2,
            op2: DataOperand::Register(
                Register::R3,
                Shift {
                    shift_type: ShiftType::ArithmeticRight,
                    shift_amount: ShiftAmount::Register(Register::R4),
                },
            ),
        },
        Instr::Mrs { psr: Psr::Cpsr, target: Register::R5 },
        Instr::Mrs { psr: Psr::Spsr, target: Register::R5 },
        Instr::Msr { psr: Psr::Cpsr, source: MsrSource::Register(Register::R6) },
        Instr::Msr { psr: Psr::Spsr, source: MsrSource::RegisterFlags(Register::R6) },
        Instr::Msr { psr: Psr::Cpsr, source: MsrSource::Flags(0xA000_0000) },
        Instr::Multiply {
            set_condition_codes: true,
            dest: Register::R1,
            op1: Register::R2,
            op2: Register::R3,
            addend: None,
        },
        Instr::Multiply {
            set_condition_codes: false,
            dest: Register::R1,
            op1: Register::R2,
            op2: Register::R3,
            addend: Some(Register::R0),
        },
        Instr::MultiplyLong {
            set_condition_codes: true,
            signed: true,
            accumulate: false,
            dest_hi: Register::R1,
            dest_lo: Register::R2,
            op1: Register::R3,
            op2: Register::R4,
        },
        Instr::SingleTransfer {
            kind: TransferKind::Load,
            size: TransferSize::Word,
            write_back: false,
            offset_positive: true,
            pre_index: true,
            data_register: Register::R0,
            base_register: Register::R1,
            offset: TransferOperand::Constant(4095),
        },
        Instr::SingleTransfer {
            kind: TransferKind::Store,
            size: TransferSize::Byte,
            write_back: true,
            offset_positive: false,
            pre_index: false,
            data_register: Register::R0,
            base_register: Register::R1,
            offset: TransferOperand::Register(Register::R2, shift(ShiftType::LogicalLeft, 2)),
        },
        Instr::SingleTransferSpecial {
            kind: TransferKind::Load,
            size: TransferSizeSpecial::SignExtendedHalfWord,
            write_back: true,
            offset_positive: true,
            pre_index: true,
            data_register: Register::R0,
            base_register: Register::R1,
            offset: SpecialOperand::Constant(0xA5),
        },
        Instr::SingleTransferSpecial {
            kind: TransferKind::Store,
            size: TransferSizeSpecial::HalfWord,
            write_back: false,
            offset_positive: false,
            pre_index: true,
            data_register: Register::R0,
            base_register: Register::R1,
            offset: SpecialOperand::Register(Register::R9),
        },
        Instr::BlockTransfer {
            kind: TransferKind::Load,
            write_back: true,
            offset_positive: true,
            pre_index: false,
            psr: false,
            base_register: Register::R13,
            registers: 0x8F0F,
        },
        Instr::Swap { byte: true, dest: Register::R1, source: Register::R2, base: Register::R3 },
        Instr::SoftwareInterrupt { comment: 0x00FF_FFFF },
    ]
}

#[test]
fn encode_then_decode_gives_the_instruction_back() {
    let conds = [Cond::EQ, Cond::NE, Cond::HI, Cond::LE, Cond::AL];
    for instr in representable_instructions() {
        for cond in conds {
            let word = instr.encode(cond).expect("representable");
            assert_eq!(Instr::decode(word), Some((cond, instr)), "{word:08X}");
        }
    }
}

#[test]
fn encode_gives_the_words_of_the_data_sheet() {
    let mov = Instr::Data {
        set_condition_codes: false,
        op: DataOp::Mov,
        dest: Register::R0,
        op1: Register::R0,
        op2: DataOperand::Constant(RotatedConstant { immediate: 1, half_rotate: 0 }),
    };
    assert_eq!(mov.encode(Cond::AL).ok(), Some(0xE3A0_0001));
    assert_eq!(Instr::BranchExchange { operand: Register::R14 }.encode(Cond::AL).ok(), Some(0xE12F_FF1E));
    assert_eq!(Instr::Branch { link: false, offset: -8 }.encode(Cond::AL).ok(), Some(0xEAFF_FFFE));
    assert_eq!(Instr::SoftwareInterrupt { comment: 2 }.encode(Cond::AL).ok(), Some(0xEF00_0002));
    assert_eq!(
        Instr::Swap { byte: false, dest: Register::R1, source: Register::R2, base: Register::R3 }
            .encode(Cond::AL)
            .ok(),
        Some(0xE103_1092)
    );
    assert_eq!(
        Instr::BlockTransfer {
            kind: TransferKind::Store,
            write_back: true,
            offset_positive: false,
            pre_index: true,
            psr: false,
            base_register: Register::R13,
            registers: 0x4010,
        }
        .encode(Cond::AL)
        .ok(),
        Some(0xE92D_4010)
    );
    assert_eq!(
        Instr::Msr { psr: Psr::Cpsr, source: MsrSource::Flags(0xF000_0000) }.encode(Cond::AL).ok(),
        Some(0xE328_F20F)
    );
}

#[test]
fn encode_refuses_what_has_no_word() {
    let encode = |instr: Instr| instr.encode(Cond::AL);
    assert!(matches!(
        encode(Instr::Branch { link: false, offset: 6 }),
        Err(LineError::MisalignedBranchOffset)
    ));
    assert!(matches!(
        encode(Instr::Branch { link: false, offset: 0x0200_0000 }),
        Err(LineError::OffsetOutOfRange)
    ));
    assert!(matches!(
        encode(Instr::Branch { link: false, offset: -0x0200_0004 }),
        Err(LineError::OffsetOutOfRange)
    ));
    let data = |shift: Shift| Instr::Data {
        set_condition_codes: false,
        op: DataOp::Mov,
        dest: Register::R0,
        op1: Register::R0,
        op2: DataOperand::Register(Register::R1, shift),
    };
    assert!(matches!(
        encode(data(shift(ShiftType::LogicalLeft, 32))),
        Err(LineError::ShiftOutOfRange)
    ));
    assert!(matches!(
        encode(data(shift(ShiftType::LogicalRight, 33))),
        Err(LineError::ShiftOutOfRange)
    ));
    assert!(matches!(
        encode(data(Shift {
            shift_type: ShiftType::RotateRightExtended,
            shift_amount: ShiftAmount::Register(Register::R2),
        })),
        Err(LineError::InvalidShiftType)
    ));
    let transfer = |offset: TransferOperand| Instr::SingleTransfer {
        kind: TransferKind::Load,
        size: TransferSize::Word,
        write_back: false,
        offset_positive: true,
        pre_index: true,
        data_register: Register::R0,
        base_register: Register::R1,
        offset,
    };
    assert!(matches!(
        encode(transfer(TransferOperand::Constant(4096))),
        Err(LineError::ImmediateOutOfRange(4096))
    ));
    assert!(matches!(
        encode(transfer(TransferOperand::Register(
            Register::R2,
            Shift {
                shift_type: ShiftType::LogicalLeft,
                shift_amount: ShiftAmount::Register(Register::R3),
            }
        ))),
        Err(LineError::AddressTooComplex)
    ));
    assert!(matches!(
        encode(Instr::SingleTransferSpecial {
            kind: TransferKind::Store,
            size: TransferSizeSpecial::SignExtendedByte,
            write_back: false,
            offset_positive: true,
            pre_index: true,
            data_register: Register::R0,
            base_register: Register::R1,
            offset: SpecialOperand::Constant(0),
        }),
        Err(LineError::InvalidStoreSize)
    ));
}

#[test]
fn decode_gives_up_on_condition_fifteen_and_coprocessor_only() {
    // The condition field 1111.
    assert_eq!(Instr::decode(0xF3A0_0001), None);
    assert_eq!(Instr::decode(0xFF00_0002), None);
    // Coprocessor data transfers, data operations and register transfers.
    assert_eq!(Instr::decode(0xEC00_0000), None);
    assert_eq!(Instr::decode(0xED9F_1234), None);
    assert_eq!(Instr::decode(0xEE00_0000), None);
    assert_eq!(Instr::decode(0xEE10_0F10), None);
    // Everything else holds an instruction.
    let mut word: u32 = 0x1234_5678;
    for _ in 0..20_000 {
        word = word.wrapping_mul(1_664_525).wrapping_add(1_013_904_223);
        let class = (word >> 25) & 7;
        let coprocessor = class == 6 || (class == 7 && word & (1 << 24) == 0);
        let expected_none = word >> 28 == 0xF || coprocessor;
        assert_eq!(Instr::decode(word).is_none(), expected_none, "{word:08X}");
    }
}

#[test]
fn decode_reads_the_special_shifts() {
    // MOV R0, R1, LSR #32 is written with amount 0.
    assert_eq!(
        Instr::decode(0xE1A0_0021),
        Some((
            Cond::AL,
            Instr::Data {
                set_condition_codes: false,
                op: DataOp::Mov,
                dest: Register::R0,
                op1: Register::R0,
                op2: DataOperand::Register(Register::R1, shift(ShiftType::LogicalRight, 32)),
            }
        ))
    );
    // MOV R0, R1, RRX is written as ROR #0.
    assert_eq!(
        Instr::decode(0xE1A0_0061),
        Some((
            Cond::AL,
            Instr::Data {
                set_condition_codes: false,
                op: DataOp::Mov,
                dest: Register::R0,
                op1: Register::R0,
                op2: DataOperand::Register(
                    Register::R1,
                    shift(ShiftType::RotateRightExtended, 1)
                ),
            }
        ))
    );
}

#[test]
fn rotated_constants_stand_for_their_values() {
    for half_rotate in 0..16u8 {
        for immediate in [0u8, 1, 2, 0x7F, 0x80, 0xA5, 0xFF] {
            let constant = RotatedConstant { immediate, half_rotate };
            let value = (immediate as u32).rotate_right(half_rotate as u32 * 2);
            assert_eq!(constant.value(), (value, value & (1 << 31) != 0));
            let encoded = RotatedConstant::encode(value).expect("a pair exists");
            assert_eq!(encoded.value().0, value);
            assert!(encoded.half_rotate < 16);
        }
    }
    assert_eq!(
        RotatedConstant::encode(0x8000_0000),
        Some(RotatedConstant { immediate: 2, half_rotate: 1 })
    );
    assert_eq!(RotatedConstant::encode(0), Some(RotatedConstant { immediate: 0, half_rotate: 0 }));
    assert_eq!(
        RotatedConstant::encode(0xFF00_0000),
        Some(RotatedConstant { immediate: 0xFF, half_rotate: 4 })
    );
    assert_eq!(RotatedConstant::encode(0x101), None);
    assert_eq!(RotatedConstant::encode(0x1FE), None);
    assert_eq!(RotatedConstant::encode(0xDEAD_BEEF), None);
    assert_eq!(RotatedConstant::encode(0xFFFF_FFFF), None);
}

#[test]
fn registers_are_read_from_their_four_bits() {
    assert_eq!(Register::from_u4(0x0000_000F, 0), Register::R15);
    assert_eq!(Register::from_u4(0x0003_0000, 16), Register::R3);
    assert_eq!(Register::from_u4(0xD000_0000, 28), Register::R13);
    assert_eq!(Register::from_u4(0xFFFF_0FFF, 12), Register::R0);
}

#[test]
fn shifts_by_a_register_are_told_apart() {
    let by_register = DataOperand::Register(
        Register::R1,
        Shift { shift_type: ShiftType::LogicalLeft, shift_amount: ShiftAmount::Register(Register::R2) },
    );
    let by_constant = DataOperand::Register(Register::R1, shift(ShiftType::LogicalLeft, 3));
    let constant = DataOperand::Constant(RotatedConstant { immediate: 1, half_rotate: 0 });
    assert!(by_register.is_register_specified_shift());
    assert!(!by_constant.is_register_specified_shift());
    assert!(!constant.is_register_specified_shift());
}

#[test]
fn instructions_are_written_in_assembler_syntax() {
    let text = |instr: Instr, cond: Cond| instr.display(cond);
    assert_eq!(text(Instr::BranchExchange { operand: Register::R14 }, Cond::AL), "BX R14");
    assert_eq!(
        text(
            Instr::Data {
                set_condition_codes: true,
                op: DataOp::Mov,
                dest: Register::R0,
                op1: Register::R0,
                op2: DataOperand::Register(Register::R1, shift(ShiftType::LogicalRight, 1)),
            },
            Cond::NE
        ),
        "MOVNES R0,R1,LSR #1"
    );
    assert_eq!(
        text(
            Instr::Data {
                set_condition_codes: false,
                op: DataOp::Orr,
                dest: Register::R12,
                op1: Register::R12,
                op2: DataOperand::Constant(RotatedConstant { immediate: 173, half_rotate: 8 }),
            },
            Cond::AL
        ),
        "ORR R12,R12,#173,ROR 16"
    );
    assert_eq!(
        text(
            Instr::Data {
                set_condition_codes: false,
                op: DataOp::Mov,
                dest: Register::R0,
                op1: Register::R0,
                op2: DataOperand::Register(Register::R1, shift(ShiftType::RotateRightExtended, 1)),
            },
            Cond::AL
        ),
        "MOV R0,R1,RRX"
    );
    assert_eq!(text(Instr::Mrs { psr: Psr::Spsr, target: Register::R1 }, Cond::AL), "MRS R1,SPSR");
    assert_eq!(
        text(Instr::Msr { psr: Psr::Cpsr, source: MsrSource::RegisterFlags(Register::R1) }, Cond::AL),
        "MSR CPSR_flg,R1"
    );
    assert_eq!(
        text(
            Instr::Multiply {
                set_condition_codes: true,
                dest: Register::R1,
                op1: Register::R2,
                op2: Register::R3,
                addend: Some(Register::R4),
            },
            Cond::AL
        ),
        "MLAS R1,R2,R3,R4"
    );
    assert_eq!(
        text(
            Instr::MultiplyLong {
                set_condition_codes: false,
                signed: false,
                accumulate: true,
                dest_hi: Register::R1,
                dest_lo: Register::R0,
                op1: Register::R2,
                op2: Register::R3,
            },
            Cond::GE
        ),
        "UMLALGE R0,R1,R2,R3"
    );
    assert_eq!(
        text(
            Instr::SingleTransfer {
                kind: TransferKind::Load,
                size: TransferSize::Byte,
                write_back: true,
                offset_positive: false,
                pre_index: true,
                data_register: Register::R0,
                base_register: Register::R1,
                offset: TransferOperand::Constant(4),
            },
            Cond::AL
        ),
        "LDRB R0,[R1,#-4]!"
    );
    assert_eq!(
        text(
            Instr::SingleTransfer {
                kind: TransferKind::Store,
                size: TransferSize::Word,
                write_back: true,
                offset_positive: true,
                pre_index: false,
                data_register: Register::R0,
                base_register: Register::R1,
                offset: TransferOperand::Register(Register::R2, shift(ShiftType::LogicalLeft, 2)),
            },
            Cond::AL
        ),
        "STRT R0,[R1],R2,LSL #2"
    );
    assert_eq!(
        text(
            Instr::SingleTransferSpecial {
                kind: TransferKind::Load,
                size: TransferSizeSpecial::SignExtendedByte,
                write_back: false,
                offset_positive: true,
                pre_index: true,
                data_register: Register::R0,
                base_register: Register::R1,
                offset: SpecialOperand::Constant(0),
            },
            Cond::AL
        ),
        "LDRSB R0,[R1]"
    );
    assert_eq!(
        text(
            Instr::BlockTransfer {
                kind: TransferKind::Store,
                write_back: true,
                offset_positive: false,
                pre_index: true,
                psr: true,
                base_register: Register::R13,
                registers: 0x4011,
            },
            Cond::AL
        ),
        "STMFD R13!,{R0,R4,R14}^"
    );
    assert_eq!(
        text(
            Instr::Swap { byte: true, dest: Register::R1, source: Register::R2, base: Register::R3 },
            Cond::AL
        ),
        "SWPB R1,R2,[R3]"
    );
    assert_eq!(text(Instr::SoftwareInterrupt { comment: 1234567 }, Cond::VS), "SWIVS 1234567");
    assert_eq!(
        text(Instr::Branch { link: false, offset: i32::MIN }, Cond::AL),
        "B PC+#-2147483648"
    );
    let mut line = String::from("0: ");
    Instr::SoftwareInterrupt { comment: 0 }.write(Cond::AL, &mut line);
    assert_eq!(line, "0: SWI 0");
}
