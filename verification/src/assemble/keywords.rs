//! The keywords of the assembler: registers, opcodes, conditions and status
//! registers, and how a name is told to be one of them.

use vstd::prelude::*;
use vstd::string::*;
use crate::assemble::lexer::TokenKind;
use crate::assemble::syntax::AnyTransferSize;
use crate::instr::ty::Cond;
use crate::instr::ty::DataOp;
use crate::instr::ty::Psr;
use crate::instr::ty::Register;
use crate::instr::ty::ShiftType;
use crate::instr::ty::TransferKind;
use crate::instr::ty::TransferSize;
use crate::instr::ty::TransferSizeSpecial;

verus! {

/// What an opcode asks for, apart from its condition.
#[derive(Debug, Clone, Copy, PartialEq, Eq, Structural)]
pub enum Opcode {
    BranchExchange,
    Branch { link: bool },
    Adr,
    Nop,
    /// Whether to set the condition codes; the operation.
    Data(bool, DataOp),
    /// Whether to set the condition codes; the shift.
    Shift(bool, ShiftType),
    Mrs,
    Msr,
    /// Set condition codes; accumulate.
    Mul(bool, bool),
    /// Set condition codes; signed; accumulate.
    MulLong(bool, bool, bool),
    /// The bool is for forced writeback (the T flag).
    SingleTransfer(TransferKind, AnyTransferSize, bool),
    /// The bool flags are positive offset and pre index.
    BlockTransfer(TransferKind, bool, bool),
    /// The bool is whether to swap a byte.
    Swap(bool),
    Swi,
    Equ,
    DefW,
}

impl Opcode {
    /// The mnemonic of the opcode in upper case, without a condition.
    pub open spec fn spec_text(self) -> Seq<char> {
        match self {
            Opcode::BranchExchange => "BX"@,
            Opcode::Branch { link } => if link {
                "BL"@
            } else {
                "B"@
            },
            Opcode::Adr => "ADR"@,
            Opcode::Nop => "NOP"@,
            Opcode::Data(set_condition_codes, op) => crate::instr::display::data_op_text(op) + (
            if set_condition_codes {
                "S"@
            } else {
                ""@
            }),
            Opcode::Shift(set_condition_codes, shift_type) => crate::instr::display::shift_type_text(
                shift_type,
            ) + (if set_condition_codes {
                "S"@
            } else {
                ""@
            }),
            Opcode::Mrs => "MRS"@,
            Opcode::Msr => "MSR"@,
            Opcode::Mul(set_condition_codes, accumulate) => (if accumulate {
                "MLA"@
            } else {
                "MUL"@
            }) + (if set_condition_codes {
                "S"@
            } else {
                ""@
            }),
            Opcode::MulLong(set_condition_codes, signed, accumulate) => (if signed {
                "S"@
            } else {
                "U"@
            }) + (if accumulate {
                "MLAL"@
            } else {
                "MULL"@
            }) + (if set_condition_codes {
                "S"@
            } else {
                ""@
            }),
            Opcode::SingleTransfer(kind, size, t_flag) => (if kind == TransferKind::Store {
                "STR"@
            } else {
                "LDR"@
            }) + (match size {
                AnyTransferSize::Normal(size) => crate::instr::display::size_text(size),
                AnyTransferSize::Special(size) => crate::instr::display::special_size_text(size),
            }) + (if t_flag {
                "T"@
            } else {
                ""@
            }),
            Opcode::BlockTransfer(kind, offset_positive, pre_index) => (if kind
                == TransferKind::Store {
                "STM"@
            } else {
                "LDM"@
            }) + (if offset_positive {
                "I"@
            } else {
                "D"@
            }) + (if pre_index {
                "B"@
            } else {
                "A"@
            }),
            Opcode::Swap(byte) => "SWP"@ + (if byte {
                "B"@
            } else {
                ""@
            }),
            Opcode::Swi => "SWI"@,
            Opcode::Equ => "EQU"@,
            Opcode::DefW => "DEFW"@,
        }
    }

    /// The mnemonic of the opcode in upper case, without a condition.
    pub fn text(self) -> (r: String)
        ensures
            r@ == self.spec_text(),
    {
        match self {
            Opcode::BranchExchange => String::from_str("BX"),
            Opcode::Branch { link } => String::from_str(
                if link {
                    "BL"
                } else {
                    "B"
                },
            ),
            Opcode::Adr => String::from_str("ADR"),
            Opcode::Nop => String::from_str("NOP"),
            Opcode::Data(set_condition_codes, op) => {
                let mut text = String::from_str(crate::instr::display::data_op_str(op));
                text.append(if set_condition_codes { "S" } else { "" });
                text
            },
            Opcode::Shift(set_condition_codes, shift_type) => {
                let mut text = String::from_str(crate::instr::display::shift_type_str(shift_type));
                text.append(if set_condition_codes { "S" } else { "" });
                text
            },
            Opcode::Mrs => String::from_str("MRS"),
            Opcode::Msr => String::from_str("MSR"),
            Opcode::Mul(set_condition_codes, accumulate) => {
                let mut text = String::from_str(if accumulate { "MLA" } else { "MUL" });
                text.append(if set_condition_codes { "S" } else { "" });
                text
            },
            Opcode::MulLong(set_condition_codes, signed, accumulate) => {
                let mut text = String::from_str(if signed { "S" } else { "U" });
                text.append(if accumulate { "MLAL" } else { "MULL" });
                text.append(if set_condition_codes { "S" } else { "" });
                text
            },
            Opcode::SingleTransfer(kind, size, t_flag) => {
                let mut text = String::from_str(
                    if kind == TransferKind::Store {
                        "STR"
                    } else {
                        "LDR"
                    },
                );
                text.append(
                    match size {
                        AnyTransferSize::Normal(size) => crate::instr::display::size_str(size),
                        AnyTransferSize::Special(size) => crate::instr::display::special_size_str(
                            size,
                        ),
                    },
                );
                text.append(if t_flag { "T" } else { "" });
                text
            },
            Opcode::BlockTransfer(kind, offset_positive, pre_index) => {
                let mut text = String::from_str(
                    if kind == TransferKind::Store {
                        "STM"
                    } else {
                        "LDM"
                    },
                );
                text.append(if offset_positive { "I" } else { "D" });
                text.append(if pre_index { "B" } else { "A" });
                text
            },
            Opcode::Swap(byte) => {
                let mut text = String::from_str("SWP");
                text.append(if byte { "B" } else { "" });
                text
            },
            Opcode::Swi => String::from_str("SWI"),
            Opcode::Equ => String::from_str("EQU"),
            Opcode::DefW => String::from_str("DEFW"),
        }
    }
}

/// The code of a character with an upper-case ASCII letter turned into its
/// lower-case letter.
pub open spec fn lower_code(c: char) -> u32 {
    if 'A' <= c && c <= 'Z' {
        (c as u32 + 32) as u32
    } else {
        c as u32
    }
}

/// Whether the characters from `start` up to `end` spell the lower-case
/// word `word`, in either case of the letters.
pub open spec fn word_is(src: Seq<char>, start: int, end: int, word: Seq<char>) -> bool {
    end - start == word.len() && forall|i: int|
        0 <= i < word.len() ==> lower_code(#[trigger] src[start + i]) == word[i] as u32
}

/// The number of the entries in the table of mnemonics.
pub const MNEMONIC_COUNT: usize = 96;

/// The table of mnemonics: each entry is what stands before the condition,
/// what stands behind it, and the opcode. Entries above the last are read
/// as the last.
pub open spec fn mnemonic_entry(index: usize) -> (Seq<char>, Seq<char>, Opcode) {
    match index {
        0 => ("bx"@, ""@, Opcode::BranchExchange),
        1 => ("b"@, ""@, Opcode::Branch { link: false }),
        2 => ("bl"@, ""@, Opcode::Branch { link: true }),
        3 => ("adr"@, ""@, Opcode::Adr),
        4 => ("adrl"@, ""@, Opcode::Adr),
        5 => ("nop"@, ""@, Opcode::Nop),
        6 => ("and"@, ""@, Opcode::Data(false, DataOp::And)),
        7 => ("and"@, "s"@, Opcode::Data(true, DataOp::And)),
        8 => ("eor"@, ""@, Opcode::Data(false, DataOp::Eor)),
        9 => ("eor"@, "s"@, Opcode::Data(true, DataOp::Eor)),
        10 => ("sub"@, ""@, Opcode::Data(false, DataOp::Sub)),
        11 => ("sub"@, "s"@, Opcode::Data(true, DataOp::Sub)),
        12 => ("rsb"@, ""@, Opcode::Data(false, DataOp::Rsb)),
        13 => ("rsb"@, "s"@, Opcode::Data(true, DataOp::Rsb)),
        14 => ("add"@, ""@, Opcode::Data(false, DataOp::Add)),
        15 => ("add"@, "s"@, Opcode::Data(true, DataOp::Add)),
        16 => ("adc"@, ""@, Opcode::Data(false, DataOp::Adc)),
        17 => ("adc"@, "s"@, Opcode::Data(true, DataOp::Adc)),
        18 => ("sbc"@, ""@, Opcode::Data(false, DataOp::Sbc)),
        19 => ("sbc"@, "s"@, Opcode::Data(true, DataOp::Sbc)),
        20 => ("rsc"@, ""@, Opcode::Data(false, DataOp::Rsc)),
        21 => ("rsc"@, "s"@, Opcode::Data(true, DataOp::Rsc)),
        22 => ("tst"@, ""@, Opcode::Data(true, DataOp::Tst)),
        23 => ("teq"@, ""@, Opcode::Data(true, DataOp::Teq)),
        24 => ("cmp"@, ""@, Opcode::Data(true, DataOp::Cmp)),
        25 => ("cmn"@, ""@, Opcode::Data(true, DataOp::Cmn)),
        26 => ("orr"@, ""@, Opcode::Data(false, DataOp::Orr)),
        27 => ("orr"@, "s"@, Opcode::Data(true, DataOp::Orr)),
        28 => ("mov"@, ""@, Opcode::Data(false, DataOp::Mov)),
        29 => ("mov"@, "s"@, Opcode::Data(true, DataOp::Mov)),
        30 => ("bic"@, ""@, Opcode::Data(false, DataOp::Bic)),
        31 => ("bic"@, "s"@, Opcode::Data(true, DataOp::Bic)),
        32 => ("mvn"@, ""@, Opcode::Data(false, DataOp::Mvn)),
        33 => ("mvn"@, "s"@, Opcode::Data(true, DataOp::Mvn)),
        34 => ("lsl"@, ""@, Opcode::Shift(false, ShiftType::LogicalLeft)),
        35 => ("lsl"@, "s"@, Opcode::Shift(true, ShiftType::LogicalLeft)),
        36 => ("asl"@, ""@, Opcode::Shift(false, ShiftType::LogicalLeft)),
        37 => ("asl"@, "s"@, Opcode::Shift(true, ShiftType::LogicalLeft)),
        38 => ("lsr"@, ""@, Opcode::Shift(false, ShiftType::LogicalRight)),
        39 => ("lsr"@, "s"@, Opcode::Shift(true, ShiftType::LogicalRight)),
        40 => ("asr"@, ""@, Opcode::Shift(false, ShiftType::ArithmeticRight)),
        41 => ("asr"@, "s"@, Opcode::Shift(true, ShiftType::ArithmeticRight)),
        42 => ("ror"@, ""@, Opcode::Shift(false, ShiftType::RotateRight)),
        43 => ("ror"@, "s"@, Opcode::Shift(true, ShiftType::RotateRight)),
        44 => ("rrx"@, ""@, Opcode::Shift(false, ShiftType::RotateRightExtended)),
        45 => ("rrx"@, "s"@, Opcode::Shift(true, ShiftType::RotateRightExtended)),
        46 => ("mrs"@, ""@, Opcode::Mrs),
        47 => ("msr"@, ""@, Opcode::Msr),
        48 => ("mul"@, ""@, Opcode::Mul(false, false)),
        49 => ("mul"@, "s"@, Opcode::Mul(true, false)),
        50 => ("mla"@, ""@, Opcode::Mul(false, true)),
        51 => ("mla"@, "s"@, Opcode::Mul(true, true)),
        52 => ("umull"@, ""@, Opcode::MulLong(false, false, false)),
        53 => ("umull"@, "s"@, Opcode::MulLong(true, false, false)),
        54 => ("umlal"@, ""@, Opcode::MulLong(false, false, true)),
        55 => ("umlal"@, "s"@, Opcode::MulLong(true, false, true)),
        56 => ("smull"@, ""@, Opcode::MulLong(false, true, false)),
        57 => ("smull"@, "s"@, Opcode::MulLong(true, true, false)),
        58 => ("smlal"@, ""@, Opcode::MulLong(false, true, true)),
        59 => ("smlal"@, "s"@, Opcode::MulLong(true, true, true)),
        60 => ("ldr"@, ""@, Opcode::SingleTransfer(TransferKind::Load, AnyTransferSize::Normal(TransferSize::Word), false)),
        61 => ("ldr"@, "b"@, Opcode::SingleTransfer(TransferKind::Load, AnyTransferSize::Normal(TransferSize::Byte), false)),
        62 => ("ldr"@, "t"@, Opcode::SingleTransfer(TransferKind::Load, AnyTransferSize::Normal(TransferSize::Word), true)),
        63 => ("ldr"@, "bt"@, Opcode::SingleTransfer(TransferKind::Load, AnyTransferSize::Normal(TransferSize::Byte), true)),
        64 => ("ldr"@, "h"@, Opcode::SingleTransfer(TransferKind::Load, AnyTransferSize::Special(TransferSizeSpecial::HalfWord), false)),
        65 => ("ldr"@, "sh"@, Opcode::SingleTransfer(TransferKind::Load, AnyTransferSize::Special(TransferSizeSpecial::SignExtendedHalfWord), false)),
        66 => ("ldr"@, "sb"@, Opcode::SingleTransfer(TransferKind::Load, AnyTransferSize::Special(TransferSizeSpecial::SignExtendedByte), false)),
        67 => ("str"@, ""@, Opcode::SingleTransfer(TransferKind::Store, AnyTransferSize::Normal(TransferSize::Word), false)),
        68 => ("str"@, "b"@, Opcode::SingleTransfer(TransferKind::Store, AnyTransferSize::Normal(TransferSize::Byte), false)),
        69 => ("str"@, "t"@, Opcode::SingleTransfer(TransferKind::Store, AnyTransferSize::Normal(TransferSize::Word), true)),
        70 => ("str"@, "bt"@, Opcode::SingleTransfer(TransferKind::Store, AnyTransferSize::Normal(TransferSize::Byte), true)),
        71 => ("str"@, "h"@, Opcode::SingleTransfer(TransferKind::Store, AnyTransferSize::Special(TransferSizeSpecial::HalfWord), false)),
        72 => ("str"@, "sh"@, Opcode::SingleTransfer(TransferKind::Store, AnyTransferSize::Special(TransferSizeSpecial::SignExtendedHalfWord), false)),
        73 => ("str"@, "sb"@, Opcode::SingleTransfer(TransferKind::Store, AnyTransferSize::Special(TransferSizeSpecial::SignExtendedByte), false)),
        74 => ("ldm"@, "fd"@, Opcode::BlockTransfer(TransferKind::Load, true, false)),
        75 => ("ldm"@, "ed"@, Opcode::BlockTransfer(TransferKind::Load, true, true)),
        76 => ("ldm"@, "fa"@, Opcode::BlockTransfer(TransferKind::Load, false, false)),
        77 => ("ldm"@, "ea"@, Opcode::BlockTransfer(TransferKind::Load, false, true)),
        78 => ("ldm"@, "ia"@, Opcode::BlockTransfer(TransferKind::Load, true, false)),
        79 => ("ldm"@, "ib"@, Opcode::BlockTransfer(TransferKind::Load, true, true)),
        80 => ("ldm"@, "da"@, Opcode::BlockTransfer(TransferKind::Load, false, false)),
        81 => ("ldm"@, "db"@, Opcode::BlockTransfer(TransferKind::Load, false, true)),
        82 => ("stm"@, "fd"@, Opcode::BlockTransfer(TransferKind::Store, false, true)),
        83 => ("stm"@, "ed"@, Opcode::BlockTransfer(TransferKind::Store, false, false)),
        84 => ("stm"@, "fa"@, Opcode::BlockTransfer(TransferKind::Store, true, true)),
        85 => ("stm"@, "ea"@, Opcode::BlockTransfer(TransferKind::Store, true, false)),
        86 => ("stm"@, "ia"@, Opcode::BlockTransfer(TransferKind::Store, true, false)),
        87 => ("stm"@, "ib"@, Opcode::BlockTransfer(TransferKind::Store, true, true)),
        88 => ("stm"@, "da"@, Opcode::BlockTransfer(TransferKind::Store, false, false)),
        89 => ("stm"@, "db"@, Opcode::BlockTransfer(TransferKind::Store, false, true)),
        90 => ("swp"@, ""@, Opcode::Swap(false)),
        91 => ("swp"@, "b"@, Opcode::Swap(true)),
        92 => ("swi"@, ""@, Opcode::Swi),
        93 => ("equ"@, ""@, Opcode::Equ),
        94 => ("dw"@, ""@, Opcode::DefW),
        _ => ("defw"@, ""@, Opcode::DefW),
    }
}

/// The table of mnemonics.
pub fn mnemonic_at(index: usize) -> (r: (&'static str, &'static str, Opcode))
    ensures
        r.0@ == mnemonic_entry(index).0,
        r.1@ == mnemonic_entry(index).1,
        r.2 == mnemonic_entry(index).2,
{
    match index {
        0 => ("bx", "", Opcode::BranchExchange),
        1 => ("b", "", Opcode::Branch { link: false }),
        2 => ("bl", "", Opcode::Branch { link: true }),
        3 => ("adr", "", Opcode::Adr),
        4 => ("adrl", "", Opcode::Adr),
        5 => ("nop", "", Opcode::Nop),
        6 => ("and", "", Opcode::Data(false, DataOp::And)),
        7 => ("and", "s", Opcode::Data(true, DataOp::And)),
        8 => ("eor", "", Opcode::Data(false, DataOp::Eor)),
        9 => ("eor", "s", Opcode::Data(true, DataOp::Eor)),
        10 => ("sub", "", Opcode::Data(false, DataOp::Sub)),
        11 => ("sub", "s", Opcode::Data(true, DataOp::Sub)),
        12 => ("rsb", "", Opcode::Data(false, DataOp::Rsb)),
        13 => ("rsb", "s", Opcode::Data(true, DataOp::Rsb)),
        14 => ("add", "", Opcode::Data(false, DataOp::Add)),
        15 => ("add", "s", Opcode::Data(true, DataOp::Add)),
        16 => ("adc", "", Opcode::Data(false, DataOp::Adc)),
        17 => ("adc", "s", Opcode::Data(true, DataOp::Adc)),
        18 => ("sbc", "", Opcode::Data(false, DataOp::Sbc)),
        19 => ("sbc", "s", Opcode::Data(true, DataOp::Sbc)),
        20 => ("rsc", "", Opcode::Data(false, DataOp::Rsc)),
        21 => ("rsc", "s", Opcode::Data(true, DataOp::Rsc)),
        22 => ("tst", "", Opcode::Data(true, DataOp::Tst)),
        23 => ("teq", "", Opcode::Data(true, DataOp::Teq)),
        24 => ("cmp", "", Opcode::Data(true, DataOp::Cmp)),
        25 => ("cmn", "", Opcode::Data(true, DataOp::Cmn)),
        26 => ("orr", "", Opcode::Data(false, DataOp::Orr)),
        27 => ("orr", "s", Opcode::Data(true, DataOp::Orr)),
        28 => ("mov", "", Opcode::Data(false, DataOp::Mov)),
        29 => ("mov", "s", Opcode::Data(true, DataOp::Mov)),
        30 => ("bic", "", Opcode::Data(false, DataOp::Bic)),
        31 => ("bic", "s", Opcode::Data(true, DataOp::Bic)),
        32 => ("mvn", "", Opcode::Data(false, DataOp::Mvn)),
        33 => ("mvn", "s", Opcode::Data(true, DataOp::Mvn)),
        34 => ("lsl", "", Opcode::Shift(false, ShiftType::LogicalLeft)),
        35 => ("lsl", "s", Opcode::Shift(true, ShiftType::LogicalLeft)),
        36 => ("asl", "", Opcode::Shift(false, ShiftType::LogicalLeft)),
        37 => ("asl", "s", Opcode::Shift(true, ShiftType::LogicalLeft)),
        38 => ("lsr", "", Opcode::Shift(false, ShiftType::LogicalRight)),
        39 => ("lsr", "s", Opcode::Shift(true, ShiftType::LogicalRight)),
        40 => ("asr", "", Opcode::Shift(false, ShiftType::ArithmeticRight)),
        41 => ("asr", "s", Opcode::Shift(true, ShiftType::ArithmeticRight)),
        42 => ("ror", "", Opcode::Shift(false, ShiftType::RotateRight)),
        43 => ("ror", "s", Opcode::Shift(true, ShiftType::RotateRight)),
        44 => ("rrx", "", Opcode::Shift(false, ShiftType::RotateRightExtended)),
        45 => ("rrx", "s", Opcode::Shift(true, ShiftType::RotateRightExtended)),
        46 => ("mrs", "", Opcode::Mrs),
        47 => ("msr", "", Opcode::Msr),
        48 => ("mul", "", Opcode::Mul(false, false)),
        49 => ("mul", "s", Opcode::Mul(true, false)),
        50 => ("mla", "", Opcode::Mul(false, true)),
        51 => ("mla", "s", Opcode::Mul(true, true)),
        52 => ("umull", "", Opcode::MulLong(false, false, false)),
        53 => ("umull", "s", Opcode::MulLong(true, false, false)),
        54 => ("umlal", "", Opcode::MulLong(false, false, true)),
        55 => ("umlal", "s", Opcode::MulLong(true, false, true)),
        56 => ("smull", "", Opcode::MulLong(false, true, false)),
        57 => ("smull", "s", Opcode::MulLong(true, true, false)),
        58 => ("smlal", "", Opcode::MulLong(false, true, true)),
        59 => ("smlal", "s", Opcode::MulLong(true, true, true)),
        60 => ("ldr", "", Opcode::SingleTransfer(TransferKind::Load, AnyTransferSize::Normal(TransferSize::Word), false)),
        61 => ("ldr", "b", Opcode::SingleTransfer(TransferKind::Load, AnyTransferSize::Normal(TransferSize::Byte), false)),
        62 => ("ldr", "t", Opcode::SingleTransfer(TransferKind::Load, AnyTransferSize::Normal(TransferSize::Word), true)),
        63 => ("ldr", "bt", Opcode::SingleTransfer(TransferKind::Load, AnyTransferSize::Normal(TransferSize::Byte), true)),
        64 => ("ldr", "h", Opcode::SingleTransfer(TransferKind::Load, AnyTransferSize::Special(TransferSizeSpecial::HalfWord), false)),
        65 => ("ldr", "sh", Opcode::SingleTransfer(TransferKind::Load, AnyTransferSize::Special(TransferSizeSpecial::SignExtendedHalfWord), false)),
        66 => ("ldr", "sb", Opcode::SingleTransfer(TransferKind::Load, AnyTransferSize::Special(TransferSizeSpecial::SignExtendedByte), false)),
        67 => ("str", "", Opcode::SingleTransfer(TransferKind::Store, AnyTransferSize::Normal(TransferSize::Word), false)),
        68 => ("str", "b", Opcode::SingleTransfer(TransferKind::Store, AnyTransferSize::Normal(TransferSize::Byte), false)),
        69 => ("str", "t", Opcode::SingleTransfer(TransferKind::Store, AnyTransferSize::Normal(TransferSize::Word), true)),
        70 => ("str", "bt", Opcode::SingleTransfer(TransferKind::Store, AnyTransferSize::Normal(TransferSize::Byte), true)),
        71 => ("str", "h", Opcode::SingleTransfer(TransferKind::Store, AnyTransferSize::Special(TransferSizeSpecial::HalfWord), false)),
        72 => ("str", "sh", Opcode::SingleTransfer(TransferKind::Store, AnyTransferSize::Special(TransferSizeSpecial::SignExtendedHalfWord), false)),
        73 => ("str", "sb", Opcode::SingleTransfer(TransferKind::Store, AnyTransferSize::Special(TransferSizeSpecial::SignExtendedByte), false)),
        74 => ("ldm", "fd", Opcode::BlockTransfer(TransferKind::Load, true, false)),
        75 => ("ldm", "ed", Opcode::BlockTransfer(TransferKind::Load, true, true)),
        76 => ("ldm", "fa", Opcode::BlockTransfer(TransferKind::Load, false, false)),
        77 => ("ldm", "ea", Opcode::BlockTransfer(TransferKind::Load, false, true)),
        78 => ("ldm", "ia", Opcode::BlockTransfer(TransferKind::Load, true, false)),
        79 => ("ldm", "ib", Opcode::BlockTransfer(TransferKind::Load, true, true)),
        80 => ("ldm", "da", Opcode::BlockTransfer(TransferKind::Load, false, false)),
        81 => ("ldm", "db", Opcode::BlockTransfer(TransferKind::Load, false, true)),
        82 => ("stm", "fd", Opcode::BlockTransfer(TransferKind::Store, false, true)),
        83 => ("stm", "ed", Opcode::BlockTransfer(TransferKind::Store, false, false)),
        84 => ("stm", "fa", Opcode::BlockTransfer(TransferKind::Store, true, true)),
        85 => ("stm", "ea", Opcode::BlockTransfer(TransferKind::Store, true, false)),
        86 => ("stm", "ia", Opcode::BlockTransfer(TransferKind::Store, true, false)),
        87 => ("stm", "ib", Opcode::BlockTransfer(TransferKind::Store, true, true)),
        88 => ("stm", "da", Opcode::BlockTransfer(TransferKind::Store, false, false)),
        89 => ("stm", "db", Opcode::BlockTransfer(TransferKind::Store, false, true)),
        90 => ("swp", "", Opcode::Swap(false)),
        91 => ("swp", "b", Opcode::Swap(true)),
        92 => ("swi", "", Opcode::Swi),
        93 => ("equ", "", Opcode::Equ),
        94 => ("dw", "", Opcode::DefW),
        _ => ("defw", "", Opcode::DefW),
    }
}

/// The number of the entries in the table of register names.
pub const REGISTER_NAME_COUNT: usize = 19;

/// The table of register names. Entries above the last are read as the
/// last.
pub open spec fn register_entry(index: usize) -> (Seq<char>, Register) {
    match index {
        0 => ("r0"@, Register::R0),
        1 => ("r1"@, Register::R1),
        2 => ("r2"@, Register::R2),
        3 => ("r3"@, Register::R3),
        4 => ("r4"@, Register::R4),
        5 => ("r5"@, Register::R5),
        6 => ("r6"@, Register::R6),
        7 => ("r7"@, Register::R7),
        8 => ("r8"@, Register::R8),
        9 => ("r9"@, Register::R9),
        10 => ("r10"@, Register::R10),
        11 => ("r11"@, Register::R11),
        12 => ("r12"@, Register::R12),
        13 => ("r13"@, Register::R13),
        14 => ("r14"@, Register::R14),
        15 => ("r15"@, Register::R15),
        16 => ("sp"@, Register::R13),
        17 => ("lr"@, Register::R14),
        _ => ("pc"@, Register::R15),
    }
}

/// The table of register names.
pub fn register_at(index: usize) -> (r: (&'static str, Register))
    ensures
        r.0@ == register_entry(index).0,
        r.1 == register_entry(index).1,
{
    match index {
        0 => ("r0", Register::R0),
        1 => ("r1", Register::R1),
        2 => ("r2", Register::R2),
        3 => ("r3", Register::R3),
        4 => ("r4", Register::R4),
        5 => ("r5", Register::R5),
        6 => ("r6", Register::R6),
        7 => ("r7", Register::R7),
        8 => ("r8", Register::R8),
        9 => ("r9", Register::R9),
        10 => ("r10", Register::R10),
        11 => ("r11", Register::R11),
        12 => ("r12", Register::R12),
        13 => ("r13", Register::R13),
        14 => ("r14", Register::R14),
        15 => ("r15", Register::R15),
        16 => ("sp", Register::R13),
        17 => ("lr", Register::R14),
        _ => ("pc", Register::R15),
    }
}

/// The number of the entries in the table of condition suffixes.
pub const COND_NAME_COUNT: usize = 15;

/// The table of condition suffixes. Entries above the last are read as
/// the last.
pub open spec fn cond_entry(index: usize) -> (Seq<char>, Cond) {
    match index {
        0 => ("eq"@, Cond::EQ),
        1 => ("ne"@, Cond::NE),
        2 => ("cs"@, Cond::CS),
        3 => ("cc"@, Cond::CC),
        4 => ("mi"@, Cond::MI),
        5 => ("pl"@, Cond::PL),
        6 => ("vs"@, Cond::VS),
        7 => ("vc"@, Cond::VC),
        8 => ("hi"@, Cond::HI),
        9 => ("ls"@, Cond::LS),
        10 => ("ge"@, Cond::GE),
        11 => ("lt"@, Cond::LT),
        12 => ("gt"@, Cond::GT),
        13 => ("le"@, Cond::LE),
        _ => ("al"@, Cond::AL),
    }
}

/// The table of condition suffixes.
pub fn cond_at(index: usize) -> (r: (&'static str, Cond))
    ensures
        r.0@ == cond_entry(index).0,
        r.1 == cond_entry(index).1,
{
    match index {
        0 => ("eq", Cond::EQ),
        1 => ("ne", Cond::NE),
        2 => ("cs", Cond::CS),
        3 => ("cc", Cond::CC),
        4 => ("mi", Cond::MI),
        5 => ("pl", Cond::PL),
        6 => ("vs", Cond::VS),
        7 => ("vc", Cond::VC),
        8 => ("hi", Cond::HI),
        9 => ("ls", Cond::LS),
        10 => ("ge", Cond::GE),
        11 => ("lt", Cond::LT),
        12 => ("gt", Cond::GT),
        13 => ("le", Cond::LE),
        _ => ("al", Cond::AL),
    }
}

/// The number of the entries in the table of status register names.
pub const PSR_NAME_COUNT: usize = 6;

/// The table of status register names; the flag says that the name asks
/// for the flag bits only. Entries above the last are read as the last.
pub open spec fn psr_entry(index: usize) -> (Seq<char>, Psr, bool) {
    match index {
        0 => ("cpsr"@, Psr::Cpsr, false),
        1 => ("cpsr_all"@, Psr::Cpsr, false),
        2 => ("cpsr_flg"@, Psr::Cpsr, true),
        3 => ("spsr"@, Psr::Spsr, false),
        4 => ("spsr_all"@, Psr::Spsr, false),
        _ => ("spsr_flg"@, Psr::Spsr, true),
    }
}

/// The table of status register names.
pub fn psr_at(index: usize) -> (r: (&'static str, Psr, bool))
    ensures
        r.0@ == psr_entry(index).0,
        r.1 == psr_entry(index).1,
        r.2 == psr_entry(index).2,
{
    match index {
        0 => ("cpsr", Psr::Cpsr, false),
        1 => ("cpsr_all", Psr::Cpsr, false),
        2 => ("cpsr_flg", Psr::Cpsr, true),
        3 => ("spsr", Psr::Spsr, false),
        4 => ("spsr_all", Psr::Spsr, false),
        _ => ("spsr_flg", Psr::Spsr, true),
    }
}

/// The register that the text names, by the first entry from `from` on
/// that spells it.
pub open spec fn register_from(src: Seq<char>, start: int, end: int, from: usize) -> Option<
    Register,
>
    decreases REGISTER_NAME_COUNT - from,
{
    if from >= REGISTER_NAME_COUNT {
        None
    } else if word_is(src, start, end, register_entry(from).0) {
        Some(register_entry(from).1)
    } else {
        register_from(src, start, end, (from + 1) as usize)
    }
}

/// The condition that the text names: `AL` if it is empty, else by the
/// first entry from `from` on that spells it.
pub open spec fn cond_from(src: Seq<char>, start: int, end: int, from: usize) -> Option<Cond>
    decreases COND_NAME_COUNT - from,
{
    if start == end {
        Some(Cond::AL)
    } else if from >= COND_NAME_COUNT {
        None
    } else if word_is(src, start, end, cond_entry(from).0) {
        Some(cond_entry(from).1)
    } else {
        cond_from(src, start, end, (from + 1) as usize)
    }
}

/// The status register that the text names.
pub open spec fn psr_from(src: Seq<char>, start: int, end: int, from: usize) -> Option<
    (Psr, bool),
>
    decreases PSR_NAME_COUNT - from,
{
    if from >= PSR_NAME_COUNT {
        None
    } else if word_is(src, start, end, psr_entry(from).0) {
        Some((psr_entry(from).1, psr_entry(from).2))
    } else {
        psr_from(src, start, end, (from + 1) as usize)
    }
}

/// The condition under which the text is the mnemonic of an entry: the
/// text starts with what stands before the condition, ends with what
/// stands behind it, and what is between names a condition. An empty
/// condition is `AL`.
pub open spec fn entry_condition(
    src: Seq<char>,
    start: int,
    end: int,
    before: Seq<char>,
    behind: Seq<char>,
) -> Option<Cond> {
    if end - start >= before.len() + behind.len() && word_is(
        src,
        start,
        start + before.len(),
        before,
    ) && word_is(src, end - behind.len(), end, behind) {
        cond_from(src, start + before.len(), end - behind.len(), 0)
    } else {
        None
    }
}

/// The condition and opcode that the text names, by the first entry from
/// `from` on that it is the mnemonic of.
pub open spec fn mnemonic_from(src: Seq<char>, start: int, end: int, from: usize) -> Option<
    (Cond, Opcode),
>
    decreases MNEMONIC_COUNT - from,
{
    if from >= MNEMONIC_COUNT {
        None
    } else {
        match entry_condition(
            src,
            start,
            end,
            mnemonic_entry(from).0,
            mnemonic_entry(from).1,
        ) {
            Some(cond) => Some((cond, mnemonic_entry(from).2)),
            None => mnemonic_from(src, start, end, (from + 1) as usize),
        }
    }
}

/// What a name is: a register, an opcode with its condition or a status
/// register if it is spelt like one, in that order, else a plain name.
pub open spec fn spec_classify_name(src: Seq<char>, start: int, end: int) -> TokenKind {
    match register_from(src, start, end, 0) {
        Some(register) => TokenKind::Register(register),
        None => match mnemonic_from(src, start, end, 0) {
            Some((cond, opcode)) => TokenKind::Opcode(cond, opcode),
            None => match psr_from(src, start, end, 0) {
                Some((psr, flag)) => TokenKind::Psr(psr, flag),
                None => TokenKind::Name,
            },
        },
    }
}

/// The code of a character with an upper-case ASCII letter turned into its
/// lower-case letter.
pub fn lower_code_of(c: char) -> (r: u32)
    ensures
        r == lower_code(c),
{
    if 'A' <= c && c <= 'Z' {
        c as u32 + 32
    } else {
        c as u32
    }
}

/// Whether the characters from `start` up to `end` spell a lower-case word.
pub fn matches_word(src: &Vec<char>, start: usize, end: usize, word: &str) -> (r: bool)
    requires
        start <= end <= src@.len(),
    ensures
        r == word_is(src@, start as int, end as int, word@),
{
    let length = word.unicode_len();
    if end - start != length {
        return false;
    }
    let mut i: usize = 0;
    while i < length
        invariant
            i <= length,
            length == word@.len(),
            end - start == length,
            start <= end <= src@.len(),
            forall|k: int| 0 <= k < i ==> lower_code(#[trigger] src@[start + k]) == word@[k] as u32,
        decreases length - i,
    {
        if lower_code_of(src[start + i]) != word.get_char(i) as u32 {
            assert(lower_code(src@[start + i]) != word@[i as int] as u32);
            return false;
        }
        i += 1;
    }
    true
}

/// Looks a name up in the table of register names.
pub fn find_register(src: &Vec<char>, start: usize, end: usize) -> (r: Option<Register>)
    requires
        start <= end <= src@.len(),
    ensures
        r == register_from(src@, start as int, end as int, 0),
{
    let mut i: usize = 0;
    while i < REGISTER_NAME_COUNT
        invariant
            i <= REGISTER_NAME_COUNT,
            start <= end <= src@.len(),
            register_from(src@, start as int, end as int, i) == register_from(
                src@,
                start as int,
                end as int,
                0,
            ),
        decreases REGISTER_NAME_COUNT - i,
    {
        let (word, register) = register_at(i);
        if matches_word(src, start, end, word) {
            return Some(register);
        }
        i += 1;
    }
    None
}

/// Looks a condition suffix up; the empty suffix is `AL`.
pub fn find_cond(src: &Vec<char>, start: usize, end: usize) -> (r: Option<Cond>)
    requires
        start <= end <= src@.len(),
    ensures
        r == cond_from(src@, start as int, end as int, 0),
{
    if start == end {
        return Some(Cond::AL);
    }
    let mut i: usize = 0;
    while i < COND_NAME_COUNT
        invariant
            i <= COND_NAME_COUNT,
            start < end <= src@.len(),
            cond_from(src@, start as int, end as int, i) == cond_from(
                src@,
                start as int,
                end as int,
                0,
            ),
        decreases COND_NAME_COUNT - i,
    {
        let (word, cond) = cond_at(i);
        if matches_word(src, start, end, word) {
            return Some(cond);
        }
        i += 1;
    }
    None
}

/// Looks a name up in the table of status register names.
pub fn find_psr(src: &Vec<char>, start: usize, end: usize) -> (r: Option<(Psr, bool)>)
    requires
        start <= end <= src@.len(),
    ensures
        r == psr_from(src@, start as int, end as int, 0),
{
    let mut i: usize = 0;
    while i < PSR_NAME_COUNT
        invariant
            i <= PSR_NAME_COUNT,
            start <= end <= src@.len(),
            psr_from(src@, start as int, end as int, i) == psr_from(
                src@,
                start as int,
                end as int,
                0,
            ),
        decreases PSR_NAME_COUNT - i,
    {
        let (word, psr, flag) = psr_at(i);
        if matches_word(src, start, end, word) {
            return Some((psr, flag));
        }
        i += 1;
    }
    None
}

/// Tells whether a name is the mnemonic of one entry, and under which
/// condition.
pub fn match_entry(src: &Vec<char>, start: usize, end: usize, before: &str, behind: &str) -> (r:
    Option<Cond>)
    requires
        start <= end <= src@.len(),
    ensures
        r == entry_condition(src@, start as int, end as int, before@, behind@),
{
    let before_length = before.unicode_len();
    let behind_length = behind.unicode_len();
    if end - start < before_length || end - start - before_length < behind_length {
        return None;
    }
    if matches_word(src, start, start + before_length, before) && matches_word(
        src,
        end - behind_length,
        end,
        behind,
    ) {
        find_cond(src, start + before_length, end - behind_length)
    } else {
        None
    }
}

/// Looks a name up in the table of mnemonics.
pub fn find_mnemonic(src: &Vec<char>, start: usize, end: usize) -> (r: Option<(Cond, Opcode)>)
    requires
        start <= end <= src@.len(),
    ensures
        r == mnemonic_from(src@, start as int, end as int, 0),
{
    let mut i: usize = 0;
    while i < MNEMONIC_COUNT
        invariant
            i <= MNEMONIC_COUNT,
            start <= end <= src@.len(),
            mnemonic_from(src@, start as int, end as int, i) == mnemonic_from(
                src@,
                start as int,
                end as int,
                0,
            ),
        decreases MNEMONIC_COUNT - i,
    {
        let (before, behind, opcode) = mnemonic_at(i);
        match match_entry(src, start, end, before, behind) {
            Some(cond) => {
                return Some((cond, opcode));
            },
            None => {},
        }
        i += 1;
    }
    None
}

/// Tells what a name is: a register, an opcode, a status register, or a
/// plain name.
pub fn classify_name(src: &Vec<char>, start: usize, end: usize) -> (r: TokenKind)
    requires
        start <= end <= src@.len(),
    ensures
        r == spec_classify_name(src@, start as int, end as int),
{
    match find_register(src, start, end) {
        Some(register) => TokenKind::Register(register),
        None => match find_mnemonic(src, start, end) {
            Some((cond, opcode)) => TokenKind::Opcode(cond, opcode),
            None => match find_psr(src, start, end) {
                Some((psr, flag)) => TokenKind::Psr(psr, flag),
                None => TokenKind::Name,
            },
        },
    }
}

} // verus!
