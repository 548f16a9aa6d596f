//! Instructions as text, in the syntax of the assembler.

use vstd::prelude::*;
use vstd::string::*;
use crate::instr::bits::bit_is_set;
use crate::instr::bits::test_bit;
use crate::instr::ty::Cond;
use crate::instr::ty::DataOp;
use crate::instr::ty::DataOperand;
use crate::instr::ty::Instr;
use crate::instr::ty::MsrSource;
use crate::instr::ty::Psr;
use crate::instr::ty::Register;
use crate::instr::ty::RotatedConstant;
use crate::instr::ty::Shift;
use crate::instr::ty::ShiftAmount;
use crate::instr::ty::ShiftType;
use crate::instr::ty::SpecialOperand;
use crate::instr::ty::TransferKind;
use crate::instr::ty::TransferOperand;
use crate::instr::ty::TransferSize;
use crate::instr::ty::TransferSizeSpecial;

verus! {

/// The text of a decimal digit.
pub open spec fn digit_text(digit: nat) -> Seq<char> {
    if digit == 0 {
        "0"@
    } else if digit == 1 {
        "1"@
    } else if digit == 2 {
        "2"@
    } else if digit == 3 {
        "3"@
    } else if digit == 4 {
        "4"@
    } else if digit == 5 {
        "5"@
    } else if digit == 6 {
        "6"@
    } else if digit == 7 {
        "7"@
    } else if digit == 8 {
        "8"@
    } else {
        "9"@
    }
}

/// `prefix` followed by a natural number in decimal, without leading
/// zeros.
pub open spec fn decimal_text(prefix: Seq<char>, n: nat) -> Seq<char>
    decreases n,
{
    if n < 10 {
        prefix + digit_text(n)
    } else {
        decimal_text(prefix, n / 10) + digit_text(n % 10)
    }
}

/// The text of a hexadecimal digit, in upper case.
pub open spec fn hex_digit_text(digit: nat) -> Seq<char> {
    if digit < 10 {
        digit_text(digit)
    } else if digit == 10 {
        "A"@
    } else if digit == 11 {
        "B"@
    } else if digit == 12 {
        "C"@
    } else if digit == 13 {
        "D"@
    } else if digit == 14 {
        "E"@
    } else {
        "F"@
    }
}

/// `prefix` followed by the lowest `digits` hexadecimal digits of a word,
/// in upper case, with leading zeros.
pub open spec fn hex_text(prefix: Seq<char>, value: u32, digits: nat) -> Seq<char>
    decreases digits,
{
    if digits == 0 {
        prefix
    } else {
        hex_text(prefix, value / 16, (digits - 1) as nat) + hex_digit_text((value % 16) as nat)
    }
}

/// `prefix` followed by an integer in decimal, with a minus sign if it is
/// negative.
pub open spec fn signed_decimal_text(prefix: Seq<char>, n: int) -> Seq<char> {
    if n < 0 {
        decimal_text(prefix + "-"@, (-n) as nat)
    } else {
        decimal_text(prefix, n as nat)
    }
}

/// `prefix` followed by the name of a register: `R0` to `R15`.
pub open spec fn register_text(prefix: Seq<char>, register: Register) -> Seq<char> {
    decimal_text(prefix + "R"@, register.spec_index() as nat)
}

/// The suffix of a condition: its two letters, or nothing for `AL`.
pub open spec fn cond_text(cond: Cond) -> Seq<char> {
    match cond {
        Cond::EQ => "EQ"@,
        Cond::NE => "NE"@,
        Cond::CS => "CS"@,
        Cond::CC => "CC"@,
        Cond::MI => "MI"@,
        Cond::PL => "PL"@,
        Cond::VS => "VS"@,
        Cond::VC => "VC"@,
        Cond::HI => "HI"@,
        Cond::LS => "LS"@,
        Cond::GE => "GE"@,
        Cond::LT => "LT"@,
        Cond::GT => "GT"@,
        Cond::LE => "LE"@,
        Cond::AL => ""@,
    }
}

/// The mnemonic of a data operation.
pub open spec fn data_op_text(op: DataOp) -> Seq<char> {
    match op {
        DataOp::And => "AND"@,
        DataOp::Eor => "EOR"@,
        DataOp::Sub => "SUB"@,
        DataOp::Rsb => "RSB"@,
        DataOp::Add => "ADD"@,
        DataOp::Adc => "ADC"@,
        DataOp::Sbc => "SBC"@,
        DataOp::Rsc => "RSC"@,
        DataOp::Tst => "TST"@,
        DataOp::Teq => "TEQ"@,
        DataOp::Cmp => "CMP"@,
        DataOp::Cmn => "CMN"@,
        DataOp::Orr => "ORR"@,
        DataOp::Mov => "MOV"@,
        DataOp::Bic => "BIC"@,
        DataOp::Mvn => "MVN"@,
    }
}

/// The mnemonic of a shift type.
pub open spec fn shift_type_text(shift_type: ShiftType) -> Seq<char> {
    match shift_type {
        ShiftType::LogicalLeft => "LSL"@,
        ShiftType::LogicalRight => "LSR"@,
        ShiftType::ArithmeticRight => "ASR"@,
        ShiftType::RotateRight => "ROR"@,
        ShiftType::RotateRightExtended => "RRX"@,
    }
}

/// The name of a status register.
pub open spec fn psr_text(psr: Psr) -> Seq<char> {
    match psr {
        Psr::Cpsr => "CPSR"@,
        Psr::Spsr => "SPSR"@,
    }
}

/// `prefix` followed by `text` if `present`, `prefix` alone otherwise.
pub open spec fn text_if(prefix: Seq<char>, present: bool, text: Seq<char>) -> Seq<char> {
    if present {
        prefix + text
    } else {
        prefix
    }
}

/// `prefix` followed by a shift, as it stands after its register: nothing
/// for a shift by the constant 0, `,RRX`, or a comma, the shift type and
/// the amount.
pub open spec fn shift_text(prefix: Seq<char>, shift: Shift) -> Seq<char> {
    if shift.shift_type == ShiftType::RotateRightExtended {
        prefix + ",RRX"@
    } else {
        match shift.shift_amount {
            ShiftAmount::Constant(amount) => if amount == 0 {
                prefix
            } else {
                decimal_text(
                    prefix + ","@ + shift_type_text(shift.shift_type) + " #"@,
                    amount as nat,
                )
            },
            ShiftAmount::Register(register) => register_text(
                prefix + ","@ + shift_type_text(shift.shift_type) + " "@,
                register,
            ),
        }
    }
}

/// `prefix` followed by a rotated constant: its immediate, and the
/// rotation if there is one.
pub open spec fn rotated_text(prefix: Seq<char>, constant: RotatedConstant) -> Seq<char> {
    if constant.half_rotate == 0 {
        decimal_text(prefix, constant.immediate as nat)
    } else {
        decimal_text(
            decimal_text(prefix, constant.immediate as nat) + ",ROR "@,
            (constant.half_rotate * 2) as nat,
        )
    }
}

/// `prefix` followed by the second operand of a data-processing
/// instruction.
pub open spec fn data_operand_text(prefix: Seq<char>, operand: DataOperand) -> Seq<char> {
    match operand {
        DataOperand::Constant(constant) => rotated_text(prefix + "#"@, constant),
        DataOperand::Register(register, shift) => shift_text(
            register_text(prefix, register),
            shift,
        ),
    }
}

/// The offset of a transfer after its base: nothing for the constant 0,
/// else a comma and the offset, with a minus sign if it counts down.
pub open spec fn transfer_offset_text(offset: TransferOperand, offset_positive: bool) -> Seq<
    char,
> {
    match offset {
        TransferOperand::Constant(value) => if value == 0 {
            Seq::empty()
        } else {
            decimal_text(
                text_if(Seq::empty() + ",#"@, !offset_positive, "-"@),
                value as nat,
            )
        },
        TransferOperand::Register(register, shift) => shift_text(
            register_text(text_if(Seq::empty() + ","@, !offset_positive, "-"@), register),
            shift,
        ),
    }
}

/// The offset of a special transfer after its base.
pub open spec fn special_offset_text(offset: SpecialOperand, offset_positive: bool) -> Seq<char> {
    match offset {
        SpecialOperand::Constant(value) => if value == 0 {
            Seq::empty()
        } else {
            decimal_text(
                text_if(Seq::empty() + ",#"@, !offset_positive, "-"@),
                value as nat,
            )
        },
        SpecialOperand::Register(register) => register_text(
            text_if(Seq::empty() + ","@, !offset_positive, "-"@),
            register,
        ),
    }
}

/// `prefix` followed by a single transfer: `LDR` or `STR`, the condition,
/// the size, `T` for a post-indexed transfer with write-back, the data
/// register, and the address; the offset stands inside the brackets of a
/// pre-indexed transfer, followed by `!` for write-back, and behind them
/// otherwise.
pub open spec fn single_transfer_text(
    prefix: Seq<char>,
    cond: Cond,
    kind: TransferKind,
    size: Seq<char>,
    write_back: bool,
    pre_index: bool,
    data_register: Register,
    base_register: Register,
    offset: Seq<char>,
) -> Seq<char> {
    let mnemonic = prefix + (if kind == TransferKind::Store {
        "STR"@
    } else {
        "LDR"@
    }) + cond_text(cond) + size;
    let data = register_text(text_if(mnemonic, write_back && !pre_index, "T"@) + " "@, data_register);
    let base = register_text(data + ",["@, base_register);
    let address = text_if(text_if(base, !pre_index, "]"@) + offset, pre_index, "]"@);
    text_if(address, pre_index && write_back, "!"@)
}

/// The suffix of a block transfer that names its addressing mode.
pub open spec fn block_mode_text(kind: TransferKind, pre_index: bool, offset_positive: bool)
    -> Seq<char> {
    if kind == TransferKind::Store {
        if pre_index {
            if offset_positive {
                "FA"@
            } else {
                "FD"@
            }
        } else if offset_positive {
            "EA"@
        } else {
            "ED"@
        }
    } else if pre_index {
        if offset_positive {
            "ED"@
        } else {
            "EA"@
        }
    } else if offset_positive {
        "FD"@
    } else {
        "FA"@
    }
}

/// `prefix` followed by the registers of a block transfer from number
/// `from` on, separated by commas; `first` says that none has been written
/// yet.
pub open spec fn register_list_text(prefix: Seq<char>, registers: u16, from: nat, first: bool)
    -> Seq<char>
    decreases 16 - from,
{
    if from >= 16 {
        prefix
    } else if bit_is_set(registers as u32, from as u32) {
        register_list_text(
            decimal_text(text_if(prefix, !first, ","@) + "R"@, from),
            registers,
            from + 1,
            false,
        )
    } else {
        register_list_text(prefix, registers, from + 1, first)
    }
}

/// The size letters of a transfer.
pub open spec fn size_text(size: TransferSize) -> Seq<char> {
    match size {
        TransferSize::Byte => "B"@,
        TransferSize::Word => ""@,
    }
}

/// The size letters of a special transfer.
pub open spec fn special_size_text(size: TransferSizeSpecial) -> Seq<char> {
    match size {
        TransferSizeSpecial::HalfWord => "H"@,
        TransferSizeSpecial::SignExtendedByte => "SB"@,
        TransferSizeSpecial::SignExtendedHalfWord => "SH"@,
    }
}

/// The string of a decimal digit.
fn digit_str(digit: u32) -> (r: &'static str)
    requires
        digit < 10,
    ensures
        r@ == digit_text(digit as nat),
{
    match digit {
        0 => "0",
        1 => "1",
        2 => "2",
        3 => "3",
        4 => "4",
        5 => "5",
        6 => "6",
        7 => "7",
        8 => "8",
        _ => "9",
    }
}

/// Appends a number in decimal.
pub fn write_decimal(f: &mut String, n: u32)
    ensures
        final(f)@ == decimal_text(old(f)@, n as nat),
    decreases n,
{
    if n >= 10 {
        write_decimal(f, n / 10);
    }
    f.append(digit_str(n % 10));
}

/// The string of a hexadecimal digit.
fn hex_digit_str(digit: u32) -> (r: &'static str)
    requires
        digit < 16,
    ensures
        r@ == hex_digit_text(digit as nat),
{
    match digit {
        10 => "A",
        11 => "B",
        12 => "C",
        13 => "D",
        14 => "E",
        15 => "F",
        _ => digit_str(digit),
    }
}

/// Appends the lowest `digits` hexadecimal digits of a word, in upper
/// case, with leading zeros.
pub fn write_hex(f: &mut String, value: u32, digits: u32)
    ensures
        final(f)@ == hex_text(old(f)@, value, digits as nat),
    decreases digits,
{
    if digits > 0 {
        write_hex(f, value / 16, digits - 1);
        f.append(hex_digit_str(value % 16));
    }
}

/// Appends a count in decimal.
pub fn write_count(f: &mut String, n: usize)
    ensures
        final(f)@ == decimal_text(old(f)@, n as nat),
    decreases n,
{
    if n >= 10 {
        write_count(f, n / 10);
    }
    f.append(digit_str((n % 10) as u32));
}

/// Appends a signed number in decimal.
pub fn write_signed_decimal(f: &mut String, n: i32)
    ensures
        final(f)@ == signed_decimal_text(old(f)@, n as int),
{
    if n < 0 {
        f.append("-");
        let magnitude: u32 = (-(n as i64)) as u32;
        write_decimal(f, magnitude);
    } else {
        write_decimal(f, n as u32);
    }
}

/// Appends `text` if `present`.
fn write_if(f: &mut String, present: bool, text: &str)
    ensures
        final(f)@ == text_if(old(f)@, present, text@),
{
    if present {
        f.append(text);
    }
}

/// Appends the name of a register.
pub fn write_register(f: &mut String, register: Register)
    ensures
        final(f)@ == register_text(old(f)@, register),
{
    f.append("R");
    write_decimal(f, register.index());
}

/// The suffix of a condition.
pub fn cond_str(cond: Cond) -> (r: &'static str)
    ensures
        r@ == cond_text(cond),
{
    match cond {
        Cond::EQ => "EQ",
        Cond::NE => "NE",
        Cond::CS => "CS",
        Cond::CC => "CC",
        Cond::MI => "MI",
        Cond::PL => "PL",
        Cond::VS => "VS",
        Cond::VC => "VC",
        Cond::HI => "HI",
        Cond::LS => "LS",
        Cond::GE => "GE",
        Cond::LT => "LT",
        Cond::GT => "GT",
        Cond::LE => "LE",
        Cond::AL => "",
    }
}

/// The mnemonic of a data operation.
pub fn data_op_str(op: DataOp) -> (r: &'static str)
    ensures
        r@ == data_op_text(op),
{
    match op {
        DataOp::And => "AND",
        DataOp::Eor => "EOR",
        DataOp::Sub => "SUB",
        DataOp::Rsb => "RSB",
        DataOp::Add => "ADD",
        DataOp::Adc => "ADC",
        DataOp::Sbc => "SBC",
        DataOp::Rsc => "RSC",
        DataOp::Tst => "TST",
        DataOp::Teq => "TEQ",
        DataOp::Cmp => "CMP",
        DataOp::Cmn => "CMN",
        DataOp::Orr => "ORR",
        DataOp::Mov => "MOV",
        DataOp::Bic => "BIC",
        DataOp::Mvn => "MVN",
    }
}

/// The mnemonic of a shift type.
pub fn shift_type_str(shift_type: ShiftType) -> (r: &'static str)
    ensures
        r@ == shift_type_text(shift_type),
{
    match shift_type {
        ShiftType::LogicalLeft => "LSL",
        ShiftType::LogicalRight => "LSR",
        ShiftType::ArithmeticRight => "ASR",
        ShiftType::RotateRight => "ROR",
        ShiftType::RotateRightExtended => "RRX",
    }
}

/// The name of a status register.
pub fn psr_str(psr: Psr) -> (r: &'static str)
    ensures
        r@ == psr_text(psr),
{
    match psr {
        Psr::Cpsr => "CPSR",
        Psr::Spsr => "SPSR",
    }
}

/// The size letters of a transfer.
pub fn size_str(size: TransferSize) -> (r: &'static str)
    ensures
        r@ == size_text(size),
{
    match size {
        TransferSize::Byte => "B",
        TransferSize::Word => "",
    }
}

/// The size letters of a special transfer.
pub fn special_size_str(size: TransferSizeSpecial) -> (r: &'static str)
    ensures
        r@ == special_size_text(size),
{
    match size {
        TransferSizeSpecial::HalfWord => "H",
        TransferSizeSpecial::SignExtendedByte => "SB",
        TransferSizeSpecial::SignExtendedHalfWord => "SH",
    }
}

/// Appends a shift after its register.
pub fn write_shift(f: &mut String, shift: Shift)
    ensures
        final(f)@ == shift_text(old(f)@, shift),
{
    if shift.shift_type == ShiftType::RotateRightExtended {
        f.append(",RRX");
    } else {
        match shift.shift_amount {
            ShiftAmount::Constant(amount) => {
                if amount != 0 {
                    f.append(",");
                    f.append(shift_type_str(shift.shift_type));
                    f.append(" #");
                    write_decimal(f, amount as u32);
                }
            },
            ShiftAmount::Register(register) => {
                f.append(",");
                f.append(shift_type_str(shift.shift_type));
                f.append(" ");
                write_register(f, register);
            },
        }
    }
}

/// Appends the second operand of a data-processing instruction.
pub fn write_data_operand(f: &mut String, operand: DataOperand)
    ensures
        final(f)@ == data_operand_text(old(f)@, operand),
{
    match operand {
        DataOperand::Constant(constant) => {
            f.append("#");
            write_decimal(f, constant.immediate as u32);
            if constant.half_rotate != 0 {
                f.append(",ROR ");
                write_decimal(f, constant.half_rotate as u32 * 2);
            }
        },
        DataOperand::Register(register, shift) => {
            write_register(f, register);
            write_shift(f, shift);
        },
    }
}

/// The offset of a transfer, as it stands after the base.
pub fn transfer_offset_string(offset: TransferOperand, offset_positive: bool) -> (r: String)
    ensures
        r@ == transfer_offset_text(offset, offset_positive),
{
    let mut f = String::new();
    match offset {
        TransferOperand::Constant(value) => {
            if value != 0 {
                f.append(",#");
                write_if(&mut f, !offset_positive, "-");
                write_decimal(&mut f, value as u32);
            }
        },
        TransferOperand::Register(register, shift) => {
            f.append(",");
            write_if(&mut f, !offset_positive, "-");
            write_register(&mut f, register);
            write_shift(&mut f, shift);
        },
    }
    f
}

/// The offset of a special transfer, as it stands after the base.
pub fn special_offset_string(offset: SpecialOperand, offset_positive: bool) -> (r: String)
    ensures
        r@ == special_offset_text(offset, offset_positive),
{
    let mut f = String::new();
    match offset {
        SpecialOperand::Constant(value) => {
            if value != 0 {
                f.append(",#");
                write_if(&mut f, !offset_positive, "-");
                write_decimal(&mut f, value as u32);
            }
        },
        SpecialOperand::Register(register) => {
            f.append(",");
            write_if(&mut f, !offset_positive, "-");
            write_register(&mut f, register);
        },
    }
    f
}

/// Appends a single transfer.
pub fn write_single_transfer(
    cond: Cond,
    f: &mut String,
    kind: TransferKind,
    size: &str,
    write_back: bool,
    pre_index: bool,
    data_register: Register,
    base_register: Register,
    offset: &String,
)
    ensures
        final(f)@ == single_transfer_text(
            old(f)@,
            cond,
            kind,
            size@,
            write_back,
            pre_index,
            data_register,
            base_register,
            offset@,
        ),
{
    match kind {
        TransferKind::Store => f.append("STR"),
        TransferKind::Load => f.append("LDR"),
    }
    f.append(cond_str(cond));
    f.append(size);
    write_if(f, write_back && !pre_index, "T");
    f.append(" ");
    write_register(f, data_register);
    f.append(",[");
    write_register(f, base_register);
    write_if(f, !pre_index, "]");
    f.append(offset.as_str());
    write_if(f, pre_index, "]");
    write_if(f, pre_index && write_back, "!");
}

/// The suffix of a block transfer that names its addressing mode.
pub fn block_mode_str(kind: TransferKind, pre_index: bool, offset_positive: bool) -> (r:
    &'static str)
    ensures
        r@ == block_mode_text(kind, pre_index, offset_positive),
{
    if kind == TransferKind::Store {
        if pre_index {
            if offset_positive {
                "FA"
            } else {
                "FD"
            }
        } else if offset_positive {
            "EA"
        } else {
            "ED"
        }
    } else if pre_index {
        if offset_positive {
            "ED"
        } else {
            "EA"
        }
    } else if offset_positive {
        "FD"
    } else {
        "FA"
    }
}

/// Appends the registers of a block transfer.
pub fn write_register_list(f: &mut String, registers: u16)
    ensures
        final(f)@ == register_list_text(old(f)@, registers, 0, true),
{
    let mut i: u32 = 0;
    let mut first = true;
    while i < 16
        invariant
            i <= 16,
            register_list_text(f@, registers, i as nat, first) == register_list_text(
                old(f)@,
                registers,
                0,
                true,
            ),
        decreases 16 - i,
    {
        if test_bit(registers as u32, i) {
            write_if(f, !first, ",");
            f.append("R");
            write_decimal(f, i);
            first = false;
        }
        i += 1;
    }
}

impl Instr {
    /// `prefix` followed by the text of the instruction under a condition:
    /// the mnemonic with the condition and the other suffixes, a space, and
    /// the operands separated by commas.
    pub open spec fn spec_write(self, prefix: Seq<char>, cond: Cond) -> Seq<char> {
        match self {
            Instr::BranchExchange { operand } => register_text(
                prefix + "BX"@ + cond_text(cond) + " "@,
                operand,
            ),
            Instr::Branch { link, offset } => signed_decimal_text(
                text_if(prefix + "B"@, link, "L"@) + cond_text(cond) + " PC+#"@,
                offset as int,
            ),
            Instr::Data { set_condition_codes, op, dest, op1, op2 } => {
                let mnemonic = text_if(
                    prefix + data_op_text(op) + cond_text(cond),
                    set_condition_codes && !op.spec_is_test(),
                    "S"@,
                ) + " "@;
                let registers = if op == DataOp::Mov || op == DataOp::Mvn {
                    register_text(mnemonic, dest)
                } else if op.spec_is_test() {
                    register_text(mnemonic, op1)
                } else {
                    register_text(register_text(mnemonic, dest) + ","@, op1)
                };
                data_operand_text(registers + ","@, op2)
            },
            Instr::Mrs { psr, target } => register_text(
                prefix + "MRS"@ + cond_text(cond) + " "@,
                target,
            ) + ","@ + psr_text(psr),
            Instr::Msr { psr, source } => {
                let target = prefix + "MSR"@ + cond_text(cond) + " "@ + psr_text(psr);
                match source {
                    MsrSource::Register(register) => register_text(target + ","@, register),
                    MsrSource::RegisterFlags(register) => register_text(
                        target + "_flg,"@,
                        register,
                    ),
                    MsrSource::Flags(flags) => decimal_text(target + "_flg,#"@, flags as nat),
                }
            },
            Instr::Multiply { set_condition_codes, dest, op1, op2, addend } => {
                let mnemonic = text_if(
                    prefix + (if addend is Some {
                        "MLA"@
                    } else {
                        "MUL"@
                    }) + cond_text(cond),
                    set_condition_codes,
                    "S"@,
                ) + " "@;
                let three = register_text(
                    register_text(register_text(mnemonic, dest) + ","@, op1) + ","@,
                    op2,
                );
                match addend {
                    Some(addend) => register_text(three + ","@, addend),
                    None => three,
                }
            },
            Instr::MultiplyLong {
                set_condition_codes,
                signed,
                accumulate,
                dest_hi,
                dest_lo,
                op1,
                op2,
            } => {
                let mnemonic = text_if(
                    prefix + (if signed {
                        "S"@
                    } else {
                        "U"@
                    }) + (if accumulate {
                        "MLAL"@
                    } else {
                        "MULL"@
                    }) + cond_text(cond),
                    set_condition_codes,
                    "S"@,
                ) + " "@;
                register_text(
                    register_text(
                        register_text(register_text(mnemonic, dest_lo) + ","@, dest_hi) + ","@,
                        op1,
                    ) + ","@,
                    op2,
                )
            },
            Instr::SingleTransfer {
                kind,
                size,
                write_back,
                offset_positive,
                pre_index,
                data_register,
                base_register,
                offset,
            } => single_transfer_text(
                prefix,
                cond,
                kind,
                size_text(size),
                write_back,
                pre_index,
                data_register,
                base_register,
                transfer_offset_text(offset, offset_positive),
            ),
            Instr::SingleTransferSpecial {
                kind,
                size,
                write_back,
                offset_positive,
                pre_index,
                data_register,
                base_register,
                offset,
            } => single_transfer_text(
                prefix,
                cond,
                kind,
                special_size_text(size),
                write_back,
                pre_index,
                data_register,
                base_register,
                special_offset_text(offset, offset_positive),
            ),
            Instr::BlockTransfer {
                kind,
                write_back,
                offset_positive,
                pre_index,
                psr,
                base_register,
                registers,
            } => {
                let base = register_text(
                    prefix + (if kind == TransferKind::Store {
                        "STM"@
                    } else {
                        "LDM"@
                    }) + cond_text(cond) + block_mode_text(kind, pre_index, offset_positive) + " "@,
                    base_register,
                );
                text_if(
                    register_list_text(text_if(base, write_back, "!"@) + ",{"@, registers, 0, true)
                        + "}"@,
                    psr,
                    "^"@,
                )
            },
            Instr::Swap { byte, dest, source, base } => register_text(
                register_text(
                    register_text(
                        text_if(prefix + "SWP"@ + cond_text(cond), byte, "B"@) + " "@,
                        dest,
                    ) + ","@,
                    source,
                ) + ",["@,
                base,
            ) + "]"@,
            Instr::SoftwareInterrupt { comment } => decimal_text(
                prefix + "SWI"@ + cond_text(cond) + " "@,
                comment as nat,
            ),
        }
    }

    /// The text of the instruction under a condition.
    pub open spec fn spec_display(self, cond: Cond) -> Seq<char> {
        self.spec_write(Seq::empty(), cond)
    }

    /// Appends the text of the instruction under a condition.
    pub fn write(&self, cond: Cond, f: &mut String)
        ensures
            final(f)@ == self.spec_write(old(f)@, cond),
    {
        match *self {
            Instr::BranchExchange { operand } => {
                f.append("BX");
                f.append(cond_str(cond));
                f.append(" ");
                write_register(f, operand);
            },
            Instr::Branch { link, offset } => {
                f.append("B");
                write_if(f, link, "L");
                f.append(cond_str(cond));
                f.append(" PC+#");
                write_signed_decimal(f, offset);
            },
            Instr::Data { .. } => self.write_data(cond, f),
            Instr::Mrs { psr, target } => {
                f.append("MRS");
                f.append(cond_str(cond));
                f.append(" ");
                write_register(f, target);
                f.append(",");
                f.append(psr_str(psr));
            },
            Instr::Msr { psr, source } => {
                f.append("MSR");
                f.append(cond_str(cond));
                f.append(" ");
                f.append(psr_str(psr));
                match source {
                    MsrSource::Register(register) => {
                        f.append(",");
                        write_register(f, register);
                    },
                    MsrSource::RegisterFlags(register) => {
                        f.append("_flg,");
                        write_register(f, register);
                    },
                    MsrSource::Flags(flags) => {
                        f.append("_flg,#");
                        write_decimal(f, flags);
                    },
                }
            },
            Instr::Multiply { .. } => self.write_multiply(cond, f),
            Instr::MultiplyLong { .. } => self.write_multiply_long(cond, f),
            Instr::SingleTransfer {
                kind,
                size,
                write_back,
                offset_positive,
                pre_index,
                data_register,
                base_register,
                offset,
            } => {
                let offset = transfer_offset_string(offset, offset_positive);
                write_single_transfer(
                    cond,
                    f,
                    kind,
                    size_str(size),
                    write_back,
                    pre_index,
                    data_register,
                    base_register,
                    &offset,
                );
            },
            Instr::SingleTransferSpecial {
                kind,
                size,
                write_back,
                offset_positive,
                pre_index,
                data_register,
                base_register,
                offset,
            } => {
                let offset = special_offset_string(offset, offset_positive);
                write_single_transfer(
                    cond,
                    f,
                    kind,
                    special_size_str(size),
                    write_back,
                    pre_index,
                    data_register,
                    base_register,
                    &offset,
                );
            },
            Instr::BlockTransfer { .. } => self.write_block_transfer(cond, f),
            Instr::Swap { byte, dest, source, base } => {
                f.append("SWP");
                f.append(cond_str(cond));
                write_if(f, byte, "B");
                f.append(" ");
                write_register(f, dest);
                f.append(",");
                write_register(f, source);
                f.append(",[");
                write_register(f, base);
                f.append("]");
            },
            Instr::SoftwareInterrupt { comment } => {
                f.append("SWI");
                f.append(cond_str(cond));
                f.append(" ");
                write_decimal(f, comment);
            },
        }
    }

    /// Appends the text of a data-processing instruction.
    fn write_data(&self, cond: Cond, f: &mut String)
        requires
            self is Data,
        ensures
            final(f)@ == self.spec_write(old(f)@, cond),
    {
        match *self {
            Instr::Data { set_condition_codes, op, dest, op1, op2 } => {
                f.append(data_op_str(op));
                f.append(cond_str(cond));
                write_if(f, set_condition_codes && !op.is_test(), "S");
                f.append(" ");
                if op == DataOp::Mov || op == DataOp::Mvn {
                    write_register(f, dest);
                } else if op.is_test() {
                    write_register(f, op1);
                } else {
                    write_register(f, dest);
                    f.append(",");
                    write_register(f, op1);
                }
                f.append(",");
                write_data_operand(f, op2);
            },
            _ => {},
        }
    }

    /// Appends the text of a multiply.
    fn write_multiply(&self, cond: Cond, f: &mut String)
        requires
            self is Multiply,
        ensures
            final(f)@ == self.spec_write(old(f)@, cond),
    {
        match *self {
            Instr::Multiply { set_condition_codes, dest, op1, op2, addend } => {
                if addend.is_some() {
                    f.append("MLA");
                } else {
                    f.append("MUL");
                }
                f.append(cond_str(cond));
                write_if(f, set_condition_codes, "S");
                f.append(" ");
                write_register(f, dest);
                f.append(",");
                write_register(f, op1);
                f.append(",");
                write_register(f, op2);
                match addend {
                    Some(addend) => {
                        f.append(",");
                        write_register(f, addend);
                    },
                    None => {},
                }
            },
            _ => {},
        }
    }

    /// Appends the text of a long multiply.
    fn write_multiply_long(&self, cond: Cond, f: &mut String)
        requires
            self is MultiplyLong,
        ensures
            final(f)@ == self.spec_write(old(f)@, cond),
    {
        match *self {
            Instr::MultiplyLong {
                set_condition_codes,
                signed,
                accumulate,
                dest_hi,
                dest_lo,
                op1,
                op2,
            } => {
                if signed {
                    f.append("S");
                } else {
                    f.append("U");
                }
                if accumulate {
                    f.append("MLAL");
                } else {
                    f.append("MULL");
                }
                f.append(cond_str(cond));
                write_if(f, set_condition_codes, "S");
                f.append(" ");
                write_register(f, dest_lo);
                f.append(",");
                write_register(f, dest_hi);
                f.append(",");
                write_register(f, op1);
                f.append(",");
                write_register(f, op2);
            },
            _ => {},
        }
    }

    /// Appends the text of a block transfer.
    fn write_block_transfer(&self, cond: Cond, f: &mut String)
        requires
            self is BlockTransfer,
        ensures
            final(f)@ == self.spec_write(old(f)@, cond),
    {
        match *self {
            Instr::BlockTransfer {
                kind,
                write_back,
                offset_positive,
                pre_index,
                psr,
                base_register,
                registers,
            } => {
                match kind {
                    TransferKind::Store => f.append("STM"),
                    TransferKind::Load => f.append("LDM"),
                }
                f.append(cond_str(cond));
                f.append(block_mode_str(kind, pre_index, offset_positive));
                f.append(" ");
                write_register(f, base_register);
                write_if(f, write_back, "!");
                f.append(",{");
                write_register_list(f, registers);
                f.append("}");
                write_if(f, psr, "^");
            },
            _ => {},
        }
    }

    /// The text of the instruction under a condition.
    pub fn display(&self, cond: Cond) -> (r: String)
        ensures
            r@ == self.spec_display(cond),
    {
        let mut w = String::new();
        self.write(cond, &mut w);
        w
    }
}

} // verus!
