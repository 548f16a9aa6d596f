//! The symbolic form of the ARM instruction set.

use vstd::prelude::*;
use crate::instr::bits::field;
use crate::instr::bits::get_field;
use crate::instr::bits::lemma_rotate_inverse;
use crate::instr::bits::rol32;
use crate::instr::bits::ror32;
use crate::instr::bits::rotate_left;
use crate::instr::bits::rotate_right;

verus! {

/// The registers that can be directly referenced in code.
/// The hardware holds 37 registers in all; which one a name refers to
/// depends on the processor mode.
#[derive(Debug, Clone, Copy, PartialEq, Eq, PartialOrd, Ord, Hash, Structural)]
pub enum Register {
    R0,
    R1,
    R2,
    R3,
    R4,
    R5,
    R6,
    R7,
    R8,
    R9,
    R10,
    R11,
    R12,
    /// Also used for the stack pointer `SP`.
    R13,
    /// Also used for the link register `LR`.
    R14,
    /// Also used for the program counter `PC`.
    R15,
}

impl Register {
    /// The number of this register, from 0 to 15.
    pub open spec fn spec_index(self) -> u32 {
        match self {
            Register::R0 => 0,
            Register::R1 => 1,
            Register::R2 => 2,
            Register::R3 => 3,
            Register::R4 => 4,
            Register::R5 => 5,
            Register::R6 => 6,
            Register::R7 => 7,
            Register::R8 => 8,
            Register::R9 => 9,
            Register::R10 => 10,
            Register::R11 => 11,
            Register::R12 => 12,
            Register::R13 => 13,
            Register::R14 => 14,
            Register::R15 => 15,
        }
    }

    /// The register with the given number; numbers above 15 name no register
    /// and are read as `R15`.
    pub open spec fn spec_from_index(n: u32) -> Register {
        match n {
            0 => Register::R0,
            1 => Register::R1,
            2 => Register::R2,
            3 => Register::R3,
            4 => Register::R4,
            5 => Register::R5,
            6 => Register::R6,
            7 => Register::R7,
            8 => Register::R8,
            9 => Register::R9,
            10 => Register::R10,
            11 => Register::R11,
            12 => Register::R12,
            13 => Register::R13,
            14 => Register::R14,
            _ => Register::R15,
        }
    }

    /// The register named by the four bits of `value` that start at bit `offset`.
    pub open spec fn spec_from_u4(value: u32, offset: u32) -> Register {
        Register::spec_from_index(field(value, offset, 4))
    }

    /// The number of this register, from 0 to 15.
    pub fn index(self) -> (r: u32)
        ensures
            r == self.spec_index(),
            r < 16,
    {
        match self {
            Register::R0 => 0,
            Register::R1 => 1,
            Register::R2 => 2,
            Register::R3 => 3,
            Register::R4 => 4,
            Register::R5 => 5,
            Register::R6 => 6,
            Register::R7 => 7,
            Register::R8 => 8,
            Register::R9 => 9,
            Register::R10 => 10,
            Register::R11 => 11,
            Register::R12 => 12,
            Register::R13 => 13,
            Register::R14 => 14,
            Register::R15 => 15,
        }
    }

    /// The register named by the four bits of `value` that start at bit `offset`.
    pub fn from_u4(value: u32, offset: usize) -> (r: Register)
        requires
            offset < 32,
        ensures
            r == Register::spec_from_u4(value, offset as u32),
    {
        match get_field(value, offset as u32, 4) {
            0 => Register::R0,
            1 => Register::R1,
            2 => Register::R2,
            3 => Register::R3,
            4 => Register::R4,
            5 => Register::R5,
            6 => Register::R6,
            7 => Register::R7,
            8 => Register::R8,
            9 => Register::R9,
            10 => Register::R10,
            11 => Register::R11,
            12 => Register::R12,
            13 => Register::R13,
            14 => Register::R14,
            _ => Register::R15,
        }
    }

    /// Every register is the register of its own number.
    pub proof fn lemma_index_round_trip(self)
        ensures
            Register::spec_from_index(self.spec_index()) == self,
            self.spec_index() < 16,
    {
    }
}

/// A condition to execute an instruction on.
#[derive(Debug, Clone, Copy, PartialEq, Eq, PartialOrd, Ord, Hash, Structural)]
pub enum Cond {
    /// Z set (equal)
    EQ,
    /// Z clear (not equal)
    NE,
    /// C set (unsigned higher or same)
    CS,
    /// C clear (unsigned lower)
    CC,
    /// N set (negative)
    MI,
    /// N clear (positive or zero)
    PL,
    /// V set (overflow)
    VS,
    /// V clear (no overflow)
    VC,
    /// C set and Z clear (unsigned higher)
    HI,
    /// C clear or Z set (unsigned lower or same)
    LS,
    /// N equals V (greater or equal)
    GE,
    /// N not equal to V (less than)
    LT,
    /// Z clear AND (N equals V) (greater than)
    GT,
    /// Z set OR (N not equal to V) (less than or equal)
    LE,
    /// (ignored) (always)
    AL,
}

impl Cond {
    /// The four-bit code of this condition.
    pub open spec fn spec_index(self) -> u32 {
        match self {
            Cond::EQ => 0,
            Cond::NE => 1,
            Cond::CS => 2,
            Cond::CC => 3,
            Cond::MI => 4,
            Cond::PL => 5,
            Cond::VS => 6,
            Cond::VC => 7,
            Cond::HI => 8,
            Cond::LS => 9,
            Cond::GE => 10,
            Cond::LT => 11,
            Cond::GT => 12,
            Cond::LE => 13,
            Cond::AL => 14,
        }
    }

    /// The condition with the given four-bit code; code 15 and everything
    /// above it name no condition.
    pub open spec fn spec_from_index(n: u32) -> Option<Cond> {
        match n {
            0 => Some(Cond::EQ),
            1 => Some(Cond::NE),
            2 => Some(Cond::CS),
            3 => Some(Cond::CC),
            4 => Some(Cond::MI),
            5 => Some(Cond::PL),
            6 => Some(Cond::VS),
            7 => Some(Cond::VC),
            8 => Some(Cond::HI),
            9 => Some(Cond::LS),
            10 => Some(Cond::GE),
            11 => Some(Cond::LT),
            12 => Some(Cond::GT),
            13 => Some(Cond::LE),
            14 => Some(Cond::AL),
            _ => None,
        }
    }

    /// The four-bit code of this condition.
    pub fn index(self) -> (r: u32)
        ensures
            r == self.spec_index(),
            r < 15,
    {
        match self {
            Cond::EQ => 0,
            Cond::NE => 1,
            Cond::CS => 2,
            Cond::CC => 3,
            Cond::MI => 4,
            Cond::PL => 5,
            Cond::VS => 6,
            Cond::VC => 7,
            Cond::HI => 8,
            Cond::LS => 9,
            Cond::GE => 10,
            Cond::LT => 11,
            Cond::GT => 12,
            Cond::LE => 13,
            Cond::AL => 14,
        }
    }

    /// The condition with the given four-bit code, if there is one.
    pub fn from_index(n: u32) -> (r: Option<Cond>)
        ensures
            r == Cond::spec_from_index(n),
    {
        match n {
            0 => Some(Cond::EQ),
            1 => Some(Cond::NE),
            2 => Some(Cond::CS),
            3 => Some(Cond::CC),
            4 => Some(Cond::MI),
            5 => Some(Cond::PL),
            6 => Some(Cond::VS),
            7 => Some(Cond::VC),
            8 => Some(Cond::HI),
            9 => Some(Cond::LS),
            10 => Some(Cond::GE),
            11 => Some(Cond::LT),
            12 => Some(Cond::GT),
            13 => Some(Cond::LE),
            14 => Some(Cond::AL),
            _ => None,
        }
    }

    /// Every condition is the condition of its own code.
    pub proof fn lemma_index_round_trip(self)
        ensures
            Cond::spec_from_index(self.spec_index()) == Some(self),
            self.spec_index() < 15,
    {
    }
}

/// The possible data operations to use in a data-processing instruction.
#[derive(Debug, Clone, Copy, PartialEq, Eq, PartialOrd, Ord, Hash, Structural)]
pub enum DataOp {
    /// Returns op1 bitwise AND op2.
    And,
    /// Returns op1 bitwise XOR op2.
    Eor,
    /// Returns op1 - op2.
    Sub,
    /// Returns op2 - op1.
    Rsb,
    /// Returns op1 + op2.
    Add,
    /// Returns op1 + op2 + carry.
    Adc,
    /// Returns op1 - op2 + carry - 1.
    Sbc,
    /// Returns op2 - op1 + carry - 1.
    Rsc,
    /// As `And`, but result is not written.
    Tst,
    /// As `Eor`, but result is not written.
    Teq,
    /// As `Sub`, but result is not written.
    Cmp,
    /// As `Add`, but result is not written.
    Cmn,
    /// Returns op1 bitwise OR op2.
    Orr,
    /// Returns op2; op1 is ignored.
    Mov,
    /// Returns op1 bitwise AND NOT op2 (bit clear).
    Bic,
    /// Returns bitwise NOT op2; op1 is ignored.
    Mvn,
}

impl DataOp {
    /// The four-bit operation code.
    pub open spec fn spec_index(self) -> u32 {
        match self {
            DataOp::And => 0,
            DataOp::Eor => 1,
            DataOp::Sub => 2,
            DataOp::Rsb => 3,
            DataOp::Add => 4,
            DataOp::Adc => 5,
            DataOp::Sbc => 6,
            DataOp::Rsc => 7,
            DataOp::Tst => 8,
            DataOp::Teq => 9,
            DataOp::Cmp => 10,
            DataOp::Cmn => 11,
            DataOp::Orr => 12,
            DataOp::Mov => 13,
            DataOp::Bic => 14,
            DataOp::Mvn => 15,
        }
    }

    /// The operation with the given code; codes above 15 are read as `Mvn`.
    pub open spec fn spec_from_index(n: u32) -> DataOp {
        match n {
            0 => DataOp::And,
            1 => DataOp::Eor,
            2 => DataOp::Sub,
            3 => DataOp::Rsb,
            4 => DataOp::Add,
            5 => DataOp::Adc,
            6 => DataOp::Sbc,
            7 => DataOp::Rsc,
            8 => DataOp::Tst,
            9 => DataOp::Teq,
            10 => DataOp::Cmp,
            11 => DataOp::Cmn,
            12 => DataOp::Orr,
            13 => DataOp::Mov,
            14 => DataOp::Bic,
            _ => DataOp::Mvn,
        }
    }

    /// Whether this operation only compares: it always sets the flags and
    /// never writes its result.
    pub open spec fn spec_is_test(self) -> bool {
        self == DataOp::Tst || self == DataOp::Teq || self == DataOp::Cmp || self == DataOp::Cmn
    }

    /// The four-bit operation code.
    pub fn index(self) -> (r: u32)
        ensures
            r == self.spec_index(),
            r < 16,
    {
        match self {
            DataOp::And => 0,
            DataOp::Eor => 1,
            DataOp::Sub => 2,
            DataOp::Rsb => 3,
            DataOp::Add => 4,
            DataOp::Adc => 5,
            DataOp::Sbc => 6,
            DataOp::Rsc => 7,
            DataOp::Tst => 8,
            DataOp::Teq => 9,
            DataOp::Cmp => 10,
            DataOp::Cmn => 11,
            DataOp::Orr => 12,
            DataOp::Mov => 13,
            DataOp::Bic => 14,
            DataOp::Mvn => 15,
        }
    }

    /// The operation with the given code; codes above 15 are read as `Mvn`.
    pub fn from_index(n: u32) -> (r: DataOp)
        ensures
            r == DataOp::spec_from_index(n),
    {
        match n {
            0 => DataOp::And,
            1 => DataOp::Eor,
            2 => DataOp::Sub,
            3 => DataOp::Rsb,
            4 => DataOp::Add,
            5 => DataOp::Adc,
            6 => DataOp::Sbc,
            7 => DataOp::Rsc,
            8 => DataOp::Tst,
            9 => DataOp::Teq,
            10 => DataOp::Cmp,
            11 => DataOp::Cmn,
            12 => DataOp::Orr,
            13 => DataOp::Mov,
            14 => DataOp::Bic,
            _ => DataOp::Mvn,
        }
    }

    /// Whether this operation only compares.
    pub fn is_test(self) -> (r: bool)
        ensures
            r == self.spec_is_test(),
    {
        match self {
            DataOp::Tst | DataOp::Teq | DataOp::Cmp | DataOp::Cmn => true,
            _ => false,
        }
    }

    /// Every operation is the operation of its own code.
    pub proof fn lemma_index_round_trip(self)
        ensures
            DataOp::spec_from_index(self.spec_index()) == self,
            self.spec_index() < 16,
    {
    }
}

/// The ways to shift the second operand of a data-processing instruction.
#[derive(Debug, Clone, Copy, PartialEq, Eq, Hash, Structural)]
pub enum ShiftType {
    /// Arithmetic left is the same as logical left.
    LogicalLeft,
    LogicalRight,
    ArithmeticRight,
    RotateRight,
    /// Rotate right by one bit position the 33-bit quantity obtained
    /// by appending the CPSR carry flag to the most significant end
    /// of the argument. The canonical shift amount is 1.
    RotateRightExtended,
}

impl ShiftType {
    /// The two-bit code of this shift type in an instruction word.
    /// `RotateRightExtended` shares the code of `RotateRight`.
    pub open spec fn spec_index(self) -> u32 {
        match self {
            ShiftType::LogicalLeft => 0,
            ShiftType::LogicalRight => 1,
            ShiftType::ArithmeticRight => 2,
            ShiftType::RotateRight => 3,
            ShiftType::RotateRightExtended => 3,
        }
    }

    /// The shift type with the given two-bit code; codes above 3 are read as
    /// `RotateRight`.
    pub open spec fn spec_from_index(n: u32) -> ShiftType {
        match n {
            0 => ShiftType::LogicalLeft,
            1 => ShiftType::LogicalRight,
            2 => ShiftType::ArithmeticRight,
            _ => ShiftType::RotateRight,
        }
    }

    /// The two-bit code of this shift type in an instruction word.
    pub fn index(self) -> (r: u32)
        ensures
            r == self.spec_index(),
            r < 4,
    {
        match self {
            ShiftType::LogicalLeft => 0,
            ShiftType::LogicalRight => 1,
            ShiftType::ArithmeticRight => 2,
            ShiftType::RotateRight => 3,
            ShiftType::RotateRightExtended => 3,
        }
    }

    /// The shift type with the given two-bit code.
    pub fn from_index(n: u32) -> (r: ShiftType)
        ensures
            r == ShiftType::spec_from_index(n),
    {
        match n {
            0 => ShiftType::LogicalLeft,
            1 => ShiftType::LogicalRight,
            2 => ShiftType::ArithmeticRight,
            _ => ShiftType::RotateRight,
        }
    }
}

/// By how much to shift.
#[derive(Debug, Clone, Copy, PartialEq, Eq, Hash, Structural)]
pub enum ShiftAmount {
    /// Shift by the given 5-bit unsigned integer.
    Constant(u8),
    /// Shift by the amount specified in the bottom byte of the given register.
    Register(Register),
}

/// A shift applied to a register operand.
#[derive(Debug, Clone, Copy, PartialEq, Eq, Hash, Structural)]
pub struct Shift {
    pub shift_type: ShiftType,
    pub shift_amount: ShiftAmount,
}

impl Shift {
    /// The shift that leaves its operand unchanged: `LSL #0`.
    pub open spec fn spec_none() -> Shift {
        Shift { shift_type: ShiftType::LogicalLeft, shift_amount: ShiftAmount::Constant(0) }
    }

    /// The shift that leaves its operand unchanged: `LSL #0`.
    pub fn none() -> (r: Shift)
        ensures
            r == Shift::spec_none(),
    {
        Shift { shift_type: ShiftType::LogicalLeft, shift_amount: ShiftAmount::Constant(0) }
    }

    /// Whether an instruction word can hold this shift and give it back
    /// unchanged: `LSL` by 0 to 31, `LSR` and `ASR` by 1 to 32, `ROR` by 1 to
    /// 31, `RRX` with its canonical amount 1, or any type but `RRX` by a
    /// register.
    pub open spec fn spec_representable(self) -> bool {
        match self.shift_amount {
            ShiftAmount::Constant(n) => match self.shift_type {
                ShiftType::LogicalLeft => n < 32,
                ShiftType::LogicalRight => 1 <= n <= 32,
                ShiftType::ArithmeticRight => 1 <= n <= 32,
                ShiftType::RotateRight => 1 <= n < 32,
                ShiftType::RotateRightExtended => n == 1,
            },
            ShiftAmount::Register(_) => self.shift_type != ShiftType::RotateRightExtended,
        }
    }
}

/// A 32-bit value encoded as a bit-rotated 8-bit value.
#[derive(Debug, Clone, Copy, PartialEq, Eq, Structural)]
pub struct RotatedConstant {
    pub immediate: u8,
    /// `immediate` is rotated right by twice this value, which is below 16.
    pub half_rotate: u8,
}

impl RotatedConstant {
    /// Whether the half-rotate fits its four bits.
    pub open spec fn spec_wf(self) -> bool {
        self.half_rotate < 16
    }

    /// The 32-bit value that this constant stands for.
    pub open spec fn spec_value(self) -> u32 {
        ror32(self.immediate as u32, (self.half_rotate as u32 * 2) as u32)
    }

    /// Whether some 8-bit immediate, rotated right by an even amount, gives
    /// `value`.
    pub open spec fn spec_encodable(value: u32) -> bool {
        exists|immediate: u8, half_rotate: u8|
            half_rotate < 16 && #[trigger] (RotatedConstant {
                immediate,
                half_rotate,
            }).spec_value() == value
    }

    /// Whether rotating `value` left by twice `half_rotate` brings it into
    /// the low eight bits.
    pub open spec fn spec_fits_at(value: u32, half_rotate: u32) -> bool {
        rol32(value, (half_rotate * 2) as u32) <= 0xFF
    }

    /// The least half-rotate from `from` up to 15 under which `value` fits
    /// in eight bits, or 16 if there is none.
    pub open spec fn spec_first_fit(value: u32, from: u32) -> u32
        decreases 16 - from,
    {
        if from >= 16 {
            16
        } else if Self::spec_fits_at(value, from) {
            from
        } else {
            Self::spec_first_fit(value, (from + 1) as u32)
        }
    }

    /// The encoding of `value` with the least half-rotate, if it has one.
    pub open spec fn spec_encode(value: u32) -> Option<RotatedConstant> {
        let h = Self::spec_first_fit(value, 0);
        if h < 16 {
            Some(
                RotatedConstant {
                    immediate: rol32(value, (h * 2) as u32) as u8,
                    half_rotate: h as u8,
                },
            )
        } else {
            None
        }
    }

    /// Attempts to encode a 32-bit value in only 12 bits: an 8-bit immediate
    /// and a 4-bit half-rotate. Of the encodings that exist, the one with the
    /// least rotation is returned.
    pub fn encode(value: u32) -> (r: Option<Self>)
        ensures
            r == Self::spec_encode(value),
            r is Some <==> Self::spec_encodable(value),
            r is Some ==> r.unwrap().spec_wf() && r.unwrap().spec_value() == value,
    {
        let mut half_rotate: u32 = 0;
        while half_rotate < 16
            invariant
                half_rotate <= 16,
                Self::spec_first_fit(value, 0) == Self::spec_first_fit(value, half_rotate),
                forall|h: u32| h < half_rotate ==> !Self::spec_fits_at(value, h),
            decreases 16 - half_rotate,
        {
            let immediate = rotate_left(value, half_rotate * 2);
            if immediate <= 0xFF {
                let r = RotatedConstant {
                    immediate: immediate as u8,
                    half_rotate: half_rotate as u8,
                };
                proof {
                    lemma_rotate_inverse(value, (half_rotate * 2) as u32);
                    assert(r.spec_value() == value);
                }
                return Some(r);
            }
            half_rotate += 1;
        }
        proof {
            assert forall|immediate: u8, h: u8| h < 16 implies #[trigger] (RotatedConstant {
                immediate,
                half_rotate: h,
            }).spec_value() != value by {
                lemma_rotate_inverse(immediate as u32, (h as u32 * 2) as u32);
                assert(!Self::spec_fits_at(value, h as u32));
            }
        }
        None
    }

    /// Returns the result of evaluating this constant,
    /// as well as the barrel shifter's carry out: bit 31 of the result.
    pub fn value(self) -> (r: (u32, bool))
        ensures
            r.0 == self.spec_value(),
            r.1 == (r.0 >= 0x8000_0000u32),
    {
        let result = rotate_right(self.immediate as u32, self.half_rotate as u32 * 2);
        (result, result >= 0x8000_0000)
    }

    /// A constant stands for the immediate rotated right by twice the
    /// half-rotate, and a value has an encoding exactly if some such pair
    /// gives it; the encoding found stands for the value.
    pub proof fn lemma_encode_sound(value: u32)
        ensures
            Self::spec_encode(value) is Some <==> Self::spec_encodable(value),
            Self::spec_encode(value) is Some ==> Self::spec_encode(value).unwrap().spec_value()
                == value && Self::spec_encode(value).unwrap().spec_wf(),
    {
        Self::lemma_first_fit(value, 0);
        let h = Self::spec_first_fit(value, 0);
        if h < 16 {
            lemma_rotate_inverse(value, (h * 2) as u32);
            let r = Self::spec_encode(value).unwrap();
            assert(r.spec_value() == value);
        } else {
            assert forall|immediate: u8, k: u8| k < 16 implies #[trigger] (RotatedConstant {
                immediate,
                half_rotate: k,
            }).spec_value() != value by {
                lemma_rotate_inverse(immediate as u32, (k as u32 * 2) as u32);
                assert(!Self::spec_fits_at(value, k as u32));
            }
        }
    }

    /// What `spec_first_fit` finds: a half-rotate that fits and below which
    /// none does, or 16 where none from `from` on fits.
    pub proof fn lemma_first_fit(value: u32, from: u32)
        requires
            from <= 16,
        ensures
            from <= Self::spec_first_fit(value, from) <= 16,
            Self::spec_first_fit(value, from) < 16 ==> Self::spec_fits_at(
                value,
                Self::spec_first_fit(value, from),
            ),
            forall|h: u32|
                from <= h < Self::spec_first_fit(value, from) ==> !Self::spec_fits_at(value, h),
        decreases 16 - from,
    {
        if from < 16 && !Self::spec_fits_at(value, from) {
            Self::lemma_first_fit(value, (from + 1) as u32);
        }
    }
}

/// The second operand used in a data-processing instruction.
#[derive(Debug, Clone, Copy, PartialEq, Eq, Structural)]
pub enum DataOperand {
    /// The second operand is a constant value.
    /// Not all 32-bit constants can be represented in this way.
    Constant(RotatedConstant),
    /// The second operand is contained in a register,
    /// possibly shifted in some way.
    Register(Register, Shift),
}

impl DataOperand {
    /// Whether the operand is a register shifted by an amount held in a
    /// register.
    pub open spec fn spec_is_register_specified_shift(self) -> bool {
        self matches DataOperand::Register(_, shift) && shift.shift_amount is Register
    }

    /// Whether the operand is a register shifted by an amount held in a
    /// register.
    pub fn is_register_specified_shift(self) -> (r: bool)
        ensures
            r == self.spec_is_register_specified_shift(),
    {
        match self {
            DataOperand::Register(_, shift) => match shift.shift_amount {
                ShiftAmount::Register(_) => true,
                ShiftAmount::Constant(_) => false,
            },
            DataOperand::Constant(_) => false,
        }
    }

    /// Whether an instruction word can hold this operand and give it back
    /// unchanged.
    pub open spec fn spec_representable(self) -> bool {
        match self {
            DataOperand::Constant(c) => c.spec_wf(),
            DataOperand::Register(_, shift) => shift.spec_representable(),
        }
    }
}

/// The last operand used in a single transfer instruction.
#[derive(Debug, Clone, Copy, PartialEq, Eq, Structural)]
pub enum TransferOperand {
    /// The operand is a constant 12-bit value.
    Constant(u16),
    /// The operand is contained in a register.
    /// Register-specified shifts are not allowed.
    Register(Register, Shift),
}

impl TransferOperand {
    /// Whether an instruction word can hold this operand and give it back
    /// unchanged: a constant below 4096, or a register shifted by a constant.
    pub open spec fn spec_representable(self) -> bool {
        match self {
            TransferOperand::Constant(c) => c < 4096,
            TransferOperand::Register(_, shift) => shift.shift_amount is Constant
                && shift.spec_representable(),
        }
    }
}

/// The last operand used in a special single transfer instruction.
#[derive(Debug, Clone, Copy, PartialEq, Eq, Structural)]
pub enum SpecialOperand {
    /// The operand is a constant 8-bit value.
    Constant(u8),
    /// The operand is contained in a register.
    Register(Register),
}

/// The source to transfer into a PSR.
#[derive(Debug, Clone, Copy, PartialEq, Eq, Hash, Structural)]
pub enum MsrSource {
    /// Transfer entirely from a register.
    Register(Register),
    /// Transfer only the flag bits from a register.
    RegisterFlags(Register),
    /// Transfer the flag bits of the given 32-bit value.
    Flags(u32),
}

/// Whether a data transfer is a store (0) or a load (1).
#[derive(Debug, Clone, Copy, PartialEq, Eq, PartialOrd, Ord, Hash, Structural)]
pub enum TransferKind {
    Store,
    Load,
}

/// How much data is to be transferred by a transfer instruction.
#[derive(Debug, Clone, Copy, PartialEq, Eq, Hash, Structural)]
pub enum TransferSize {
    Byte,
    Word,
}

/// How much data is to be transferred by a special transfer instruction.
#[derive(Debug, Clone, Copy, PartialEq, Eq, Hash, Structural)]
pub enum TransferSizeSpecial {
    HalfWord,
    SignExtendedByte,
    SignExtendedHalfWord,
}

/// Program status register.
#[derive(Debug, Clone, Copy, PartialEq, Eq, Structural)]
pub enum Psr {
    Cpsr,
    Spsr,
}

/// The instructions implemented in hardware in ARM7TDMI.
/// - This type is used for conversion to and from a u32 representation,
///   not for use in the front end of an assembler.
/// - This does not include virtual instructions such as `NOP` and `ADR(L)`.
/// - This does not include conditions.
/// - These instructions may include unencodable operations, such as data
///   manipulation calls with unencodable constants.
///
/// Coprocessor operations are not supported.
#[allow(inconsistent_fields)]
#[derive(Debug, Clone, Copy, PartialEq, Eq)]
pub enum Instr {
    /// Branch and Exchange (BX).
    ///
    /// Performs a branch by copying the contents of a register into the program counter.
    BranchExchange { operand: Register },
    /// Branch (B), and Branch with Link (BL).
    ///
    /// Sets the program counter to the given offset from the PC.
    /// The offset is in bytes, a multiple of four, and is encoded as a
    /// two's-complement 24-bit number of words.
    /// Due to instruction pipelining, when this instruction is executed,
    /// the PC is already two instructions ahead.
    ///
    /// If the link flag is set, this also writes the program counter corresponding
    /// to the immediately following instruction into the link register `LR`.
    Branch { link: bool, offset: i32 },
    /// General data-processing instructions
    /// (AND, EOR, SUB, RSB, ADD, ADC, SBC, RSC, TST, TEQ, CMP, CMN, ORR, MOV, BIC, MVN).
    Data {
        /// Whether the condition codes should be set after executing this instruction.
        set_condition_codes: bool,
        op: DataOp,
        dest: Register,
        op1: Register,
        /// The second operand can either be a constant or a register,
        /// possibly bit-shifted left or right in some way.
        op2: DataOperand,
    },
    /// Move to Register from Status (MRS).
    Mrs {
        /// Where to transfer from.
        psr: Psr,
        target: Register,
    },
    /// Move to Status from Register (MSR).
    Msr {
        /// Where to transfer to.
        psr: Psr,
        source: MsrSource,
    },
    /// Multiply (MUL) and Multiply-Accumulate (MLA).
    Multiply {
        /// Whether the condition codes should be set after executing this instruction.
        set_condition_codes: bool,
        dest: Register,
        op1: Register,
        op2: Register,
        /// If this is set, this is a Multiply-Accumulate (MLA) instruction,
        /// and the contents of this register are added to the product of
        /// op1 with op2.
        addend: Option<Register>,
    },
    /// Multiply Long (MULL) and Multiply-Accumuate Long (MLAL).
    MultiplyLong {
        /// Whether the condition codes should be set after executing this instruction.
        set_condition_codes: bool,
        /// Whether to treat all operands as signed 32-bit values and
        /// the result as a signed 64-bit value; otherwise we treat the operands
        /// as unsigned 32-bit values and the result as an unsigned 64-bit value.
        signed: bool,
        /// If this is true, we additionally treat the destination as a 64-bit
        /// operand to be added to the result.
        accumulate: bool,
        /// The high (most significant) 32 bits of the result.
        dest_hi: Register,
        /// The low (least significant) 32 bits of the result.
        dest_lo: Register,
        op1: Register,
        op2: Register,
    },
    /// Single Data Transfer (LDR, STR).
    SingleTransfer {
        kind: TransferKind,
        size: TransferSize,
        /// If this is true, the computed address is
        /// written back into the base register.
        write_back: bool,
        /// If this is true, the offset is considered to be positive.
        /// Otherwise, it is considered to be negative.
        offset_positive: bool,
        /// If this is true, the offset is added before the transfer.
        pre_index: bool,
        /// The register to read from or write to (depending on the transfer kind).
        data_register: Register,
        /// The base register to use for computing the memory location to use.
        base_register: Register,
        /// The offset to use for this instruction.
        offset: TransferOperand,
    },
    /// Single Data Transfer Special (LDRH, LDRSB, LDRSH, STRH).
    SingleTransferSpecial {
        kind: TransferKind,
        /// Sign-extended transfers are only valid in loads.
        size: TransferSizeSpecial,
        /// If this is true, the computed address is
        /// written back into the base register.
        write_back: bool,
        /// If this is true, the offset is considered to be positive.
        /// Otherwise, it is considered to be negative.
        offset_positive: bool,
        /// If this is true, the offset is added before the transfer.
        pre_index: bool,
        /// The register to read from or write to (depending on the transfer kind).
        data_register: Register,
        /// The base register to use for computing the memory location to use.
        base_register: Register,
        /// The offset to use for this instruction.
        offset: SpecialOperand,
    },
    /// Block Data Transfer (LDM, STM).
    BlockTransfer {
        kind: TransferKind,
        /// If this is true, the computed address is
        /// written back into the base register.
        write_back: bool,
        /// If this is true, the offset is considered to be positive.
        /// Otherwise, it is considered to be negative.
        offset_positive: bool,
        /// If this is true, the offset is added before the transfer.
        pre_index: bool,
        /// If this is true, load the PSR or force user mode.
        psr: bool,
        /// The base register to use for computing the memory location to use.
        base_register: Register,
        /// A bit field corresponding to the set of registers to use.
        registers: u16,
    },
    /// Single Data Swap (SWP).
    Swap {
        /// If this is true, only swap a byte; otherwise, swap a word.
        byte: bool,
        dest: Register,
        source: Register,
        base: Register,
    },
    /// Software Interrupt (SWI).
    SoftwareInterrupt {
        /// The 24-bit payload to pass to the software interrupt handler.
        comment: u32,
    },
}

} // verus!
