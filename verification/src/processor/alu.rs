//! The arithmetic of the data-processing instructions, and their flags.

use vstd::prelude::*;
use crate::instr::bits::complement;
use crate::instr::ty::DataOp;

verus! {

/// What the arithmetic-logic unit gives for one operation.
#[derive(Debug, Clone, Copy, PartialEq, Eq, Structural)]
pub struct AluResult {
    /// The 32-bit result.
    pub value: u32,
    /// The flags as they stand after the operation, if it sets them.
    pub negative: bool,
    pub zero: bool,
    pub carry: bool,
    pub overflow: bool,
}

/// The value of a word read as a two's-complement number.
pub open spec fn signed(x: u32) -> int {
    if x < 0x8000_0000 {
        x as int
    } else {
        x - 0x1_0000_0000
    }
}

/// A sum of two words and a carry-in, with its flags:
/// - the value is the sum modulo 2^32;
/// - N is bit 31 of the value, Z says that the value is zero;
/// - C is the unsigned carry out of bit 31;
/// - V says that the sum of the operands, read as signed numbers, does not
///   fit in 32 signed bits.
pub open spec fn add_with_carry(x: u32, y: u32, carry_in: bool) -> AluResult {
    let sum = x + y + (if carry_in { 1int } else { 0int });
    let signed_sum = signed(x) + signed(y) + (if carry_in { 1int } else { 0int });
    let value = (sum % 0x1_0000_0000) as u32;
    AluResult {
        value,
        negative: value >= 0x8000_0000,
        zero: value == 0,
        carry: sum >= 0x1_0000_0000,
        overflow: !(-0x8000_0000 <= signed_sum < 0x8000_0000),
    }
}

/// A logical result with its flags: N and Z from the value, C from the
/// barrel shifter, V as it was.
pub open spec fn logical_result(value: u32, shifter_carry: bool, overflow: bool) -> AluResult {
    AluResult {
        value,
        negative: value >= 0x8000_0000,
        zero: value == 0,
        carry: shifter_carry,
        overflow,
    }
}

/// What a data operation gives for its two operands.
/// A subtraction `a - b` is the sum `a + !b + 1`, so that its carry is set
/// exactly if no borrow occurs; with carry, the `1` is the C flag.
pub open spec fn alu(
    op: DataOp,
    op1: u32,
    op2: u32,
    shifter_carry: bool,
    carry_flag: bool,
    overflow_flag: bool,
) -> AluResult {
    match op {
        DataOp::And | DataOp::Tst => logical_result(op1 & op2, shifter_carry, overflow_flag),
        DataOp::Eor | DataOp::Teq => logical_result(op1 ^ op2, shifter_carry, overflow_flag),
        DataOp::Orr => logical_result(op1 | op2, shifter_carry, overflow_flag),
        DataOp::Mov => logical_result(op2, shifter_carry, overflow_flag),
        DataOp::Bic => logical_result(op1 & complement(op2), shifter_carry, overflow_flag),
        DataOp::Mvn => logical_result(complement(op2), shifter_carry, overflow_flag),
        DataOp::Sub | DataOp::Cmp => add_with_carry(op1, complement(op2), true),
        DataOp::Rsb => add_with_carry(op2, complement(op1), true),
        DataOp::Add | DataOp::Cmn => add_with_carry(op1, op2, false),
        DataOp::Adc => add_with_carry(op1, op2, carry_flag),
        DataOp::Sbc => add_with_carry(op1, complement(op2), carry_flag),
        DataOp::Rsc => add_with_carry(op2, complement(op1), carry_flag),
    }
}

/// Adds two words and a carry-in, and works out the flags.
pub fn compute_add_with_carry(x: u32, y: u32, carry_in: bool) -> (r: AluResult)
    ensures
        r == add_with_carry(x, y, carry_in),
{
    let sum: u64 = x as u64 + y as u64 + (if carry_in { 1u64 } else { 0u64 });
    let carry = sum >= 0x1_0000_0000;
    let value: u32 = if carry {
        (sum - 0x1_0000_0000) as u32
    } else {
        sum as u32
    };
    let x_negative = x >= 0x8000_0000;
    let y_negative = y >= 0x8000_0000;
    let negative = value >= 0x8000_0000;
    AluResult {
        value,
        negative,
        zero: value == 0,
        carry,
        // The operands have equal sign, and the result has the other.
        overflow: x_negative == y_negative && x_negative != negative,
    }
}

/// Computes a data operation and its flags.
pub fn compute_alu(
    op: DataOp,
    op1: u32,
    op2: u32,
    shifter_carry: bool,
    carry_flag: bool,
    overflow_flag: bool,
) -> (r: AluResult)
    ensures
        r == alu(op, op1, op2, shifter_carry, carry_flag, overflow_flag),
{
    match op {
        DataOp::And | DataOp::Tst => compute_logical(op1 & op2, shifter_carry, overflow_flag),
        DataOp::Eor | DataOp::Teq => compute_logical(op1 ^ op2, shifter_carry, overflow_flag),
        DataOp::Orr => compute_logical(op1 | op2, shifter_carry, overflow_flag),
        DataOp::Mov => compute_logical(op2, shifter_carry, overflow_flag),
        DataOp::Bic => compute_logical(op1 & (0xFFFF_FFFF - op2), shifter_carry, overflow_flag),
        DataOp::Mvn => compute_logical(0xFFFF_FFFF - op2, shifter_carry, overflow_flag),
        DataOp::Sub | DataOp::Cmp => compute_add_with_carry(op1, 0xFFFF_FFFF - op2, true),
        DataOp::Rsb => compute_add_with_carry(op2, 0xFFFF_FFFF - op1, true),
        DataOp::Add | DataOp::Cmn => compute_add_with_carry(op1, op2, false),
        DataOp::Adc => compute_add_with_carry(op1, op2, carry_flag),
        DataOp::Sbc => compute_add_with_carry(op1, 0xFFFF_FFFF - op2, carry_flag),
        DataOp::Rsc => compute_add_with_carry(op2, 0xFFFF_FFFF - op1, carry_flag),
    }
}

/// Works out the flags of a logical result.
pub fn compute_logical(value: u32, shifter_carry: bool, overflow: bool) -> (r: AluResult)
    ensures
        r == logical_result(value, shifter_carry, overflow),
{
    AluResult { value, negative: value >= 0x8000_0000, zero: value == 0, carry: shifter_carry, overflow }
}

/// The flags after comparing `a` with `b` tell how the two stand:
/// Z is set exactly if they are equal, C is clear exactly if `a` is below
/// `b` as unsigned numbers, and N differs from V exactly if `a` is below `b`
/// as signed numbers.
pub proof fn lemma_compare_flags(a: u32, b: u32, shifter_carry: bool, c: bool, v: bool)
    ensures
        alu(DataOp::Cmp, a, b, shifter_carry, c, v).zero <==> a == b,
        !alu(DataOp::Cmp, a, b, shifter_carry, c, v).carry <==> a < b,
        alu(DataOp::Cmp, a, b, shifter_carry, c, v).negative != alu(
            DataOp::Cmp,
            a,
            b,
            shifter_carry,
            c,
            v,
        ).overflow <==> signed(a) < signed(b),
        alu(DataOp::Cmp, a, b, shifter_carry, c, v).value as int == (a - b) % 0x1_0000_0000,
{
}

/// A subtraction gives the difference modulo 2^32, and an addition the sum.
pub proof fn lemma_add_sub_values(a: u32, b: u32, shifter_carry: bool, c: bool, v: bool)
    ensures
        alu(DataOp::Sub, a, b, shifter_carry, c, v).value as int == (a - b) % 0x1_0000_0000,
        alu(DataOp::Rsb, a, b, shifter_carry, c, v).value as int == (b - a) % 0x1_0000_0000,
        alu(DataOp::Add, a, b, shifter_carry, c, v).value as int == (a + b) % 0x1_0000_0000,
{
}

} // verus!
