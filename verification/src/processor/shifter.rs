//! The barrel shifter.

use vstd::prelude::*;
use crate::instr::bits::bit_is_set;
use crate::instr::bits::ror32;
use crate::instr::bits::rotate_right;
use crate::instr::bits::shift_left;
use crate::instr::bits::shift_right;
use crate::instr::bits::shl32;
use crate::instr::bits::shr32;
use crate::instr::bits::test_bit;
use crate::instr::ty::ShiftType;

verus! {

/// `value` shifted right by `amount` (1 to 31) with its sign bit copied
/// into the bits that open up.
pub open spec fn arithmetic_shift_right(value: u32, amount: u32) -> u32 {
    if value < 0x8000_0000 {
        shr32(value, amount)
    } else {
        (shr32(value, amount) + (0xFFFF_FFFF - shr32(0xFFFF_FFFF, amount))) as u32
    }
}

/// Shifts `value` right by `amount` (1 to 31) and keeps its sign.
pub fn compute_arithmetic_shift_right(value: u32, amount: u32) -> (r: u32)
    requires
        0 < amount < 32,
    ensures
        r == arithmetic_shift_right(value, amount),
{
    if value < 0x8000_0000 {
        shift_right(value, amount)
    } else {
        shift_right(value, amount) + (0xFFFF_FFFF - shift_right(0xFFFF_FFFF, amount))
    }
}

/// What the barrel shifter makes of a value: the result and the carry out.
///
/// - `RRX` rotates right by one bit through the carry: the carry flag comes
///   in as bit 31, and bit 0 goes out as the carry. The amount is ignored.
/// - Any other shift by 0 leaves the value and hands the carry flag on.
/// - `LSL` by 1 to 31 shifts left, the carry is the last bit shifted out,
///   bit `32 - amount`; by 32 the result is 0 and the carry bit 0; by more,
///   both are zero.
/// - `LSR` is the same to the right: the carry is bit `amount - 1`, by 32
///   bit 31.
/// - `ASR` by 1 to 31 shifts right and keeps the sign; by 32 or more every
///   bit of the result, and the carry, is the sign bit.
/// - `ROR` rotates right by the amount modulo 32; the carry is the last bit
///   rotated round, which for a multiple of 32 is bit 31.
pub open spec fn barrel_shift(value: u32, shift_type: ShiftType, amount: u8, carry_flag: bool) -> (
    u32,
    bool,
) {
    if shift_type == ShiftType::RotateRightExtended {
        (
            (shr32(value, 1) + (if carry_flag { 0x8000_0000int } else { 0 })) as u32,
            bit_is_set(value, 0),
        )
    } else if amount == 0 {
        (value, carry_flag)
    } else {
        match shift_type {
            ShiftType::LogicalLeft => if amount < 32 {
                (shl32(value, amount as u32), bit_is_set(value, (32 - amount) as u32))
            } else if amount == 32 {
                (0, bit_is_set(value, 0))
            } else {
                (0, false)
            },
            ShiftType::LogicalRight => if amount < 32 {
                (shr32(value, amount as u32), bit_is_set(value, (amount - 1) as u32))
            } else if amount == 32 {
                (0, bit_is_set(value, 31))
            } else {
                (0, false)
            },
            ShiftType::ArithmeticRight => if amount < 32 {
                (
                    arithmetic_shift_right(value, amount as u32),
                    bit_is_set(value, (amount - 1) as u32),
                )
            } else if value < 0x8000_0000 {
                (0, false)
            } else {
                (0xFFFF_FFFF, true)
            },
            _ => if amount % 32 == 0 {
                (value, bit_is_set(value, 31))
            } else {
                (ror32(value, amount as u32), bit_is_set(value, ((amount - 1) % 32) as u32))
            },
        }
    }
}

/// Perform the action of the barrel shifter.
/// The result is a u32 output together with a carry out bit.
pub fn compute_barrel_shift(value: u32, shift_type: ShiftType, amount: u8, carry_flag: bool) -> (r:
    (u32, bool))
    ensures
        r == barrel_shift(value, shift_type, amount, carry_flag),
{
    if shift_type == ShiftType::RotateRightExtended {
        let top: u32 = if carry_flag {
            0x8000_0000
        } else {
            0
        };
        return (shift_right(value, 1) + top, test_bit(value, 0));
    }
    if amount == 0 {
        // Special encodings such as LSR #0 have already been decoded into
        // their expanded forms.
        return (value, carry_flag);
    }
    let n: u32 = amount as u32;
    match shift_type {
        ShiftType::LogicalLeft => {
            if n < 32 {
                (shift_left(value, n), test_bit(value, 32 - n))
            } else if n == 32 {
                (0, test_bit(value, 0))
            } else {
                (0, false)
            }
        },
        ShiftType::LogicalRight => {
            if n < 32 {
                (shift_right(value, n), test_bit(value, n - 1))
            } else if n == 32 {
                (0, test_bit(value, 31))
            } else {
                (0, false)
            }
        },
        ShiftType::ArithmeticRight => {
            if n < 32 {
                (compute_arithmetic_shift_right(value, n), test_bit(value, n - 1))
            } else if value < 0x8000_0000 {
                (0, false)
            } else {
                (0xFFFF_FFFF, true)
            }
        },
        _ => {
            if n % 32 == 0 {
                (value, test_bit(value, 31))
            } else {
                (rotate_right(value, n), test_bit(value, (n - 1) % 32))
            }
        },
    }
}

} // verus!
