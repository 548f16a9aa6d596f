//! Healing: building constants that no immediate operand can hold.

use vstd::prelude::*;
use crate::instr::bits::complement;
use crate::instr::bits::field;
use crate::instr::bits::pow2;
use crate::instr::ty::DataOp;
use crate::instr::ty::DataOperand;
use crate::instr::ty::Instr;
use crate::instr::ty::Register;
use crate::instr::ty::RotatedConstant;

verus! {

/// How the assembler repairs an immediate that is out of range.
#[derive(Debug, Clone, Copy, PartialEq, Eq, Structural)]
pub enum HealStrategy {
    /// Not at all: the line is in error.
    Off,
    /// Without extra instructions: only immediates that can be represented
    /// are accepted.
    Simple,
    /// An advanced healing strategy that builds the constant in a scratch
    /// register with extra instructions.
    Advanced(Register),
}

/// The least even bit position from `from` on at which `value` has a set
/// bit in the two bits that start there; 32 if there is none.
pub open spec fn lowest_even_position(value: u32, from: u32) -> u32
    decreases 34 - from,
{
    if from >= 32 {
        32
    } else if field(value, from, 2) != 0 {
        from
    } else {
        lowest_even_position(value, (from + 2) as u32)
    }
}

/// `value` without the eight bits that start at `position`.
pub open spec fn without_byte_at(value: u32, position: u32) -> u32 {
    (value - field(value, position, 8) * pow2(position)) as u32
}

/// The rotated constant that stands for the eight bits of `value` that
/// start at the even position `position`, in their place.
pub open spec fn byte_at(value: u32, position: u32) -> RotatedConstant {
    RotatedConstant {
        immediate: field(value, position, 8) as u8,
        half_rotate: (((32 - position) / 2) % 16) as u8,
    }
}

/// The instruction that puts a constant into a register with `op`.
pub open spec fn load_constant(op: DataOp, register: Register, constant: RotatedConstant)
    -> Instr {
    Instr::Data {
        set_condition_codes: false,
        op,
        dest: register,
        op1: if op == DataOp::Orr {
            register
        } else {
            Register::R0
        },
        op2: DataOperand::Constant(constant),
    }
}

/// What the operations on bits read and clear at an even position, in
/// arithmetic, for each position.
proof fn lemma_position_cases(value: u32, position: u32)
    by (bit_vector)
    requires
        position < 32,
    ensures
        position == 0 ==> (value >> position) & 3 == (value / 0x1u32) % 4 && (value >> position) & 0xFF
            == (value / 0x1u32) % 0x100 && (value & !(0xFFu32 << position)) as u64 + (((value
            / 0x1u32) % 0x100) as u64 * 0x1u64) as u64 == value as u64,
        position == 2 ==> (value >> position) & 3 == (value / 0x4u32) % 4 && (value >> position) & 0xFF
            == (value / 0x4u32) % 0x100 && (value & !(0xFFu32 << position)) as u64 + (((value
            / 0x4u32) % 0x100) as u64 * 0x4u64) as u64 == value as u64,
        position == 4 ==> (value >> position) & 3 == (value / 0x10u32) % 4 && (value >> position) & 0xFF
            == (value / 0x10u32) % 0x100 && (value & !(0xFFu32 << position)) as u64 + (((value
            / 0x10u32) % 0x100) as u64 * 0x10u64) as u64 == value as u64,
        position == 6 ==> (value >> position) & 3 == (value / 0x40u32) % 4 && (value >> position) & 0xFF
            == (value / 0x40u32) % 0x100 && (value & !(0xFFu32 << position)) as u64 + (((value
            / 0x40u32) % 0x100) as u64 * 0x40u64) as u64 == value as u64,
        position == 8 ==> (value >> position) & 3 == (value / 0x100u32) % 4 && (value >> position) & 0xFF
            == (value / 0x100u32) % 0x100 && (value & !(0xFFu32 << position)) as u64 + (((value
            / 0x100u32) % 0x100) as u64 * 0x100u64) as u64 == value as u64,
        position == 10 ==> (value >> position) & 3 == (value / 0x400u32) % 4 && (value >> position) & 0xFF
            == (value / 0x400u32) % 0x100 && (value & !(0xFFu32 << position)) as u64 + (((value
            / 0x400u32) % 0x100) as u64 * 0x400u64) as u64 == value as u64,
        position == 12 ==> (value >> position) & 3 == (value / 0x1000u32) % 4 && (value >> position) & 0xFF
            == (value / 0x1000u32) % 0x100 && (value & !(0xFFu32 << position)) as u64 + (((value
            / 0x1000u32) % 0x100) as u64 * 0x1000u64) as u64 == value as u64,
        position == 14 ==> (value >> position) & 3 == (value / 0x4000u32) % 4 && (value >> position) & 0xFF
            == (value / 0x4000u32) % 0x100 && (value & !(0xFFu32 << position)) as u64 + (((value
            / 0x4000u32) % 0x100) as u64 * 0x4000u64) as u64 == value as u64,
        position == 16 ==> (value >> position) & 3 == (value / 0x10000u32) % 4 && (value >> position) & 0xFF
            == (value / 0x10000u32) % 0x100 && (value & !(0xFFu32 << position)) as u64 + (((value
            / 0x10000u32) % 0x100) as u64 * 0x10000u64) as u64 == value as u64,
        position == 18 ==> (value >> position) & 3 == (value / 0x40000u32) % 4 && (value >> position) & 0xFF
            == (value / 0x40000u32) % 0x100 && (value & !(0xFFu32 << position)) as u64 + (((value
            / 0x40000u32) % 0x100) as u64 * 0x40000u64) as u64 == value as u64,
        position == 20 ==> (value >> position) & 3 == (value / 0x100000u32) % 4 && (value >> position) & 0xFF
            == (value / 0x100000u32) % 0x100 && (value & !(0xFFu32 << position)) as u64 + (((value
            / 0x100000u32) % 0x100) as u64 * 0x100000u64) as u64 == value as u64,
        position == 22 ==> (value >> position) & 3 == (value / 0x400000u32) % 4 && (value >> position) & 0xFF
            == (value / 0x400000u32) % 0x100 && (value & !(0xFFu32 << position)) as u64 + (((value
            / 0x400000u32) % 0x100) as u64 * 0x400000u64) as u64 == value as u64,
        position == 24 ==> (value >> position) & 3 == (value / 0x1000000u32) % 4 && (value >> position) & 0xFF
            == (value / 0x1000000u32) % 0x100 && (value & !(0xFFu32 << position)) as u64 + (((value
            / 0x1000000u32) % 0x100) as u64 * 0x1000000u64) as u64 == value as u64,
        position == 26 ==> (value >> position) & 3 == (value / 0x4000000u32) % 4 && (value >> position) & 0xFF
            == (value / 0x4000000u32) % 0x100 && (value & !(0xFFu32 << position)) as u64 + (((value
            / 0x4000000u32) % 0x100) as u64 * 0x4000000u64) as u64 == value as u64,
        position == 28 ==> (value >> position) & 3 == (value / 0x10000000u32) % 4 && (value >> position) & 0xFF
            == (value / 0x10000000u32) % 0x100 && (value & !(0xFFu32 << position)) as u64 + (((value
            / 0x10000000u32) % 0x100) as u64 * 0x10000000u64) as u64 == value as u64,
        position == 30 ==> (value >> position) & 3 == (value / 0x40000000u32) % 4 && (value >> position) & 0xFF
            == (value / 0x40000000u32) % 0x100 && (value & !(0xFFu32 << position)) as u64 + (((value
            / 0x40000000u32) % 0x100) as u64 * 0x40000000u64) as u64 == value as u64,
{
}

/// The two bits and the byte at an even position, and the word without
/// that byte, by the operations on bits.
pub proof fn lemma_byte_bits(value: u32, position: u32)
    requires
        position < 32,
        position % 2 == 0,
    ensures
        field(value, position, 2) == (value >> position) & 3,
        field(value, position, 8) == (value >> position) & 0xFF,
        without_byte_at(value, position) == value & !(0xFFu32 << position),
{
    lemma_position_cases(value, position);
}

/// What a set bit of a word at an even position says about it: taking the
/// byte there away makes the word smaller, putting the byte back gives the
/// word again, and the byte rotated right by `rotation`, which turns it
/// round to `position`, is the byte in its place.
pub proof fn lemma_byte_split(value: u32, position: u32, rotation: u32)
    by (bit_vector)
    requires
        position < 32,
        rotation < 32,
        position == 0 ==> rotation == 0,
        position != 0 ==> rotation + position == 32,
        (value >> position) & 3 != 0,
    ensures
        value & !(0xFFu32 << position) < value,
        (value & !(0xFFu32 << position)) | (((value >> position) & 0xFF) << position) == value,
        (value >> position) & 0xFF <= 0xFF,
        crate::instr::bits::rotated((value >> position) & 0xFF, rotation) == ((value >> position)
            & 0xFF) << position,
{
}

/// The amount by which a byte is rotated right to stand at `position`.
pub open spec fn rotation_to(position: u32) -> u32 {
    ((32 - position) % 32) as u32
}

#[via_fn]
proof fn lemma_fill_decreases(value: u32, register: Register) {
    if RotatedConstant::spec_encode(value) is None && RotatedConstant::spec_encode(
        complement(value),
    ) is None {
        lemma_unencodable(value);
        lemma_lowest_byte(value);
    }
}

/// An unencodable value is not zero; a value that is not zero has a lowest
/// even position below 32, which is even and holds a set bit.
pub proof fn lemma_lowest_even_position(value: u32, from: u32)
    requires
        from % 2 == 0,
        value != 0,
        from <= 32,
        from == 0 || from == 32 || value >> from != 0,
    ensures
        from < 32 ==> from <= lowest_even_position(value, from) < 32,
        lowest_even_position(value, from) % 2 == 0,
        lowest_even_position(value, from) < 32 ==> (value >> lowest_even_position(value, from))
            & 3 != 0,
    decreases 34 - from,
{
    if from < 32 {
        lemma_byte_bits(value, from);
    }
    if from < 32 && (value >> from) & 3 == 0 {
        assert(from < 30 && value >> ((from + 2) as u32) != 0) by (bit_vector)
            requires
                from < 32,
                from % 2 == 0,
                value != 0,
                from == 0 || value >> from != 0,
                (value >> from) & 3 == 0,
        ;
        lemma_lowest_even_position(value, (from + 2) as u32);
    }
}

/// What the byte at the lowest even position of a word that is not zero
/// is: taking it away makes the word smaller, and the word is what is left
/// with the bits of the byte, as a rotated constant, set again.
pub proof fn lemma_lowest_byte(value: u32)
    requires
        value != 0,
    ensures
        lowest_even_position(value, 0) < 32,
        lowest_even_position(value, 0) % 2 == 0,
        without_byte_at(value, lowest_even_position(value, 0)) < value,
        without_byte_at(value, lowest_even_position(value, 0)) == value & !(0xFFu32
            << lowest_even_position(value, 0)),
        byte_at(value, lowest_even_position(value, 0)).immediate == (value
            >> lowest_even_position(value, 0)) & 0xFF,
        byte_at(value, lowest_even_position(value, 0)).spec_wf(),
        without_byte_at(value, lowest_even_position(value, 0)) | byte_at(
            value,
            lowest_even_position(value, 0),
        ).spec_value() == value,
{
    lemma_lowest_even_position(value, 0);
    let position = lowest_even_position(value, 0);
    lemma_byte_bits(value, position);
    lemma_byte_split(value, position, rotation_to(position));
    let byte = (value >> position) & 0xFF;
    let constant = byte_at(value, position);
    assert(constant.immediate == byte);
    assert((constant.half_rotate * 2) as u32 == rotation_to(position));
    crate::instr::bits::lemma_rotated(byte, rotation_to(position));
    assert(constant.spec_value() == byte << position);
}

/// A word that has no encoding as a rotated constant is not zero.
pub proof fn lemma_unencodable(value: u32)
    requires
        RotatedConstant::spec_encode(value) is None,
    ensures
        value != 0,
{
    if value == 0 {
        assert(RotatedConstant::spec_fits_at(0, 0));
        RotatedConstant::lemma_first_fit(0, 0);
    }
}

/// The instructions that fill a register with a value:
/// - one `MOV` if the value can be encoded as a rotated constant;
/// - else one `MVN` if its complement can;
/// - else the instructions that fill the register with the value less its
///   lowest byte, taken at an even bit position, and an `ORR` that puts
///   that byte in.
pub open spec fn spec_fill_register(value: u32, register: Register) -> Seq<Instr>
    decreases value,
    via lemma_fill_decreases
{
    if RotatedConstant::spec_encode(value) is Some {
        seq![load_constant(DataOp::Mov, register, RotatedConstant::spec_encode(value).unwrap())]
    } else if RotatedConstant::spec_encode(complement(value)) is Some {
        seq![
            load_constant(
                DataOp::Mvn,
                register,
                RotatedConstant::spec_encode(complement(value)).unwrap(),
            ),
        ]
    } else {
        let position = lowest_even_position(value, 0);
        spec_fill_register(without_byte_at(value, position), register).push(
            load_constant(DataOp::Orr, register, byte_at(value, position)),
        )
    }
}

/// What a `MOV`, `MVN` or `ORR` with a constant leaves in its register,
/// which held `before`: the constant, its complement, or `before` with the
/// bits of the constant set. Other instructions leave `before`.
pub open spec fn constant_effect(instr: Instr, before: u32) -> u32 {
    match instr {
        Instr::Data { op, op2: DataOperand::Constant(constant), .. } => if op == DataOp::Mov {
            constant.spec_value()
        } else if op == DataOp::Mvn {
            complement(constant.spec_value())
        } else if op == DataOp::Orr {
            before | constant.spec_value()
        } else {
            before
        },
        _ => before,
    }
}

/// What a sequence of `MOV`, `MVN` and `ORR` with constants leaves in
/// their register, starting from `start`.
pub open spec fn filled_value(instrs: Seq<Instr>, start: u32) -> u32
    decreases instrs.len(),
{
    if instrs.len() == 0 {
        start
    } else {
        constant_effect(instrs.last(), filled_value(instrs.drop_last(), start))
    }
}

/// Whether an instruction is one of healing: a `MOV`, `MVN` or `ORR` of a
/// well-formed constant into `register` that leaves the flags alone, the
/// `ORR` onto the register itself.
pub open spec fn is_fill_instr(instr: Instr, register: Register) -> bool {
    match instr {
        Instr::Data { set_condition_codes, op, dest, op1, op2 } => !set_condition_codes && dest
            == register && (op == DataOp::Mov || op == DataOp::Mvn || (op == DataOp::Orr && op1
            == register)) && (op2 matches DataOperand::Constant(c) && c.spec_wf()),
        _ => false,
    }
}

/// Healing is sound: the instructions of `spec_fill_register` leave the
/// value in the register whatever it held, there is at least one, and each
/// is a `MOV`, `MVN` or `ORR` of a constant that can be encoded.
#[verifier::rlimit(100)]
pub proof fn lemma_fill_register_sound(value: u32, register: Register, start: u32)
    ensures
        filled_value(spec_fill_register(value, register), start) == value,
        spec_fill_register(value, register).len() >= 1,
        forall|i: int|
            0 <= i < spec_fill_register(value, register).len() ==> is_fill_instr(
                #[trigger] spec_fill_register(value, register)[i],
                register,
            ) && spec_fill_register(value, register)[i].spec_representable(),
    decreases value,
{
    let instrs = spec_fill_register(value, register);
    RotatedConstant::lemma_encode_sound(value);
    RotatedConstant::lemma_encode_sound(complement(value));
    if RotatedConstant::spec_encode(value) is Some {
        assert(instrs.drop_last() =~= Seq::<Instr>::empty());
    } else if RotatedConstant::spec_encode(complement(value)) is Some {
        assert(instrs.drop_last() =~= Seq::<Instr>::empty());
    } else {
        lemma_unencodable(value);
        lemma_lowest_byte(value);
        let position = lowest_even_position(value, 0);
        let rest = without_byte_at(value, position);
        lemma_fill_register_sound(rest, register, start);
        assert(instrs.drop_last() =~= spec_fill_register(rest, register));
    }
}

/// Finds the lowest even bit position at which a value has a set bit.
fn find_lowest_even_position(value: u32) -> (r: u32)
    requires
        value != 0,
    ensures
        r == lowest_even_position(value, 0),
        r < 32,
        r % 2 == 0,
        (value >> r) & 3 != 0,
{
    proof {
        lemma_lowest_even_position(value, 0);
    }
    let mut position: u32 = 0;
    while position < 30 && (value >> position) & 3 == 0
        invariant
            position <= 30,
            position % 2 == 0,
            lowest_even_position(value, position) == lowest_even_position(value, 0),
            lowest_even_position(value, 0) < 32,
        decreases 32 - position,
    {
        proof {
            lemma_byte_bits(value, position);
        }
        position += 2;
    }
    proof {
        lemma_byte_bits(value, position);
        if (value >> position) & 3 == 0 {
            assert(lowest_even_position(value, 32) == 32);
        }
    }
    position
}

/// Return instructions that fill the given register with the prescribed value,
/// using all healing strategies.
#[must_use]
pub fn fill_register(value: u32, register: Register) -> (r: Vec<Instr>)
    ensures
        r@ == spec_fill_register(value, register),
    decreases value,
{
    // Try a direct move strategy first.
    match RotatedConstant::encode(value) {
        Some(constant) => {
            let mut instrs = Vec::new();
            instrs.push(
                Instr::Data {
                    set_condition_codes: false,
                    op: DataOp::Mov,
                    dest: register,
                    op1: Register::R0,
                    op2: DataOperand::Constant(constant),
                },
            );
            assert(instrs@ =~= spec_fill_register(value, register));
            return instrs;
        },
        None => {},
    }
    proof {
        crate::instr::bits::lemma_complement(value);
    }
    // Try a negated move next.
    match RotatedConstant::encode(!value) {
        Some(constant) => {
            let mut instrs = Vec::new();
            instrs.push(
                Instr::Data {
                    set_condition_codes: false,
                    op: DataOp::Mvn,
                    dest: register,
                    op1: Register::R0,
                    op2: DataOperand::Constant(constant),
                },
            );
            assert(instrs@ =~= spec_fill_register(value, register));
            return instrs;
        },
        None => {},
    }
    proof {
        lemma_unencodable(value);
        lemma_lowest_byte(value);
    }
    // Slice off the lowest byte, taken at an even position, and try again.
    let position = find_lowest_even_position(value);
    let byte = RotatedConstant {
        immediate: ((value >> position) & 0xFF) as u8,
        half_rotate: (((32 - position) / 2) % 16) as u8,
    };
    assert(byte == byte_at(value, position));
    let mut instrs = fill_register(value & !(0xFFu32 << position), register);
    // Now do `orr Rd, Rd, (extra)` to fill the remaining bits.
    instrs.push(
        Instr::Data {
            set_condition_codes: false,
            op: DataOp::Orr,
            dest: register,
            op1: register,
            op2: DataOperand::Constant(byte),
        },
    );
    instrs
}

} // verus!
