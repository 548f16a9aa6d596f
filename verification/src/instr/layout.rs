//! The bit layout of ARM instruction words: where each field lies, which
//! patterns tell the instruction classes apart, and the facts about both
//! that the encoder and the decoder rest on.
//!
//! Everything here works on plain integers, the lower 28 bits of an
//! instruction word; the four condition bits are dealt with separately.

use vstd::prelude::*;
use crate::instr::bits::bit_is_set;
use crate::instr::bits::field;
use crate::instr::bits::get_field;
use crate::instr::bits::pow2;
use crate::instr::bits::ror32;

verus! {

/// A word with only bit `bit` set if `b` holds, zero otherwise.
pub open spec fn flag_bit(b: bool, bit: u32) -> u32 {
    if b {
        pow2(bit) as u32
    } else {
        0
    }
}

/// A word with only bit `bit` set if `b` holds, zero otherwise.
pub fn flag(b: bool, bit: u32) -> (r: u32)
    requires
        bit < 32,
    ensures
        r == flag_bit(b, bit),
{
    if b {
        crate::instr::bits::set_bit(0, bit, true)
    } else {
        0
    }
}

/// The three bits that select the instruction class.
pub open spec fn class_bits(i: u32) -> u32 {
    field(i, 25, 3)
}

/// The fixed pattern of Branch and Exchange: the bits from bit 4 up.
pub open spec fn is_bx(i: u32) -> bool {
    field(i, 4, 28) == 0x012F_FF1u32
}

/// In the classes `000` and `001`: bit 25 clear and bits 7 and 4 both set.
/// No shifted-register operand looks like this, so the multiplies, the swap
/// and the special transfers live here.
pub open spec fn is_extension(i: u32) -> bool {
    !bit_is_set(i, 25) && bit_is_set(i, 7) && bit_is_set(i, 4)
}

/// Among the extension words: bits 6 and 5 both clear, which selects the
/// multiplies and the swap over the special transfers.
pub open spec fn is_multiply_family(i: u32) -> bool {
    field(i, 5, 2) == 0
}

/// The pattern of MRS, which reuses the encoding of a TST or CMP that would
/// not set the flags: bits 24 and 23 are `10`, bits 21 to 16 `001111`.
pub open spec fn is_mrs(i: u32) -> bool {
    field(i, 23, 2) == 2 && field(i, 16, 6) == 0x0F
}

/// The pattern of MSR to the flag bits only: bits 24 and 23 are `10`, bits
/// 21 to 12 `10 1000 1111`.
pub open spec fn is_msr_flags(i: u32) -> bool {
    field(i, 23, 2) == 2 && field(i, 12, 10) == 0x28F
}

/// The pattern of MSR from a register to the whole status register: bits
/// 24 and 23 are `10`, bits 21 and 20 `10`, bits 15 to 12 `1111`.
pub open spec fn is_msr_register(i: u32) -> bool {
    field(i, 23, 2) == 2 && field(i, 20, 2) == 2 && field(i, 12, 4) == 15
}

/// The word of Branch and Exchange to register number `rm`.
pub open spec fn enc_bx(rm: u32) -> u32 {
    (0x12F_FF10 + rm) as u32
}

/// The word of a branch whose 24-bit word offset is `offset_field`.
pub open spec fn enc_branch(link: bool, offset_field: u32) -> u32 {
    (0xA00_0000 + flag_bit(link, 24) + offset_field) as u32
}

/// The word of a data-processing instruction with the given 12-bit operand.
pub open spec fn enc_data(immediate: bool, op: u32, s: bool, rn: u32, rd: u32, operand: u32) -> u32 {
    (flag_bit(immediate, 25) + op * 0x20_0000 + flag_bit(s, 20) + rn * 0x1_0000 + rd * 0x1000 + operand) as u32
}

/// The operand bits of an 8-bit immediate rotated right by twice `rotate`.
pub open spec fn enc_rotated(rotate: u32, immediate: u32) -> u32 {
    (immediate + rotate * 0x100) as u32
}

/// The operand bits of register `rm` shifted by the constant `amount`.
pub open spec fn enc_shift_constant(rm: u32, ty: u32, amount: u32) -> u32 {
    (rm + amount * 0x80 + ty * 0x20) as u32
}

/// The operand bits of register `rm` shifted by the amount in register `rs`.
pub open spec fn enc_shift_register(rm: u32, ty: u32, rs: u32) -> u32 {
    (rm + rs * 0x100 + ty * 0x20 + 0x10) as u32
}

/// The word of MRS.
pub open spec fn enc_mrs(spsr: bool, rd: u32) -> u32 {
    (0x10F_0000 + flag_bit(spsr, 22) + rd * 0x1000) as u32
}

/// The word of MSR from a register, to the whole register or to its flags.
pub open spec fn enc_msr_register(spsr: bool, whole: bool, rm: u32) -> u32 {
    (0x128_F000 + flag_bit(spsr, 22) + flag_bit(whole, 16) + rm) as u32
}

/// The word of MSR of an immediate to the flags: the top four bits of the
/// value travel as a 4-bit immediate that is rotated right by four.
pub open spec fn enc_msr_immediate(spsr: bool, top: u32) -> u32 {
    (0x128_F000 + flag_bit(spsr, 22) + 0x200_0200 + top) as u32
}

/// The word of MUL and MLA.
pub open spec fn enc_multiply(accumulate: bool, s: bool, rd: u32, rn: u32, rs: u32, rm: u32) -> u32 {
    (flag_bit(accumulate, 21) + flag_bit(s, 20) + rd * 0x1_0000 + rn * 0x1000 + rs * 0x100 + 0x90 + rm) as u32
}

/// The word of the long multiplies.
pub open spec fn enc_multiply_long(signed: bool, accumulate: bool, s: bool, hi: u32, lo: u32, rs: u32, rm: u32) -> u32 {
    (0x80_0000 + flag_bit(signed, 22) + flag_bit(accumulate, 21) + flag_bit(s, 20) + hi * 0x1_0000 + lo * 0x1000 + rs * 0x100 + 0x90 + rm) as u32
}

/// The word of LDR and STR with the given 12-bit operand.
pub open spec fn enc_transfer(register: bool, pre: bool, up: bool, byte: bool, write_back: bool, load: bool, rn: u32, rd: u32, operand: u32) -> u32 {
    (0x400_0000 + flag_bit(register, 25) + flag_bit(pre, 24) + flag_bit(up, 23) + flag_bit(byte, 22) + flag_bit(write_back, 21) + flag_bit(load, 20) + rn * 0x1_0000 + rd * 0x1000 + operand) as u32
}

/// The word of the halfword and signed transfers. `sh` is the size selector
/// in bits 6 and 5; `hi` and `lo` are the two nybbles of the offset, or zero
/// and the offset register.
pub open spec fn enc_transfer_special(pre: bool, up: bool, immediate: bool, write_back: bool, load: bool, rn: u32, rd: u32, sh: u32, hi: u32, lo: u32) -> u32 {
    (flag_bit(pre, 24) + flag_bit(up, 23) + flag_bit(immediate, 22) + flag_bit(write_back, 21) + flag_bit(load, 20) + rn * 0x1_0000 + rd * 0x1000 + hi * 0x100 + 0x90 + sh * 0x20 + lo) as u32
}

/// The word of LDM and STM.
pub open spec fn enc_block(pre: bool, up: bool, psr: bool, write_back: bool, load: bool, rn: u32, registers: u32) -> u32 {
    (0x800_0000 + flag_bit(pre, 24) + flag_bit(up, 23) + flag_bit(psr, 22) + flag_bit(write_back, 21) + flag_bit(load, 20) + rn * 0x1_0000 + registers) as u32
}

/// The word of SWP.
pub open spec fn enc_swap(byte: bool, rn: u32, rd: u32, rm: u32) -> u32 {
    (0x100_0000 + flag_bit(byte, 22) + rn * 0x1_0000 + rd * 0x1000 + 0x90 + rm) as u32
}

/// The word of SWI: the comment in its lower 24 bits.
pub open spec fn enc_swi(comment: u32) -> u32 {
    (0x0F00_0000 + field(comment, 0, 24)) as u32
}

/// Builds the word of `enc_bx`.
pub fn word_bx(rm: u32) -> (r: u32)
    requires
        rm < 0x10,
    ensures
        r == enc_bx(rm),
        r < 0x1000_0000,
{
    0x12F_FF10u32 + rm
}

/// Builds the word of `enc_branch`.
pub fn word_branch(link: bool, offset_field: u32) -> (r: u32)
    requires
        offset_field < 0x100_0000,
    ensures
        r == enc_branch(link, offset_field),
        r < 0x1000_0000,
{
    0xA00_0000u32 + flag(link, 24) + offset_field
}

/// Builds the word of `enc_data`.
pub fn word_data(immediate: bool, op: u32, s: bool, rn: u32, rd: u32, operand: u32) -> (r: u32)
    requires
        op < 0x10,
        rn < 0x10,
        rd < 0x10,
        operand < 0x1000,
    ensures
        r == enc_data(immediate, op, s, rn, rd, operand),
        r < 0x1000_0000,
{
    flag(immediate, 25) + op * 0x20_0000 + flag(s, 20) + rn * 0x1_0000 + rd * 0x1000 + operand
}

/// Builds the word of `enc_rotated`.
pub fn word_rotated(rotate: u32, immediate: u32) -> (r: u32)
    requires
        rotate < 0x10,
        immediate < 0x100,
    ensures
        r == enc_rotated(rotate, immediate),
        r < 0x1000,
{
    immediate + rotate * 0x100
}

/// Builds the word of `enc_shift_constant`.
pub fn word_shift_constant(rm: u32, ty: u32, amount: u32) -> (r: u32)
    requires
        rm < 0x10,
        ty < 0x4,
        amount < 0x20,
    ensures
        r == enc_shift_constant(rm, ty, amount),
        r < 0x1000,
{
    rm + amount * 0x80 + ty * 0x20
}

/// Builds the word of `enc_shift_register`.
pub fn word_shift_register(rm: u32, ty: u32, rs: u32) -> (r: u32)
    requires
        rm < 0x10,
        ty < 0x4,
        rs < 0x10,
    ensures
        r == enc_shift_register(rm, ty, rs),
        r < 0x1000,
{
    rm + rs * 0x100 + ty * 0x20 + 0x10u32
}

/// Builds the word of `enc_mrs`.
pub fn word_mrs(spsr: bool, rd: u32) -> (r: u32)
    requires
        rd < 0x10,
    ensures
        r == enc_mrs(spsr, rd),
        r < 0x1000_0000,
{
    0x10F_0000u32 + flag(spsr, 22) + rd * 0x1000
}

/// Builds the word of `enc_msr_register`.
pub fn word_msr_register(spsr: bool, whole: bool, rm: u32) -> (r: u32)
    requires
        rm < 0x10,
    ensures
        r == enc_msr_register(spsr, whole, rm),
        r < 0x1000_0000,
{
    0x128_F000u32 + flag(spsr, 22) + flag(whole, 16) + rm
}

/// Builds the word of `enc_msr_immediate`.
pub fn word_msr_immediate(spsr: bool, top: u32) -> (r: u32)
    requires
        top < 0x10,
    ensures
        r == enc_msr_immediate(spsr, top),
        r < 0x1000_0000,
{
    0x128_F000u32 + flag(spsr, 22) + 0x200_0200u32 + top
}

/// Builds the word of `enc_multiply`.
pub fn word_multiply(accumulate: bool, s: bool, rd: u32, rn: u32, rs: u32, rm: u32) -> (r: u32)
    requires
        rd < 0x10,
        rn < 0x10,
        rs < 0x10,
        rm < 0x10,
    ensures
        r == enc_multiply(accumulate, s, rd, rn, rs, rm),
        r < 0x1000_0000,
{
    flag(accumulate, 21) + flag(s, 20) + rd * 0x1_0000 + rn * 0x1000 + rs * 0x100 + 0x90u32 + rm
}

/// Builds the word of `enc_multiply_long`.
pub fn word_multiply_long(signed: bool, accumulate: bool, s: bool, hi: u32, lo: u32, rs: u32, rm: u32) -> (r: u32)
    requires
        hi < 0x10,
        lo < 0x10,
        rs < 0x10,
        rm < 0x10,
    ensures
        r == enc_multiply_long(signed, accumulate, s, hi, lo, rs, rm),
        r < 0x1000_0000,
{
    0x80_0000u32 + flag(signed, 22) + flag(accumulate, 21) + flag(s, 20) + hi * 0x1_0000 + lo * 0x1000 + rs * 0x100 + 0x90u32 + rm
}

/// Builds the word of `enc_transfer`.
pub fn word_transfer(register: bool, pre: bool, up: bool, byte: bool, write_back: bool, load: bool, rn: u32, rd: u32, operand: u32) -> (r: u32)
    requires
        rn < 0x10,
        rd < 0x10,
        operand < 0x1000,
    ensures
        r == enc_transfer(register, pre, up, byte, write_back, load, rn, rd, operand),
        r < 0x1000_0000,
{
    0x400_0000u32 + flag(register, 25) + flag(pre, 24) + flag(up, 23) + flag(byte, 22) + flag(write_back, 21) + flag(load, 20) + rn * 0x1_0000 + rd * 0x1000 + operand
}

/// Builds the word of `enc_transfer_special`.
pub fn word_transfer_special(pre: bool, up: bool, immediate: bool, write_back: bool, load: bool, rn: u32, rd: u32, sh: u32, hi: u32, lo: u32) -> (r: u32)
    requires
        rn < 0x10,
        rd < 0x10,
        sh < 0x4,
        hi < 0x10,
        lo < 0x10,
    ensures
        r == enc_transfer_special(pre, up, immediate, write_back, load, rn, rd, sh, hi, lo),
        r < 0x1000_0000,
{
    flag(pre, 24) + flag(up, 23) + flag(immediate, 22) + flag(write_back, 21) + flag(load, 20) + rn * 0x1_0000 + rd * 0x1000 + hi * 0x100 + 0x90u32 + sh * 0x20 + lo
}

/// Builds the word of `enc_block`.
pub fn word_block(pre: bool, up: bool, psr: bool, write_back: bool, load: bool, rn: u32, registers: u32) -> (r: u32)
    requires
        rn < 0x10,
        registers < 0x1_0000,
    ensures
        r == enc_block(pre, up, psr, write_back, load, rn, registers),
        r < 0x1000_0000,
{
    0x800_0000u32 + flag(pre, 24) + flag(up, 23) + flag(psr, 22) + flag(write_back, 21) + flag(load, 20) + rn * 0x1_0000 + registers
}

/// Builds the word of `enc_swap`.
pub fn word_swap(byte: bool, rn: u32, rd: u32, rm: u32) -> (r: u32)
    requires
        rn < 0x10,
        rd < 0x10,
        rm < 0x10,
    ensures
        r == enc_swap(byte, rn, rd, rm),
        r < 0x1000_0000,
{
    0x100_0000u32 + flag(byte, 22) + rn * 0x1_0000 + rd * 0x1000 + 0x90u32 + rm
}

/// Builds the word of SWI.
pub fn word_swi(comment: u32) -> (r: u32)
    ensures
        r == enc_swi(comment),
        r < 0x1000_0000,
{
    0x0F00_0000u32 + get_field(comment, 0, 24)
}

/// A 28-bit word with a condition code in the four bits above it.
pub open spec fn with_condition(body: u32, cond: u32) -> u32 {
    (body + cond * 0x1000_0000) as u32
}

/// Puts a condition code into the four bits above a 28-bit word.
pub fn put_condition(body: u32, cond: u32) -> (r: u32)
    requires
        body < 0x1000_0000,
        cond < 16,
    ensures
        r == with_condition(body, cond),
{
    body + cond * 0x1000_0000
}

/// A condition code joined to a 28-bit word can be taken off again.
pub proof fn lemma_condition_field(cond: u32, body: u32)
    requires
        cond < 16,
        body < 0x1000_0000u32,
    ensures
        field(with_condition(body, cond), 28, 4) == cond,
        field(with_condition(body, cond), 0, 28) == body,
{
}

/// What the decoder reads in the word of a Branch and Exchange.
pub proof fn lemma_layout_bx(rm: u32)
    by (bit_vector)
    requires
        rm < 16,
    ensures
        enc_bx(rm) < 0x1000_0000u32,
        is_bx(enc_bx(rm)),
        field(enc_bx(rm), 0, 4) == rm,
{
}

/// What the decoder reads in the word of a branch.
pub proof fn lemma_layout_branch(link: bool, offset_field: u32)
    by (bit_vector)
    requires
        offset_field < 0x0100_0000u32,
    ensures
        enc_branch(link, offset_field) < 0x1000_0000u32,
        !is_bx(enc_branch(link, offset_field)),
        class_bits(enc_branch(link, offset_field)) == 5,
        bit_is_set(enc_branch(link, offset_field), 24) == link,
        field(enc_branch(link, offset_field), 0, 24) == offset_field,
{
}

/// What the decoder reads in the word of a data-processing instruction.
/// The operand must not look like an extension word, and a comparing
/// operation (codes 8 to 11) must set the flags: without the flag bit its
/// word belongs to the status-register transfers.
pub proof fn lemma_layout_data(immediate: bool, op: u32, s: bool, rn: u32, rd: u32, operand: u32)
    by (bit_vector)
    requires
        op < 16,
        rn < 16,
        rd < 16,
        operand < 4096,
        8 <= op <= 11 ==> s,
        immediate || !(bit_is_set(operand, 7) && bit_is_set(operand, 4)),
    ensures
        enc_data(immediate, op, s, rn, rd, operand) < 0x1000_0000u32,
        !is_bx(enc_data(immediate, op, s, rn, rd, operand)),
        class_bits(enc_data(immediate, op, s, rn, rd, operand)) <= 1,
        !is_extension(enc_data(immediate, op, s, rn, rd, operand)),
        !is_mrs(enc_data(immediate, op, s, rn, rd, operand)),
        !is_msr_flags(enc_data(immediate, op, s, rn, rd, operand)),
        !is_msr_register(enc_data(immediate, op, s, rn, rd, operand)),
        bit_is_set(enc_data(immediate, op, s, rn, rd, operand), 25) == immediate,
        bit_is_set(enc_data(immediate, op, s, rn, rd, operand), 20) == s,
        field(enc_data(immediate, op, s, rn, rd, operand), 21, 4) == op,
        field(enc_data(immediate, op, s, rn, rd, operand), 16, 4) == rn,
        field(enc_data(immediate, op, s, rn, rd, operand), 12, 4) == rd,
        field(enc_data(immediate, op, s, rn, rd, operand), 0, 12) == operand,
{
}

/// What the decoder reads in the twelve operand bits of a rotated immediate.
pub proof fn lemma_layout_rotated(rotate: u32, immediate: u32)
    by (bit_vector)
    requires
        rotate < 16,
        immediate < 256,
    ensures
        enc_rotated(rotate, immediate) < 4096,
        field(enc_rotated(rotate, immediate), 0, 8) == immediate,
        field(enc_rotated(rotate, immediate), 8, 4) == rotate,
{
}

/// What the decoder reads in the twelve operand bits of a shifted register.
pub proof fn lemma_layout_shift(rm: u32, ty: u32, amount: u32, rs: u32)
    by (bit_vector)
    requires
        rm < 16,
        ty < 4,
        amount < 32,
        rs < 16,
    ensures
        enc_shift_constant(rm, ty, amount) < 4096,
        !(bit_is_set(enc_shift_constant(rm, ty, amount), 7) && bit_is_set(
            enc_shift_constant(rm, ty, amount),
            4,
        )),
        !bit_is_set(enc_shift_constant(rm, ty, amount), 4),
        field(enc_shift_constant(rm, ty, amount), 0, 4) == rm,
        field(enc_shift_constant(rm, ty, amount), 5, 2) == ty,
        field(enc_shift_constant(rm, ty, amount), 7, 5) == amount,
        enc_shift_register(rm, ty, rs) < 4096,
        !(bit_is_set(enc_shift_register(rm, ty, rs), 7) && bit_is_set(
            enc_shift_register(rm, ty, rs),
            4,
        )),
        bit_is_set(enc_shift_register(rm, ty, rs), 4),
        field(enc_shift_register(rm, ty, rs), 0, 4) == rm,
        field(enc_shift_register(rm, ty, rs), 5, 2) == ty,
        field(enc_shift_register(rm, ty, rs), 8, 4) == rs,
{
}

/// What the decoder reads in the word of an MRS.
pub proof fn lemma_layout_mrs(spsr: bool, rd: u32)
    by (bit_vector)
    requires
        rd < 16,
    ensures
        enc_mrs(spsr, rd) < 0x1000_0000u32,
        !is_bx(enc_mrs(spsr, rd)),
        class_bits(enc_mrs(spsr, rd)) <= 1,
        !is_extension(enc_mrs(spsr, rd)),
        is_mrs(enc_mrs(spsr, rd)),
        bit_is_set(enc_mrs(spsr, rd), 22) == spsr,
        field(enc_mrs(spsr, rd), 12, 4) == rd,
{
}

/// What the decoder reads in the word of an MSR from a register.
pub proof fn lemma_layout_msr_register(spsr: bool, whole: bool, rm: u32)
    by (bit_vector)
    requires
        rm < 16,
    ensures
        enc_msr_register(spsr, whole, rm) < 0x1000_0000u32,
        !is_bx(enc_msr_register(spsr, whole, rm)),
        class_bits(enc_msr_register(spsr, whole, rm)) <= 1,
        !is_extension(enc_msr_register(spsr, whole, rm)),
        !is_mrs(enc_msr_register(spsr, whole, rm)),
        is_msr_flags(enc_msr_register(spsr, whole, rm)) == !whole,
        is_msr_register(enc_msr_register(spsr, whole, rm)),
        !bit_is_set(enc_msr_register(spsr, whole, rm), 25),
        bit_is_set(enc_msr_register(spsr, whole, rm), 22) == spsr,
        field(enc_msr_register(spsr, whole, rm), 0, 4) == rm,
{
}

/// What the decoder reads in the word of an MSR of an immediate, and that
/// the 4-bit immediate rotated right by four is the value's top nybble back
/// in place.
pub proof fn lemma_layout_msr_immediate(spsr: bool, value: u32)
    by (bit_vector)
    requires
        field(value, 0, 28) == 0,
    ensures
        field(value, 28, 4) < 16,
        enc_msr_immediate(spsr, field(value, 28, 4)) < 0x1000_0000u32,
        !is_bx(enc_msr_immediate(spsr, field(value, 28, 4))),
        class_bits(enc_msr_immediate(spsr, field(value, 28, 4))) <= 1,
        !is_extension(enc_msr_immediate(spsr, field(value, 28, 4))),
        !is_mrs(enc_msr_immediate(spsr, field(value, 28, 4))),
        is_msr_flags(enc_msr_immediate(spsr, field(value, 28, 4))),
        bit_is_set(enc_msr_immediate(spsr, field(value, 28, 4)), 25),
        bit_is_set(enc_msr_immediate(spsr, field(value, 28, 4)), 22) == spsr,
        field(enc_msr_immediate(spsr, field(value, 28, 4)), 8, 4) == 2,
        ror32(field(enc_msr_immediate(spsr, field(value, 28, 4)), 0, 8), 4) == value,
{
}

/// What the decoder reads in the word of a MUL or MLA.
pub proof fn lemma_layout_multiply(accumulate: bool, s: bool, rd: u32, rn: u32, rs: u32, rm: u32)
    by (bit_vector)
    requires
        rd < 16,
        rn < 16,
        rs < 16,
        rm < 16,
    ensures
        enc_multiply(accumulate, s, rd, rn, rs, rm) < 0x1000_0000u32,
        !is_bx(enc_multiply(accumulate, s, rd, rn, rs, rm)),
        class_bits(enc_multiply(accumulate, s, rd, rn, rs, rm)) <= 1,
        is_extension(enc_multiply(accumulate, s, rd, rn, rs, rm)),
        is_multiply_family(enc_multiply(accumulate, s, rd, rn, rs, rm)),
        !bit_is_set(enc_multiply(accumulate, s, rd, rn, rs, rm), 23),
        !bit_is_set(enc_multiply(accumulate, s, rd, rn, rs, rm), 24),
        bit_is_set(enc_multiply(accumulate, s, rd, rn, rs, rm), 21) == accumulate,
        bit_is_set(enc_multiply(accumulate, s, rd, rn, rs, rm), 20) == s,
        field(enc_multiply(accumulate, s, rd, rn, rs, rm), 16, 4) == rd,
        field(enc_multiply(accumulate, s, rd, rn, rs, rm), 12, 4) == rn,
        field(enc_multiply(accumulate, s, rd, rn, rs, rm), 8, 4) == rs,
        field(enc_multiply(accumulate, s, rd, rn, rs, rm), 0, 4) == rm,
{
}

/// What the decoder reads in the word of a long multiply.
pub proof fn lemma_layout_multiply_long(
    signed: bool,
    accumulate: bool,
    s: bool,
    hi: u32,
    lo: u32,
    rs: u32,
    rm: u32,
)
    by (bit_vector)
    requires
        hi < 16,
        lo < 16,
        rs < 16,
        rm < 16,
    ensures
        enc_multiply_long(signed, accumulate, s, hi, lo, rs, rm) < 0x1000_0000u32,
        !is_bx(enc_multiply_long(signed, accumulate, s, hi, lo, rs, rm)),
        class_bits(enc_multiply_long(signed, accumulate, s, hi, lo, rs, rm)) <= 1,
        is_extension(enc_multiply_long(signed, accumulate, s, hi, lo, rs, rm)),
        is_multiply_family(enc_multiply_long(signed, accumulate, s, hi, lo, rs, rm)),
        bit_is_set(enc_multiply_long(signed, accumulate, s, hi, lo, rs, rm), 23),
        bit_is_set(enc_multiply_long(signed, accumulate, s, hi, lo, rs, rm), 22) == signed,
        bit_is_set(enc_multiply_long(signed, accumulate, s, hi, lo, rs, rm), 21) == accumulate,
        bit_is_set(enc_multiply_long(signed, accumulate, s, hi, lo, rs, rm), 20) == s,
        field(enc_multiply_long(signed, accumulate, s, hi, lo, rs, rm), 16, 4) == hi,
        field(enc_multiply_long(signed, accumulate, s, hi, lo, rs, rm), 12, 4) == lo,
        field(enc_multiply_long(signed, accumulate, s, hi, lo, rs, rm), 8, 4) == rs,
        field(enc_multiply_long(signed, accumulate, s, hi, lo, rs, rm), 0, 4) == rm,
{
}

/// What the decoder reads in the word of an LDR or STR.
pub proof fn lemma_layout_transfer(
    register: bool,
    pre: bool,
    up: bool,
    byte: bool,
    write_back: bool,
    load: bool,
    rn: u32,
    rd: u32,
    operand: u32,
)
    by (bit_vector)
    requires
        rn < 16,
        rd < 16,
        operand < 4096,
    ensures
        enc_transfer(register, pre, up, byte, write_back, load, rn, rd, operand) < 0x1000_0000u32,
        !is_bx(enc_transfer(register, pre, up, byte, write_back, load, rn, rd, operand)),
        2 <= class_bits(enc_transfer(register, pre, up, byte, write_back, load, rn, rd, operand))
            <= 3,
        bit_is_set(enc_transfer(register, pre, up, byte, write_back, load, rn, rd, operand), 25)
            == register,
        bit_is_set(enc_transfer(register, pre, up, byte, write_back, load, rn, rd, operand), 24)
            == pre,
        bit_is_set(enc_transfer(register, pre, up, byte, write_back, load, rn, rd, operand), 23)
            == up,
        bit_is_set(enc_transfer(register, pre, up, byte, write_back, load, rn, rd, operand), 22)
            == byte,
        bit_is_set(enc_transfer(register, pre, up, byte, write_back, load, rn, rd, operand), 21)
            == write_back,
        bit_is_set(enc_transfer(register, pre, up, byte, write_back, load, rn, rd, operand), 20)
            == load,
        field(enc_transfer(register, pre, up, byte, write_back, load, rn, rd, operand), 16, 4)
            == rn,
        field(enc_transfer(register, pre, up, byte, write_back, load, rn, rd, operand), 12, 4)
            == rd,
        field(enc_transfer(register, pre, up, byte, write_back, load, rn, rd, operand), 0, 12)
            == operand,
{
}

/// What the decoder reads in the word of a halfword or signed transfer.
pub proof fn lemma_layout_transfer_special(
    pre: bool,
    up: bool,
    immediate: bool,
    write_back: bool,
    load: bool,
    rn: u32,
    rd: u32,
    sh: u32,
    hi: u32,
    lo: u32,
)
    by (bit_vector)
    requires
        rn < 16,
        rd < 16,
        1 <= sh <= 3,
        hi < 16,
        lo < 16,
    ensures
        enc_transfer_special(pre, up, immediate, write_back, load, rn, rd, sh, hi, lo)
            < 0x1000_0000u32,
        !is_bx(enc_transfer_special(pre, up, immediate, write_back, load, rn, rd, sh, hi, lo)),
        class_bits(enc_transfer_special(pre, up, immediate, write_back, load, rn, rd, sh, hi, lo))
            <= 1,
        is_extension(
            enc_transfer_special(pre, up, immediate, write_back, load, rn, rd, sh, hi, lo),
        ),
        !is_multiply_family(
            enc_transfer_special(pre, up, immediate, write_back, load, rn, rd, sh, hi, lo),
        ),
        bit_is_set(
            enc_transfer_special(pre, up, immediate, write_back, load, rn, rd, sh, hi, lo),
            24,
        ) == pre,
        bit_is_set(
            enc_transfer_special(pre, up, immediate, write_back, load, rn, rd, sh, hi, lo),
            23,
        ) == up,
        bit_is_set(
            enc_transfer_special(pre, up, immediate, write_back, load, rn, rd, sh, hi, lo),
            22,
        ) == immediate,
        bit_is_set(
            enc_transfer_special(pre, up, immediate, write_back, load, rn, rd, sh, hi, lo),
            21,
        ) == write_back,
        bit_is_set(
            enc_transfer_special(pre, up, immediate, write_back, load, rn, rd, sh, hi, lo),
            20,
        ) == load,
        field(
            enc_transfer_special(pre, up, immediate, write_back, load, rn, rd, sh, hi, lo),
            16,
            4
        ) == rn,
        field(
            enc_transfer_special(pre, up, immediate, write_back, load, rn, rd, sh, hi, lo),
            12,
            4
        ) == rd,
        field(
            enc_transfer_special(pre, up, immediate, write_back, load, rn, rd, sh, hi, lo),
            5,
            2,
        ) == sh,
        field(
            enc_transfer_special(pre, up, immediate, write_back, load, rn, rd, sh, hi, lo),
            8,
            4
        ) == hi,
        field(
            enc_transfer_special(pre, up, immediate, write_back, load, rn, rd, sh, hi, lo),
            0,
            4
        ) == lo,
{
}

/// What the decoder reads in the word of an LDM or STM.
pub proof fn lemma_layout_block(
    pre: bool,
    up: bool,
    psr: bool,
    write_back: bool,
    load: bool,
    rn: u32,
    registers: u32,
)
    by (bit_vector)
    requires
        rn < 16,
        registers < 0x1_0000u32,
    ensures
        enc_block(pre, up, psr, write_back, load, rn, registers) < 0x1000_0000u32,
        !is_bx(enc_block(pre, up, psr, write_back, load, rn, registers)),
        class_bits(enc_block(pre, up, psr, write_back, load, rn, registers)) == 4,
        bit_is_set(enc_block(pre, up, psr, write_back, load, rn, registers), 24) == pre,
        bit_is_set(enc_block(pre, up, psr, write_back, load, rn, registers), 23) == up,
        bit_is_set(enc_block(pre, up, psr, write_back, load, rn, registers), 22) == psr,
        bit_is_set(enc_block(pre, up, psr, write_back, load, rn, registers), 21) == write_back,
        bit_is_set(enc_block(pre, up, psr, write_back, load, rn, registers), 20) == load,
        field(enc_block(pre, up, psr, write_back, load, rn, registers), 16, 4) == rn,
        field(enc_block(pre, up, psr, write_back, load, rn, registers), 0, 16) == registers,
{
}

/// What the decoder reads in the word of a SWP.
pub proof fn lemma_layout_swap(byte: bool, rn: u32, rd: u32, rm: u32)
    by (bit_vector)
    requires
        rn < 16,
        rd < 16,
        rm < 16,
    ensures
        enc_swap(byte, rn, rd, rm) < 0x1000_0000u32,
        !is_bx(enc_swap(byte, rn, rd, rm)),
        class_bits(enc_swap(byte, rn, rd, rm)) <= 1,
        is_extension(enc_swap(byte, rn, rd, rm)),
        is_multiply_family(enc_swap(byte, rn, rd, rm)),
        !bit_is_set(enc_swap(byte, rn, rd, rm), 23),
        bit_is_set(enc_swap(byte, rn, rd, rm), 24),
        bit_is_set(enc_swap(byte, rn, rd, rm), 22) == byte,
        field(enc_swap(byte, rn, rd, rm), 16, 4) == rn,
        field(enc_swap(byte, rn, rd, rm), 12, 4) == rd,
        field(enc_swap(byte, rn, rd, rm), 0, 4) == rm,
{
}

/// What the decoder reads in the word of a SWI.
pub proof fn lemma_layout_swi(comment: u32)
    by (bit_vector)
    ensures
        enc_swi(comment) < 0x1000_0000u32,
        !is_bx(enc_swi(comment)),
        class_bits(enc_swi(comment)) == 7,
        bit_is_set(enc_swi(comment), 24),
        field(enc_swi(comment), 0, 24) == field(comment, 0, 24),
        comment < 0x0100_0000u32 ==> field(comment, 0, 24) == comment,
{
}

} // verus!
