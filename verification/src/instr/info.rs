//! Instructions taken apart into their mnemonic and arguments, for a
//! front end to lay out.

use vstd::prelude::*;
use vstd::string::*;
use crate::assemble::assembler::AssemblerOutput;
use crate::instr::bits::bit_is_set;
use crate::instr::bits::test_bit;
use crate::instr::display::block_mode_str;
use crate::instr::display::block_mode_text;
use crate::instr::display::cond_str;
use crate::instr::display::cond_text;
use crate::instr::display::data_op_str;
use crate::instr::display::data_op_text;
use crate::instr::display::size_str;
use crate::instr::display::size_text;
use crate::instr::display::special_size_str;
use crate::instr::display::special_size_text;
use crate::instr::ty::Cond;
use crate::instr::ty::DataOp;
use crate::instr::ty::DataOperand;
use crate::instr::ty::Instr;
use crate::instr::ty::MsrSource;
use crate::instr::ty::Psr;
use crate::instr::ty::Register;
use crate::instr::ty::Shift;
use crate::instr::ty::ShiftAmount;
use crate::instr::ty::TransferKind;

verus! {

/// How a constant is best shown.
#[derive(Debug, Clone, Copy, PartialEq, Eq, Structural)]
pub enum ConstantStyle {
    Address,
    UnsignedDecimal,
    Unknown,
}

/// An argument of an instruction, as it is shown.
#[derive(Debug, Clone, PartialEq, Eq)]
pub enum PrettyArgument {
    Register { register: Register, negative: bool, write_back: bool },
    Psr { psr: Psr, flag: bool },
    Shift(Shift),
    Constant { value: u32, style: ConstantStyle },
    RegisterSet { registers: Vec<Register>, caret: bool },
}

/// A shown argument as plain values.
pub enum PrettyArgumentView {
    Register { register: Register, negative: bool, write_back: bool },
    Psr { psr: Psr, flag: bool },
    Shift(Shift),
    Constant { value: u32, style: ConstantStyle },
    RegisterSet { registers: Seq<Register>, caret: bool },
}

impl View for PrettyArgument {
    type V = PrettyArgumentView;

    open spec fn view(&self) -> PrettyArgumentView {
        match self {
            PrettyArgument::Register {
                register,
                negative,
                write_back,
            } => PrettyArgumentView::Register {
                register: *register,
                negative: *negative,
                write_back: *write_back,
            },
            PrettyArgument::Psr { psr, flag } => PrettyArgumentView::Psr { psr: *psr, flag: *flag },
            PrettyArgument::Shift(shift) => PrettyArgumentView::Shift(*shift),
            PrettyArgument::Constant { value, style } => PrettyArgumentView::Constant {
                value: *value,
                style: *style,
            },
            PrettyArgument::RegisterSet { registers, caret } => PrettyArgumentView::RegisterSet {
                registers: registers@,
                caret: *caret,
            },
        }
    }
}

/// Shown arguments as plain values.
pub open spec fn argument_views(arguments: Seq<PrettyArgument>) -> Seq<PrettyArgumentView> {
    Seq::new(arguments.len(), |i: int| arguments[i]@)
}

/// An instruction taken apart: what stands before the condition in its
/// mnemonic, the condition, what stands behind it, and the arguments.
#[derive(Debug, Clone, PartialEq, Eq)]
pub struct PrettyInstr {
    pub opcode_prefix: String,
    pub cond: String,
    pub opcode_suffix: String,
    pub args: Vec<PrettyArgument>,
}

/// A shown instruction as plain values.
pub struct PrettyInstrView {
    pub opcode_prefix: Seq<char>,
    pub cond: Seq<char>,
    pub opcode_suffix: Seq<char>,
    pub args: Seq<PrettyArgumentView>,
}

impl View for PrettyInstr {
    type V = PrettyInstrView;

    open spec fn view(&self) -> PrettyInstrView {
        PrettyInstrView {
            opcode_prefix: self.opcode_prefix@,
            cond: self.cond@,
            opcode_suffix: self.opcode_suffix@,
            args: argument_views(self.args@),
        }
    }
}

/// Information about a line of assembly or disassembled code.
#[derive(Debug, Clone, PartialEq, Eq)]
pub struct LineInfo {
    /// The raw 32-bit value that this line contains.
    pub value: u32,
    /// The decoded instruction, if there was one.
    pub instr: Option<PrettyInstr>,
}

/// A register as an argument, without sign and write-back.
pub open spec fn plain_register(register: Register) -> PrettyArgumentView {
    PrettyArgumentView::Register { register, negative: false, write_back: false }
}

/// The arguments that the second operand of a data-processing instruction
/// is shown as: a constant by its value, a register by itself, and by
/// its shift unless that is a shift by the constant 0.
pub open spec fn data_operand_arguments(operand: DataOperand) -> Seq<PrettyArgumentView> {
    match operand {
        DataOperand::Constant(constant) => seq![
            PrettyArgumentView::Constant {
                value: constant.spec_value(),
                style: ConstantStyle::Unknown,
            },
        ],
        DataOperand::Register(register, shift) => if shift.shift_amount
            == ShiftAmount::Constant(0) {
            seq![plain_register(register)]
        } else {
            seq![plain_register(register), PrettyArgumentView::Shift(shift)]
        },
    }
}

/// The registers of a block transfer from number `from` on, in rising
/// order.
pub open spec fn listed_registers(registers: u16, from: nat) -> Seq<Register>
    decreases 16 - from,
{
    if from >= 16 {
        Seq::empty()
    } else if bit_is_set(registers as u32, from as u32) {
        seq![Register::spec_from_index(from as u32)] + listed_registers(registers, from + 1)
    } else {
        listed_registers(registers, from + 1)
    }
}

/// What stands before the condition in the mnemonic of an instruction.
pub open spec fn opcode_prefix_text(instr: Instr) -> Seq<char> {
    match instr {
        Instr::BranchExchange { .. } => "BX"@,
        Instr::Branch { link, .. } => if link {
            "BL"@
        } else {
            "B"@
        },
        Instr::Data { op, .. } => data_op_text(op),
        Instr::Mrs { .. } => "MRS"@,
        Instr::Msr { .. } => "MSR"@,
        Instr::Multiply { addend, .. } => if addend is Some {
            "MLA"@
        } else {
            "MUL"@
        },
        Instr::MultiplyLong { signed, accumulate, .. } => if signed {
            if accumulate {
                "SMLAL"@
            } else {
                "SMULL"@
            }
        } else if accumulate {
            "UMLAL"@
        } else {
            "UMULL"@
        },
        Instr::SingleTransfer { kind, .. } => if kind == TransferKind::Store {
            "STR"@
        } else {
            "LDR"@
        },
        Instr::SingleTransferSpecial { kind, .. } => if kind == TransferKind::Store {
            "STR"@
        } else {
            "LDR"@
        },
        Instr::BlockTransfer { kind, .. } => if kind == TransferKind::Store {
            "STM"@
        } else {
            "LDM"@
        },
        Instr::Swap { .. } => "SWP"@,
        Instr::SoftwareInterrupt { .. } => "SWI"@,
    }
}

/// `text` if `present`, nothing otherwise.
pub open spec fn suffix_if(present: bool, text: Seq<char>) -> Seq<char> {
    if present {
        text
    } else {
        ""@
    }
}

/// What stands behind the condition in the mnemonic of an instruction.
pub open spec fn opcode_suffix_text(instr: Instr) -> Seq<char> {
    match instr {
        Instr::Data { set_condition_codes, op, .. } => suffix_if(
            set_condition_codes && !op.spec_is_test(),
            "S"@,
        ),
        Instr::Multiply { set_condition_codes, .. } => suffix_if(set_condition_codes, "S"@),
        Instr::MultiplyLong { set_condition_codes, .. } => suffix_if(set_condition_codes, "S"@),
        Instr::SingleTransfer { size, write_back, pre_index, .. } => size_text(size) + suffix_if(
            write_back && !pre_index,
            "T"@,
        ),
        Instr::SingleTransferSpecial {
            size,
            write_back,
            pre_index,
            ..
        } => special_size_text(size) + suffix_if(write_back && !pre_index, "T"@),
        Instr::BlockTransfer { kind, offset_positive, pre_index, .. } => block_mode_text(
            kind,
            pre_index,
            offset_positive,
        ),
        Instr::Swap { byte, .. } => suffix_if(byte, "B"@),
        _ => ""@,
    }
}

/// The arguments that an instruction at `address` is shown with.
/// The target of a branch is shown as an address; the transfers and the
/// swap are shown without arguments.
pub open spec fn argument_list(address: u32, instr: Instr) -> Seq<PrettyArgumentView> {
    match instr {
        Instr::BranchExchange { operand } => seq![plain_register(operand)],
        Instr::Branch { offset, .. } => seq![
            PrettyArgumentView::Constant {
                value: address.wrapping_add_signed(offset).wrapping_add(8),
                style: ConstantStyle::Address,
            },
        ],
        Instr::Data { op, dest, op1, op2, .. } => (if op.spec_is_test() {
            Seq::empty()
        } else {
            seq![plain_register(dest)]
        }) + (if op == DataOp::Mov || op == DataOp::Mvn {
            Seq::empty()
        } else {
            seq![plain_register(op1)]
        }) + data_operand_arguments(op2),
        Instr::Mrs { psr, target } => seq![
            PrettyArgumentView::Psr { psr, flag: false },
            plain_register(target),
        ],
        Instr::Msr { psr, source } => match source {
            MsrSource::Register(register) => seq![
                PrettyArgumentView::Psr { psr, flag: false },
                plain_register(register),
            ],
            MsrSource::RegisterFlags(register) => seq![
                PrettyArgumentView::Psr { psr, flag: true },
                plain_register(register),
            ],
            MsrSource::Flags(value) => seq![
                PrettyArgumentView::Psr { psr, flag: true },
                PrettyArgumentView::Constant { value, style: ConstantStyle::Unknown },
            ],
        },
        Instr::Multiply { dest, op1, op2, addend, .. } => match addend {
            Some(addend) => seq![
                plain_register(dest),
                plain_register(op1),
                plain_register(op2),
                plain_register(addend),
            ],
            None => seq![plain_register(dest), plain_register(op1), plain_register(op2)],
        },
        Instr::MultiplyLong { dest_hi, dest_lo, op1, op2, .. } => seq![
            plain_register(dest_hi),
            plain_register(dest_lo),
            plain_register(op1),
            plain_register(op2),
        ],
        Instr::BlockTransfer { write_back, psr, base_register, registers, .. } => seq![
            PrettyArgumentView::Register { register: base_register, negative: false, write_back },
            PrettyArgumentView::RegisterSet {
                registers: listed_registers(registers, 0),
                caret: psr,
            },
        ],
        Instr::SoftwareInterrupt { comment } => seq![
            PrettyArgumentView::Constant { value: comment, style: ConstantStyle::UnsignedDecimal },
        ],
        _ => Seq::empty(),
    }
}

/// A register as an argument, without sign and write-back.
fn register_argument(register: Register) -> (r: PrettyArgument)
    ensures
        r@ == plain_register(register),
{
    PrettyArgument::Register { register, negative: false, write_back: false }
}

/// Lists the registers of a block transfer in rising order.
pub fn list_registers(registers: u16) -> (r: Vec<Register>)
    ensures
        r@ == listed_registers(registers, 0),
{
    let mut listed: Vec<Register> = Vec::new();
    let mut i: u32 = 0;
    while i < 16
        invariant
            i <= 16,
            listed@ + listed_registers(registers, i as nat) == listed_registers(registers, 0),
        decreases 16 - i,
    {
        let ghost before = listed@;
        if test_bit(registers as u32, i) {
            listed.push(Register::from_u4(i, 0));
            assert(Register::spec_from_u4(i, 0) == Register::spec_from_index(i));
            assert(listed@ + listed_registers(registers, (i + 1) as nat) =~= before + (
            seq![Register::spec_from_index(i)] + listed_registers(registers, (i + 1) as nat)));
        }
        i += 1;
    }
    assert(listed@ + Seq::<Register>::empty() =~= listed@);
    listed
}

/// Puts arguments behind others.
fn append_arguments(arguments: &mut Vec<PrettyArgument>, more: Vec<PrettyArgument>)
    ensures
        argument_views(final(arguments)@) == argument_views(old(arguments)@) + argument_views(
            more@,
        ),
{
    let mut more = more;
    let ghost first = argument_views(arguments@);
    let ghost second = argument_views(more@);
    arguments.append(&mut more);
    assert(argument_views(arguments@) =~= first + second);
}

/// The one view of an argument that is there, or none.
pub open spec fn optional_view(argument: Option<PrettyArgument>) -> Seq<PrettyArgumentView> {
    match argument {
        Some(a) => seq![a@],
        None => Seq::empty(),
    }
}

/// A list of the given arguments.
fn arguments_of(
    first: Option<PrettyArgument>,
    second: Option<PrettyArgument>,
    third: Option<PrettyArgument>,
    fourth: Option<PrettyArgument>,
) -> (r: Vec<PrettyArgument>)
    requires
        first is None ==> second is None,
        second is None ==> third is None,
        third is None ==> fourth is None,
    ensures
        argument_views(r@) == optional_view(first) + optional_view(second) + optional_view(third)
            + optional_view(fourth),
{
    let ghost expected = optional_view(first) + optional_view(second) + optional_view(third)
        + optional_view(fourth);
    let mut arguments: Vec<PrettyArgument> = Vec::new();
    match first {
        Some(a) => arguments.push(a),
        None => {},
    }
    match second {
        Some(a) => arguments.push(a),
        None => {},
    }
    match third {
        Some(a) => arguments.push(a),
        None => {},
    }
    match fourth {
        Some(a) => arguments.push(a),
        None => {},
    }
    assert(argument_views(arguments@) =~= expected);
    arguments
}

impl PrettyArgument {
    /// The arguments that the second operand of a data-processing
    /// instruction is shown as.
    pub fn from_data_operand(value: DataOperand) -> (r: Vec<PrettyArgument>)
        ensures
            argument_views(r@) == data_operand_arguments(value),
    {
        let r = match value {
            DataOperand::Constant(constant) => arguments_of(
                Some(
                    PrettyArgument::Constant {
                        value: constant.value().0,
                        style: ConstantStyle::Unknown,
                    },
                ),
                None,
                None,
                None,
            ),
            DataOperand::Register(register, shift) => {
                if shift.shift_amount == ShiftAmount::Constant(0) {
                    arguments_of(Some(register_argument(register)), None, None, None)
                } else {
                    arguments_of(
                        Some(register_argument(register)),
                        Some(PrettyArgument::Shift(shift)),
                        None,
                        None,
                    )
                }
            },
        };
        assert(argument_views(r@) =~= data_operand_arguments(value));
        r
    }
}

/// What stands before the condition in the mnemonic of an instruction.
pub fn opcode_prefix(instr: &Instr) -> (r: &'static str)
    ensures
        r@ == opcode_prefix_text(*instr),
{
    match *instr {
        Instr::BranchExchange { .. } => "BX",
        Instr::Branch { link, .. } => if link {
            "BL"
        } else {
            "B"
        },
        Instr::Data { op, .. } => data_op_str(op),
        Instr::Mrs { .. } => "MRS",
        Instr::Msr { .. } => "MSR",
        Instr::Multiply { addend, .. } => if addend.is_some() {
            "MLA"
        } else {
            "MUL"
        },
        Instr::MultiplyLong { signed, accumulate, .. } => if signed {
            if accumulate {
                "SMLAL"
            } else {
                "SMULL"
            }
        } else if accumulate {
            "UMLAL"
        } else {
            "UMULL"
        },
        Instr::SingleTransfer { kind, .. } => if kind == TransferKind::Store {
            "STR"
        } else {
            "LDR"
        },
        Instr::SingleTransferSpecial { kind, .. } => if kind == TransferKind::Store {
            "STR"
        } else {
            "LDR"
        },
        Instr::BlockTransfer { kind, .. } => if kind == TransferKind::Store {
            "STM"
        } else {
            "LDM"
        },
        Instr::Swap { .. } => "SWP",
        Instr::SoftwareInterrupt { .. } => "SWI",
    }
}

/// `text` if `present`, nothing otherwise.
fn suffix_str(present: bool, text: &'static str) -> (r: &'static str)
    ensures
        r@ == suffix_if(present, text@),
{
    if present {
        text
    } else {
        ""
    }
}

/// What stands behind the condition in the mnemonic of an instruction.
pub fn opcode_suffix(instr: &Instr) -> (r: String)
    ensures
        r@ == opcode_suffix_text(*instr),
{
    match *instr {
        Instr::Data { set_condition_codes, op, .. } => String::from_str(
            suffix_str(set_condition_codes && !op.is_test(), "S"),
        ),
        Instr::Multiply { set_condition_codes, .. } => String::from_str(
            suffix_str(set_condition_codes, "S"),
        ),
        Instr::MultiplyLong { set_condition_codes, .. } => String::from_str(
            suffix_str(set_condition_codes, "S"),
        ),
        Instr::SingleTransfer { size, write_back, pre_index, .. } => {
            let mut suffix = String::from_str(size_str(size));
            suffix.append(suffix_str(write_back && !pre_index, "T"));
            suffix
        },
        Instr::SingleTransferSpecial { size, write_back, pre_index, .. } => {
            let mut suffix = String::from_str(special_size_str(size));
            suffix.append(suffix_str(write_back && !pre_index, "T"));
            suffix
        },
        Instr::BlockTransfer { kind, offset_positive, pre_index, .. } => String::from_str(
            block_mode_str(kind, pre_index, offset_positive),
        ),
        Instr::Swap { byte, .. } => String::from_str(suffix_str(byte, "B")),
        _ => String::from_str(""),
    }
}

/// The arguments that a data-processing instruction is shown with.
fn data_arguments(op: DataOp, dest: Register, op1: Register, op2: DataOperand) -> (r: Vec<
    PrettyArgument,
>)
    ensures
        argument_views(r@) == argument_list(
            0,
            Instr::Data { set_condition_codes: false, op, dest, op1, op2 },
        ),
{
    let mut arguments: Vec<PrettyArgument> = Vec::new();
    assert(argument_views(arguments@) =~= Seq::empty());
    if !op.is_test() {
        arguments.push(register_argument(dest));
        assert(argument_views(arguments@) =~= seq![plain_register(dest)]);
    }
    let ghost first = argument_views(arguments@);
    if !(op == DataOp::Mov || op == DataOp::Mvn) {
        arguments.push(register_argument(op1));
        assert(argument_views(arguments@) =~= first + seq![plain_register(op1)]);
    } else {
        assert(argument_views(arguments@) =~= first + Seq::empty());
    }
    append_arguments(&mut arguments, PrettyArgument::from_data_operand(op2));
    arguments
}

/// The arguments that an instruction at `address` is shown with.
pub fn arguments(address: u32, instr: &Instr) -> (r: Vec<PrettyArgument>)
    ensures
        argument_views(r@) == argument_list(address, *instr),
{
    let r = match *instr {
        Instr::BranchExchange { operand } => arguments_of(
            Some(register_argument(operand)),
            None,
            None,
            None,
        ),
        Instr::Branch { offset, .. } => arguments_of(
            Some(
                PrettyArgument::Constant {
                    value: address.wrapping_add_signed(offset).wrapping_add(8),
                    style: ConstantStyle::Address,
                },
            ),
            None,
            None,
            None,
        ),
        Instr::Data { op, dest, op1, op2, .. } => data_arguments(op, dest, op1, op2),
        Instr::Mrs { psr, target } => arguments_of(
            Some(PrettyArgument::Psr { psr, flag: false }),
            Some(register_argument(target)),
            None,
            None,
        ),
        Instr::Msr { psr, source } => match source {
            MsrSource::Register(register) => arguments_of(
                Some(PrettyArgument::Psr { psr, flag: false }),
                Some(register_argument(register)),
                None,
                None,
            ),
            MsrSource::RegisterFlags(register) => arguments_of(
                Some(PrettyArgument::Psr { psr, flag: true }),
                Some(register_argument(register)),
                None,
                None,
            ),
            MsrSource::Flags(value) => arguments_of(
                Some(PrettyArgument::Psr { psr, flag: true }),
                Some(PrettyArgument::Constant { value, style: ConstantStyle::Unknown }),
                None,
                None,
            ),
        },
        Instr::Multiply { dest, op1, op2, addend, .. } => arguments_of(
            Some(register_argument(dest)),
            Some(register_argument(op1)),
            Some(register_argument(op2)),
            match addend {
                Some(addend) => Some(register_argument(addend)),
                None => None,
            },
        ),
        Instr::MultiplyLong { dest_hi, dest_lo, op1, op2, .. } => arguments_of(
            Some(register_argument(dest_hi)),
            Some(register_argument(dest_lo)),
            Some(register_argument(op1)),
            Some(register_argument(op2)),
        ),
        Instr::BlockTransfer { write_back, psr, base_register, registers, .. } => arguments_of(
            Some(
                PrettyArgument::Register { register: base_register, negative: false, write_back },
            ),
            Some(PrettyArgument::RegisterSet { registers: list_registers(registers), caret: psr }),
            None,
            None,
        ),
        Instr::SoftwareInterrupt { comment } => arguments_of(
            Some(PrettyArgument::Constant { value: comment, style: ConstantStyle::UnsignedDecimal }),
            None,
            None,
            None,
        ),
        _ => arguments_of(None, None, None, None),
    };
    assert(argument_views(r@) =~= argument_list(address, *instr));
    r
}

impl PrettyInstr {
    /// Takes an instruction at `address` apart.
    pub fn new(address: u32, cond: Cond, instr: Instr) -> (r: PrettyInstr)
        ensures
            r@ == (PrettyInstrView {
                opcode_prefix: opcode_prefix_text(instr),
                cond: cond_text(cond),
                opcode_suffix: opcode_suffix_text(instr),
                args: argument_list(address, instr),
            }),
    {
        PrettyInstr {
            opcode_prefix: String::from_str(opcode_prefix(&instr)),
            cond: String::from_str(cond_str(cond)),
            opcode_suffix: opcode_suffix(&instr),
            args: arguments(address, &instr),
        }
    }
}

impl LineInfo {
    /// The line info for the word `value` at `address`: the word, and the
    /// instruction that it holds if it is to be disassembled and holds one.
    /// The output of the assembler, which holds the symbols of the program,
    /// is not looked at so far.
    pub fn new(
        address: u32,
        value: u32,
        assembled: Option<&AssemblerOutput>,
        disassemble: bool,
    ) -> (r: LineInfo)
        ensures
            r.value == value,
            match r.instr {
                Some(pretty) => disassemble && Instr::spec_decode(value) is Some && pretty@ == (
                PrettyInstrView {
                    opcode_prefix: opcode_prefix_text(Instr::spec_decode(value)->Some_0.1),
                    cond: cond_text(Instr::spec_decode(value)->Some_0.0),
                    opcode_suffix: opcode_suffix_text(Instr::spec_decode(value)->Some_0.1),
                    args: argument_list(address, Instr::spec_decode(value)->Some_0.1),
                }),
                None => !disassemble || Instr::spec_decode(value) is None,
            },
    {
        LineInfo {
            value,
            instr: if disassemble {
                match Instr::decode(value) {
                    Some((cond, instr)) => Some(PrettyInstr::new(address, cond, instr)),
                    None => None,
                }
            } else {
                None
            },
        }
    }
}

} // verus!
