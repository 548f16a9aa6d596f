//! Assembles parsed assembly into real 32-bit instructions.

use vstd::prelude::*;
use crate::assemble::agrees;
use crate::assemble::error_on;
use crate::assemble::heal::fill_register;
use crate::assemble::heal::spec_fill_register;
use crate::assemble::heal::HealStrategy;
use crate::assemble::labels::LabelTable;
use crate::assemble::syntax::AnyTransferSize;
use crate::assemble::syntax::AsmInstr;
use crate::assemble::syntax::AsmInstrView;
use crate::assemble::syntax::AsmLineContentsView;
use crate::assemble::syntax::AsmLineView;
use crate::assemble::syntax::DataOperandView;
use crate::assemble::syntax::MsrSourceView;
use crate::assemble::syntax::ShiftAmountView;
use crate::assemble::syntax::ShiftView;
use crate::assemble::parser::line::line_views;
use crate::assemble::syntax::AsmLine;
use crate::assemble::syntax::AsmLineContents;
use crate::assemble::syntax::DataOperand;
use crate::assemble::syntax::Expression;
use crate::assemble::syntax::MsrSource;
use crate::assemble::syntax::Shift;
use crate::assemble::syntax::ShiftAmount;
use crate::assemble::AssemblerError;
use crate::assemble::AssemblerErrorView;
use crate::assemble::AssemblerWarning;
use crate::assemble::Expected;
use crate::assemble::LineError;
use crate::assemble::LineErrorView;
use crate::instr::ty::Cond;
use crate::instr::ty::DataOp;
use crate::instr::ty::Instr;
use crate::instr::ty::Register;
use crate::instr::ty::RotatedConstant;
use crate::instr::ty::SpecialOperand;
use crate::instr::ty::TransferKind;
use crate::instr::ty::TransferOperand;
use crate::instr::ty::TransferSizeSpecial;

verus! {

/// What the assembler gives: the table of labels, the words of the
/// program, the warnings, and the number of passes that it took.
#[derive(Debug)]
pub struct AssemblerOutput {
    pub labels: LabelTable,
    pub instrs: Vec<u32>,
    pub warnings: Vec<AssemblerWarning>,
    pub passes: usize,
}

/// The output of the assembler as plain values.
pub struct OutputView {
    pub labels: Map<Seq<char>, u32>,
    pub instrs: Seq<u32>,
    pub passes: usize,
}

impl View for AssemblerOutput {
    type V = OutputView;

    open spec fn view(&self) -> OutputView {
        OutputView { labels: self.labels@, instrs: self.instrs@, passes: self.passes }
    }
}

impl AssemblerOutput {
    /// Whether the table of labels is well formed.
    pub open spec fn wf(&self) -> bool {
        self.labels.wf()
    }
}

/// A word read as a two's-complement number.
pub open spec fn as_signed(x: u32) -> i32 {
    if x < 0x8000_0000 {
        x as i32
    } else {
        (x - 0x1_0000_0000) as i32
    }
}

/// The shift that leaves a healed operand as it is: `LSL #0`.
pub open spec fn no_shift() -> crate::instr::ty::Shift {
    crate::instr::ty::Shift::spec_none()
}

/// A constant as the operand of a data-processing instruction:
/// the rotated constant if there is one; else, with advanced healing, the
/// scratch register and the instructions that fill it; else the error
/// `ImmediateOutOfRange`.
pub open spec fn spec_encode_constant(line_number: usize, heal: HealStrategy, value: u32)
    -> Expected<(Seq<Instr>, crate::instr::ty::DataOperand)> {
    match RotatedConstant::spec_encode(value) {
        Some(constant) => Ok((Seq::empty(), crate::instr::ty::DataOperand::Constant(constant))),
        None => match heal {
            HealStrategy::Advanced(scratch) => Ok(
                (
                    spec_fill_register(value, scratch),
                    crate::instr::ty::DataOperand::Register(scratch, no_shift()),
                ),
            ),
            _ => Err(error_on(line_number, LineErrorView::ImmediateOutOfRange(value))),
        },
    }
}

/// A shift with its amount evaluated. An amount above 255 is
/// `ShiftOutOfRange`.
pub open spec fn spec_resolve_shift(
    line_number: usize,
    labels: Map<Seq<char>, u32>,
    shift: ShiftView,
)
    -> Expected<crate::instr::ty::Shift> {
    match shift.shift_amount {
        ShiftAmountView::Constant(expression) => match expression.evaluate(line_number, labels) {
            Err(e) => Err(e),
            Ok(amount) => if amount > 255 {
                Err(error_on(line_number, LineErrorView::ShiftOutOfRange))
            } else {
                Ok(
                    crate::instr::ty::Shift {
                        shift_type: shift.shift_type,
                        shift_amount: crate::instr::ty::ShiftAmount::Constant(amount as u8),
                    },
                )
            },
        },
        ShiftAmountView::Register(register) => Ok(
            crate::instr::ty::Shift {
                shift_type: shift.shift_type,
                shift_amount: crate::instr::ty::ShiftAmount::Register(register),
            },
        ),
    }
}

/// The operand of a data-processing instruction, with the instructions
/// that healing puts before it.
pub open spec fn spec_with_operand(
    line_number: usize,
    labels: Map<Seq<char>, u32>,
    heal: HealStrategy,
    op: DataOperandView,
) -> Expected<(Seq<Instr>, crate::instr::ty::DataOperand)> {
    match op {
        DataOperandView::Constant(expression) => match expression.evaluate(line_number, labels) {
            Err(e) => Err(e),
            Ok(value) => spec_encode_constant(line_number, heal, value),
        },
        DataOperandView::Register(register, shift) => match spec_resolve_shift(
            line_number,
            labels,
            shift,
        ) {
            Err(e) => Err(e),
            Ok(shift) => Ok(
                (Seq::empty(), crate::instr::ty::DataOperand::Register(register, shift)),
            ),
        },
    }
}

/// The offset of a word or byte transfer, with the instructions that
/// healing puts before it: a constant below 4096 as it is; a larger one,
/// with advanced healing, in the scratch register; else the error
/// `ImmediateOutOfRange`.
pub open spec fn spec_with_transfer_operand(
    line_number: usize,
    labels: Map<Seq<char>, u32>,
    heal: HealStrategy,
    op: DataOperandView,
) -> Expected<(Seq<Instr>, TransferOperand)> {
    match op {
        DataOperandView::Constant(expression) => match expression.evaluate(line_number, labels) {
            Err(e) => Err(e),
            Ok(value) => if value < 4096 {
                Ok((Seq::empty(), TransferOperand::Constant(value as u16)))
            } else {
                match heal {
                    HealStrategy::Advanced(scratch) => Ok(
                        (
                            spec_fill_register(value, scratch),
                            TransferOperand::Register(scratch, no_shift()),
                        ),
                    ),
                    _ => Err(error_on(line_number, LineErrorView::ImmediateOutOfRange(value))),
                }
            },
        },
        DataOperandView::Register(register, shift) => match spec_resolve_shift(
            line_number,
            labels,
            shift,
        ) {
            Err(e) => Err(e),
            Ok(shift) => Ok((Seq::empty(), TransferOperand::Register(register, shift))),
        },
    }
}

/// The offset of a halfword or signed transfer, with the instructions that
/// healing puts before it: a constant up to 255 as it is; a larger one,
/// with advanced healing, in the scratch register; a register only without
/// a shift. Everything else is `AddressTooComplex`.
pub open spec fn spec_with_special_operand(
    line_number: usize,
    labels: Map<Seq<char>, u32>,
    heal: HealStrategy,
    op: DataOperandView,
) -> Expected<(Seq<Instr>, SpecialOperand)> {
    match op {
        DataOperandView::Constant(expression) => match expression.evaluate(line_number, labels) {
            Err(e) => Err(e),
            Ok(value) => if value <= 0xFF {
                Ok((Seq::empty(), SpecialOperand::Constant(value as u8)))
            } else {
                match heal {
                    HealStrategy::Advanced(scratch) => Ok(
                        (spec_fill_register(value, scratch), SpecialOperand::Register(scratch)),
                    ),
                    _ => Err(error_on(line_number, LineErrorView::AddressTooComplex)),
                }
            },
        },
        DataOperandView::Register(register, shift) => match shift.shift_amount {
            ShiftAmountView::Register(_) => Err(
                error_on(line_number, LineErrorView::AddressTooComplex),
            ),
            ShiftAmountView::Constant(expression) => match expression.evaluate(
                line_number,
                labels,
            ) {
                Err(e) => Err(e),
                Ok(amount) => if amount == 0 {
                    Ok((Seq::empty(), SpecialOperand::Register(register)))
                } else {
                    Err(error_on(line_number, LineErrorView::AddressTooComplex))
                },
            },
        },
    }
}

/// The offset of a branch at `program_counter` to `address`: the distance
/// from two instructions ahead. It must be a multiple of four
/// (`MisalignedBranchOffset`) and, counted in words, fit in 24 signed bits
/// (`OffsetOutOfRange`).
pub open spec fn spec_branch_offset(line_number: usize, program_counter: u32, address: u32)
    -> Expected<i32> {
    let offset = as_signed(address.wrapping_sub(program_counter).wrapping_sub(8));
    if !crate::instr::encode::branch_offset_aligned(offset) {
        Err(error_on(line_number, LineErrorView::MisalignedBranchOffset))
    } else if !crate::instr::encode::branch_offset_in_range(offset) {
        Err(error_on(line_number, LineErrorView::OffsetOutOfRange))
    } else {
        Ok(offset)
    }
}

/// The instructions that one instruction of the source becomes at
/// `program_counter` under a table of labels: itself with its expressions
/// evaluated, after the instructions that healing puts before it.
pub open spec fn spec_assemble_instr(
    line_number: usize,
    heal: HealStrategy,
    program_counter: u32,
    asm_instr: AsmInstrView,
    labels: Map<Seq<char>, u32>,
) -> Expected<Seq<Instr>> {
    match asm_instr {
        AsmInstrView::BranchExchange { operand } => Ok(seq![Instr::BranchExchange { operand }]),
        AsmInstrView::Branch { link, target } => match target.evaluate(line_number, labels) {
            Err(e) => Err(e),
            Ok(address) => match spec_branch_offset(line_number, program_counter, address) {
                Err(e) => Err(e),
                Ok(offset) => Ok(seq![Instr::Branch { link, offset }]),
            },
        },
        AsmInstrView::Adr { long, dest, expr } => match spec_with_operand(
            line_number,
            labels,
            heal,
            DataOperandView::Constant(expr),
        ) {
            Err(e) => Err(e),
            Ok((before, op2)) => Ok(
                before.push(
                    Instr::Data {
                        set_condition_codes: false,
                        op: DataOp::Mov,
                        dest,
                        op1: Register::R0,
                        op2,
                    },
                ),
            ),
        },
        AsmInstrView::Data { set_condition_codes, op, dest, op1, op2 } => match spec_with_operand(
            line_number,
            labels,
            heal,
            op2,
        ) {
            Err(e) => Err(e),
            Ok((before, op2)) => Ok(
                before.push(Instr::Data { set_condition_codes, op, dest, op1, op2 }),
            ),
        },
        AsmInstrView::Mrs { psr, target } => Ok(seq![Instr::Mrs { psr, target }]),
        AsmInstrView::Msr { psr, source } => match source {
            MsrSourceView::Register(register) => Ok(
                seq![Instr::Msr { psr, source: crate::instr::ty::MsrSource::Register(register) }],
            ),
            MsrSourceView::RegisterFlags(register) => Ok(
                seq![Instr::Msr {
                    psr,
                    source: crate::instr::ty::MsrSource::RegisterFlags(register),
                }],
            ),
            MsrSourceView::Flags(expression) => match expression.evaluate(line_number, labels) {
                Err(e) => Err(e),
                Ok(flags) => Ok(
                    seq![Instr::Msr { psr, source: crate::instr::ty::MsrSource::Flags(flags) }],
                ),
            },
        },
        AsmInstrView::Multiply { set_condition_codes, dest, op1, op2, addend } => Ok(
            seq![Instr::Multiply { set_condition_codes, dest, op1, op2, addend }],
        ),
        AsmInstrView::MultiplyLong {
            set_condition_codes,
            signed,
            accumulate,
            dest_hi,
            dest_lo,
            op1,
            op2,
        } => Ok(
            seq![Instr::MultiplyLong {
                set_condition_codes,
                signed,
                accumulate,
                dest_hi,
                dest_lo,
                op1,
                op2,
            }],
        ),
        AsmInstrView::SingleTransfer {
            kind,
            size,
            write_back,
            offset_positive,
            pre_index,
            data_register,
            base_register,
            offset,
        } => match size {
            AnyTransferSize::Normal(size) => match spec_with_transfer_operand(
                line_number,
                labels,
                heal,
                offset,
            ) {
                Err(e) => Err(e),
                Ok((before, offset)) => Ok(
                    before.push(
                        Instr::SingleTransfer {
                            kind,
                            size,
                            write_back,
                            offset_positive,
                            pre_index,
                            data_register,
                            base_register,
                            offset,
                        },
                    ),
                ),
            },
            AnyTransferSize::Special(size) => if kind == TransferKind::Store && size
                != TransferSizeSpecial::HalfWord {
                Err(error_on(line_number, LineErrorView::InvalidStoreSize))
            } else {
                match spec_with_special_operand(line_number, labels, heal, offset) {
                    Err(e) => Err(e),
                    Ok((before, offset)) => Ok(
                        before.push(
                            Instr::SingleTransferSpecial {
                                kind,
                                size,
                                write_back,
                                offset_positive,
                                pre_index,
                                data_register,
                                base_register,
                                offset,
                            },
                        ),
                    ),
                }
            },
        },
        AsmInstrView::BlockTransfer {
            kind,
            write_back,
            offset_positive,
            pre_index,
            psr,
            base_register,
            registers,
        } => Ok(
            seq![Instr::BlockTransfer {
                kind,
                write_back,
                offset_positive,
                pre_index,
                psr,
                base_register,
                registers,
            }],
        ),
        AsmInstrView::Swap { byte, dest, source, base } => Ok(
            seq![Instr::Swap { byte, dest, source, base }],
        ),
        AsmInstrView::SoftwareInterrupt { comment } => match comment.evaluate(
            line_number,
            labels,
        ) {
            Err(e) => Err(e),
            Ok(comment) => Ok(seq![Instr::SoftwareInterrupt { comment }]),
        },
    }
}

/// Whether a result is the expected instructions and operand, or an error
/// with the expected view.
pub open spec fn agrees_operand<T>(
    result: Result<(Vec<Instr>, T), AssemblerError>,
    expected: Expected<(Seq<Instr>, T)>,
) -> bool {
    match expected {
        Ok((instrs, operand)) => result matches Ok(got) && got.0@ == instrs && got.1 == operand,
        Err(error) => result matches Err(got) && got@ == error,
    }
}

/// Whether a result is the expected instructions, or an error with the
/// expected view.
pub open spec fn agrees_instrs(
    result: Result<Vec<Instr>, AssemblerError>,
    expected: Expected<Seq<Instr>>,
) -> bool {
    match expected {
        Ok(instrs) => result matches Ok(got) && got@ == instrs,
        Err(error) => result matches Err(got) && got@ == error,
    }
}

impl Expression {
    /// The value of the expression under the labels of the output.
    pub fn evaluate(&self, line_number: usize, output: &AssemblerOutput) -> (r: Result<
        u32,
        AssemblerError,
    >)
        requires
            output.wf(),
        ensures
            agrees(r, self@.evaluate(line_number, output.labels@)),
    {
        self.evaluate_in(line_number, &output.labels)
    }
}

/// Evaluates the amount of a shift.
pub fn resolve_shift(line_number: usize, output: &AssemblerOutput, shift: &Shift) -> (r: Result<
    crate::instr::ty::Shift,
    AssemblerError,
>)
    requires
        output.wf(),
    ensures
        agrees(r, spec_resolve_shift(line_number, output.labels@, shift@)),
{
    match &shift.shift_amount {
        ShiftAmount::Constant(expression) => {
            let amount = expression.evaluate(line_number, output)?;
            if amount > 255 {
                Err(AssemblerError { line_number, error: LineError::ShiftOutOfRange })
            } else {
                Ok(
                    crate::instr::ty::Shift {
                        shift_type: shift.shift_type,
                        shift_amount: crate::instr::ty::ShiftAmount::Constant(amount as u8),
                    },
                )
            }
        },
        ShiftAmount::Register(register) => Ok(
            crate::instr::ty::Shift {
                shift_type: shift.shift_type,
                shift_amount: crate::instr::ty::ShiftAmount::Register(*register),
            },
        ),
    }
}

/// Attempts to encode a 32-bit value in just 12 bits, and heals it where
/// that fails and healing is allowed.
pub fn encode_constant(line_number: usize, heal: HealStrategy, value: u32) -> (r: Result<
    (Vec<Instr>, crate::instr::ty::DataOperand),
    AssemblerError,
>)
    ensures
        agrees_operand(r, spec_encode_constant(line_number, heal, value)),
{
    match RotatedConstant::encode(value) {
        Some(constant) => Ok((Vec::new(), crate::instr::ty::DataOperand::Constant(constant))),
        None => match heal {
            HealStrategy::Advanced(scratch) => Ok(
                (
                    fill_register(value, scratch),
                    crate::instr::ty::DataOperand::Register(
                        scratch,
                        crate::instr::ty::Shift::none(),
                    ),
                ),
            ),
            _ => Err(
                AssemblerError { line_number, error: LineError::ImmediateOutOfRange(value) },
            ),
        },
    }
}

/// Resolves the second operand of a data-processing instruction.
pub fn with_operand(
    line_number: usize,
    output: &AssemblerOutput,
    heal: HealStrategy,
    op: &DataOperand,
) -> (r: Result<(Vec<Instr>, crate::instr::ty::DataOperand), AssemblerError>)
    requires
        output.wf(),
    ensures
        agrees_operand(r, spec_with_operand(line_number, output.labels@, heal, op@)),
{
    match op {
        DataOperand::Constant(expression) => {
            let value = expression.evaluate(line_number, output)?;
            encode_constant(line_number, heal, value)
        },
        DataOperand::Register(register, shift) => {
            let shift = resolve_shift(line_number, output, shift)?;
            Ok((Vec::new(), crate::instr::ty::DataOperand::Register(*register, shift)))
        },
    }
}

/// Resolves the offset of a word or byte transfer.
pub fn with_transfer_operand(
    line_number: usize,
    output: &AssemblerOutput,
    heal: HealStrategy,
    op: &DataOperand,
) -> (r: Result<(Vec<Instr>, TransferOperand), AssemblerError>)
    requires
        output.wf(),
    ensures
        agrees_operand(r, spec_with_transfer_operand(line_number, output.labels@, heal, op@)),
{
    match op {
        DataOperand::Constant(expression) => {
            let value = expression.evaluate(line_number, output)?;
            if value < 4096 {
                Ok((Vec::new(), TransferOperand::Constant(value as u16)))
            } else {
                match heal {
                    HealStrategy::Advanced(scratch) => Ok(
                        (
                            fill_register(value, scratch),
                            TransferOperand::Register(scratch, crate::instr::ty::Shift::none()),
                        ),
                    ),
                    _ => Err(
                        AssemblerError {
                            line_number,
                            error: LineError::ImmediateOutOfRange(value),
                        },
                    ),
                }
            }
        },
        DataOperand::Register(register, shift) => {
            let shift = resolve_shift(line_number, output, shift)?;
            Ok((Vec::new(), TransferOperand::Register(*register, shift)))
        },
    }
}

/// Resolves the offset of a halfword or signed transfer.
pub fn with_special_operand(
    line_number: usize,
    output: &AssemblerOutput,
    heal: HealStrategy,
    op: &DataOperand,
) -> (r: Result<(Vec<Instr>, SpecialOperand), AssemblerError>)
    requires
        output.wf(),
    ensures
        agrees_operand(r, spec_with_special_operand(line_number, output.labels@, heal, op@)),
{
    match op {
        DataOperand::Constant(expression) => {
            let value = expression.evaluate(line_number, output)?;
            if value <= 0xFF {
                Ok((Vec::new(), SpecialOperand::Constant(value as u8)))
            } else {
                match heal {
                    HealStrategy::Advanced(scratch) => Ok(
                        (fill_register(value, scratch), SpecialOperand::Register(scratch)),
                    ),
                    _ => Err(AssemblerError { line_number, error: LineError::AddressTooComplex }),
                }
            }
        },
        DataOperand::Register(register, shift) => {
            match &shift.shift_amount {
                ShiftAmount::Register(_) => Err(
                    AssemblerError { line_number, error: LineError::AddressTooComplex },
                ),
                ShiftAmount::Constant(expression) => {
                    let amount = expression.evaluate(line_number, output)?;
                    if amount == 0 {
                        Ok((Vec::new(), SpecialOperand::Register(*register)))
                    } else {
                        Err(AssemblerError { line_number, error: LineError::AddressTooComplex })
                    }
                },
            }
        },
    }
}

/// Works out and checks the offset of a branch.
pub fn branch_offset(line_number: usize, program_counter: u32, address: u32) -> (r: Result<
    i32,
    AssemblerError,
>)
    ensures
        agrees(r, spec_branch_offset(line_number, program_counter, address)),
{
    let distance = address.wrapping_sub(program_counter).wrapping_sub(8);
    let offset: i32 = if distance < 0x8000_0000 {
        distance as i32
    } else {
        (distance as i64 - 0x1_0000_0000) as i32
    };
    // Check that the offset is 4 * some signed 24-bit value.
    if distance % 4 != 0 {
        Err(AssemblerError { line_number, error: LineError::MisalignedBranchOffset })
    } else if offset < -0x0200_0000 || offset >= 0x0200_0000 {
        Err(AssemblerError { line_number, error: LineError::OffsetOutOfRange })
    } else {
        Ok(offset)
    }
}

/// One instruction after the instructions that healing puts before it.
fn after(before: Vec<Instr>, instr: Instr) -> (r: Vec<Instr>)
    ensures
        r@ == before@.push(instr),
{
    let mut instrs = before;
    instrs.push(instr);
    instrs
}

/// One instruction alone.
fn single(instr: Instr) -> (r: Vec<Instr>)
    ensures
        r@ == seq![instr],
{
    let mut instrs = Vec::new();
    instrs.push(instr);
    assert(instrs@ =~= seq![instr]);
    instrs
}

/// Turns one instruction of the source into instructions of the machine.
pub fn assemble_instr(
    line_number: usize,
    heal: HealStrategy,
    program_counter: u32,
    asm_instr: &AsmInstr,
    output: &AssemblerOutput,
) -> (r: Result<Vec<Instr>, AssemblerError>)
    requires
        output.wf(),
    ensures
        agrees_instrs(
            r,
            spec_assemble_instr(line_number, heal, program_counter, asm_instr@, output.labels@),
        ),
{
    match asm_instr {
        AsmInstr::BranchExchange { operand } => Ok(
            single(Instr::BranchExchange { operand: *operand }),
        ),
        AsmInstr::Branch { link, target } => {
            let address = target.evaluate(line_number, output)?;
            let offset = branch_offset(line_number, program_counter, address)?;
            Ok(single(Instr::Branch { link: *link, offset }))
        },
        AsmInstr::Adr { long: _, dest, expr } => {
            let value = expr.evaluate(line_number, output)?;
            let (before, op2) = encode_constant(line_number, heal, value)?;
            Ok(
                after(
                    before,
                    Instr::Data {
                        set_condition_codes: false,
                        op: DataOp::Mov,
                        dest: *dest,
                        op1: Register::R0,
                        op2,
                    },
                ),
            )
        },
        AsmInstr::Data { set_condition_codes, op, dest, op1, op2 } => {
            let (before, op2) = with_operand(line_number, output, heal, op2)?;
            Ok(
                after(
                    before,
                    Instr::Data {
                        set_condition_codes: *set_condition_codes,
                        op: *op,
                        dest: *dest,
                        op1: *op1,
                        op2,
                    },
                ),
            )
        },
        AsmInstr::Mrs { psr, target } => Ok(single(Instr::Mrs { psr: *psr, target: *target })),
        AsmInstr::Msr { psr, source } => {
            let source = match source {
                MsrSource::Register(register) => crate::instr::ty::MsrSource::Register(*register),
                MsrSource::RegisterFlags(register) => crate::instr::ty::MsrSource::RegisterFlags(
                    *register,
                ),
                MsrSource::Flags(expression) => crate::instr::ty::MsrSource::Flags(
                    expression.evaluate(line_number, output)?,
                ),
            };
            Ok(single(Instr::Msr { psr: *psr, source }))
        },
        AsmInstr::Multiply { set_condition_codes, dest, op1, op2, addend } => Ok(
            single(
                Instr::Multiply {
                    set_condition_codes: *set_condition_codes,
                    dest: *dest,
                    op1: *op1,
                    op2: *op2,
                    addend: *addend,
                },
            ),
        ),
        AsmInstr::MultiplyLong {
            set_condition_codes,
            signed,
            accumulate,
            dest_hi,
            dest_lo,
            op1,
            op2,
        } => Ok(
            single(
                Instr::MultiplyLong {
                    set_condition_codes: *set_condition_codes,
                    signed: *signed,
                    accumulate: *accumulate,
                    dest_hi: *dest_hi,
                    dest_lo: *dest_lo,
                    op1: *op1,
                    op2: *op2,
                },
            ),
        ),
        AsmInstr::SingleTransfer { .. } => assemble_single_transfer(
            line_number,
            heal,
            asm_instr,
            output,
        ),
        AsmInstr::BlockTransfer {
            kind,
            write_back,
            offset_positive,
            pre_index,
            psr,
            base_register,
            registers,
        } => Ok(
            single(
                Instr::BlockTransfer {
                    kind: *kind,
                    write_back: *write_back,
                    offset_positive: *offset_positive,
                    pre_index: *pre_index,
                    psr: *psr,
                    base_register: *base_register,
                    registers: *registers,
                },
            ),
        ),
        AsmInstr::Swap { byte, dest, source, base } => Ok(
            single(Instr::Swap { byte: *byte, dest: *dest, source: *source, base: *base }),
        ),
        AsmInstr::SoftwareInterrupt { comment } => {
            let comment = comment.evaluate(line_number, output)?;
            Ok(single(Instr::SoftwareInterrupt { comment }))
        },
    }
}

/// Turns a single transfer of the source into instructions of the machine.
fn assemble_single_transfer(
    line_number: usize,
    heal: HealStrategy,
    asm_instr: &AsmInstr,
    output: &AssemblerOutput,
) -> (r: Result<Vec<Instr>, AssemblerError>)
    requires
        output.wf(),
        asm_instr is SingleTransfer,
    ensures
        forall|program_counter: u32|
            agrees_instrs(
                r,
                #[trigger] spec_assemble_instr(
                    line_number,
                    heal,
                    program_counter,
                    asm_instr@,
                    output.labels@,
                ),
            ),
{
    match asm_instr {
        AsmInstr::SingleTransfer {
            kind,
            size,
            write_back,
            offset_positive,
            pre_index,
            data_register,
            base_register,
            offset,
        } => match size {
            AnyTransferSize::Normal(size) => {
                let (before, offset) = with_transfer_operand(line_number, output, heal, offset)?;
                Ok(
                    after(
                        before,
                        Instr::SingleTransfer {
                            kind: *kind,
                            size: *size,
                            write_back: *write_back,
                            offset_positive: *offset_positive,
                            pre_index: *pre_index,
                            data_register: *data_register,
                            base_register: *base_register,
                            offset,
                        },
                    ),
                )
            },
            AnyTransferSize::Special(size) => {
                if *kind == TransferKind::Store && *size != TransferSizeSpecial::HalfWord {
                    return Err(AssemblerError { line_number, error: LineError::InvalidStoreSize });
                }
                let (before, offset) = with_special_operand(line_number, output, heal, offset)?;
                Ok(
                    after(
                        before,
                        Instr::SingleTransferSpecial {
                            kind: *kind,
                            size: *size,
                            write_back: *write_back,
                            offset_positive: *offset_positive,
                            pre_index: *pre_index,
                            data_register: *data_register,
                            base_register: *base_register,
                            offset,
                        },
                    ),
                )
            },
        },
        _ => Ok(Vec::new()),
    }
}

} // verus!

verus! {

/// The state of a pass over the lines: the address of the next word, the
/// labels, the words put out so far, and whether a label has moved.
pub struct PassState {
    pub program_counter: u32,
    pub labels: Map<Seq<char>, u32>,
    pub words: Seq<u32>,
    pub changed: bool,
}

/// The words of some instructions under one condition, or the error of the
/// first that cannot be encoded.
pub open spec fn spec_encode_all(line_number: usize, cond: Cond, instrs: Seq<Instr>) -> Expected<
    Seq<u32>,
>
    decreases instrs.len(),
{
    if instrs.len() == 0 {
        Ok(Seq::empty())
    } else {
        match spec_encode_all(line_number, cond, instrs.drop_last()) {
            Err(e) => Err(e),
            Ok(words) => match instrs.last().spec_encode(cond) {
                Ok(word) => Ok(words.push(word)),
                Err(e) => Err(error_on(line_number, e@)),
            },
        }
    }
}

/// The address `count` words after `program_counter`, modulo 2^32.
pub open spec fn advance(program_counter: u32, count: nat) -> u32
    decreases count,
{
    if count == 0 {
        program_counter
    } else {
        advance(program_counter, (count - 1) as nat).wrapping_add(4)
    }
}

/// The state after a name has been given a value: the table holds the
/// value, and a change is noted if the name had another value, or none and
/// the value is not zero.
pub open spec fn define(state: PassState, name: Seq<char>, value: u32) -> PassState {
    let before = if state.labels.contains_key(name) {
        state.labels[name]
    } else {
        0
    };
    PassState {
        labels: state.labels.insert(name, value),
        changed: state.changed || before != value,
        ..state
    }
}

/// What one line does to the state of a pass:
/// - a label is defined as the address of the next word;
/// - an `EQU` defines its name as the value of its expression;
/// - a `DEFW` puts out the value of its expression as one word;
/// - an instruction puts out its words, one for itself and one for each
///   instruction that healing puts before it.
pub open spec fn spec_line(state: PassState, heal: HealStrategy, line: AsmLineView) -> Expected<
    PassState,
> {
    match line.contents {
        AsmLineContentsView::Empty => Ok(state),
        AsmLineContentsView::Label(name) => Ok(define(state, name, state.program_counter)),
        AsmLineContentsView::Instr(cond, asm_instr) => match spec_assemble_instr(
            line.line_number,
            heal,
            state.program_counter,
            asm_instr,
            state.labels,
        ) {
            Err(e) => Err(e),
            Ok(instrs) => match spec_encode_all(line.line_number, cond, instrs) {
                Err(e) => Err(e),
                Ok(words) => Ok(
                    PassState {
                        program_counter: advance(state.program_counter, words.len()),
                        words: state.words + words,
                        ..state
                    },
                ),
            },
        },
        AsmLineContentsView::Equ(name, expression) => match expression.evaluate(
            line.line_number,
            state.labels,
        ) {
            Err(e) => Err(e),
            Ok(value) => Ok(define(state, name, value)),
        },
        AsmLineContentsView::DefWord(expression) => match expression.evaluate(
            line.line_number,
            state.labels,
        ) {
            Err(e) => Err(e),
            Ok(value) => Ok(
                PassState {
                    program_counter: state.program_counter.wrapping_add(4),
                    words: state.words.push(value),
                    ..state
                },
            ),
        },
    }
}

/// The state of a pass after the first `count` lines, or the first error.
pub open spec fn spec_pass_prefix(
    lines: Seq<AsmLineView>,
    heal: HealStrategy,
    start: PassState,
    count: nat,
) -> Expected<PassState>
    decreases count,
{
    if count == 0 {
        Ok(start)
    } else {
        match spec_pass_prefix(lines, heal, start, (count - 1) as nat) {
            Err(e) => Err(e),
            Ok(state) => spec_line(state, heal, lines[count - 1]),
        }
    }
}

/// The state in which a pass starts: at address 0, with nothing put out
/// and nothing changed.
pub open spec fn pass_start(labels: Map<Seq<char>, u32>) -> PassState {
    PassState { program_counter: 0, labels, words: Seq::empty(), changed: false }
}

/// One pass over all lines, from address 0, under a table of labels.
pub open spec fn spec_single_pass(
    lines: Seq<AsmLineView>,
    heal: HealStrategy,
    labels: Map<Seq<char>, u32>,
) -> Expected<PassState> {
    spec_pass_prefix(lines, heal, pass_start(labels), lines.len())
}

/// The table in which every name that the first `count` lines define, as a
/// label or by `EQU`, has the value 0.
pub open spec fn initial_labels(lines: Seq<AsmLineView>, count: nat) -> Map<Seq<char>, u32>
    decreases count,
{
    if count == 0 {
        Map::empty()
    } else {
        let before = initial_labels(lines, (count - 1) as nat);
        match lines[count - 1].contents {
            AsmLineContentsView::Label(name) => before.insert(name, 0),
            AsmLineContentsView::Equ(name, _) => before.insert(name, 0),
            _ => before,
        }
    }
}

/// The most passes that the assembler makes.
pub const MAX_PASSES: usize = 10;

/// The passes from number `done + 1` on: a pass is made under the labels
/// of the pass before; if it changes no label, its words and labels are
/// the output; if the tenth pass still changes one, the error is
/// `TooManyPasses` on line 0.
pub open spec fn spec_resolve(
    lines: Seq<AsmLineView>,
    heal: HealStrategy,
    labels: Map<Seq<char>, u32>,
    done: nat,
) -> Expected<OutputView>
    decreases MAX_PASSES - done,
{
    if done >= MAX_PASSES {
        Err(error_on(0, LineErrorView::TooManyPasses))
    } else {
        match spec_single_pass(lines, heal, labels) {
            Err(e) => Err(e),
            Ok(state) => if !state.changed {
                Ok(
                    OutputView {
                        labels: state.labels,
                        instrs: state.words,
                        passes: (done + 1) as usize,
                    },
                )
            } else {
                spec_resolve(lines, heal, state.labels, done + 1)
            },
        }
    }
}

/// What the assembler makes of the lines: every defined name starts at 0,
/// and passes are made until the labels stay.
pub open spec fn spec_assemble(lines: Seq<AsmLineView>, heal: HealStrategy) -> Expected<OutputView> {
    spec_resolve(lines, heal, initial_labels(lines, lines.len()), 0)
}

/// Encodes instructions under one condition, puts the words out and moves
/// the program counter on.
fn emit(
    line_number: usize,
    cond: Cond,
    instrs: &Vec<Instr>,
    program_counter: u32,
    words: &mut Vec<u32>,
) -> (r: Result<u32, AssemblerError>)
    ensures
        match spec_encode_all(line_number, cond, instrs@) {
            Ok(encoded) => r == Ok::<u32, AssemblerError>(
                advance(program_counter, encoded.len()),
            ) && final(words)@ == old(words)@ + encoded,
            Err(e) => r matches Err(got) && got@ == e,
        },
{
    let mut pc = program_counter;
    let mut i: usize = 0;
    while i < instrs.len()
        invariant
            i <= instrs@.len(),
            spec_encode_all(line_number, cond, instrs@.take(i as int)) matches Ok(encoded)
                && pc == advance(program_counter, encoded.len()) && words@ == old(words)@
                + encoded,
        decreases instrs@.len() - i,
    {
        proof {
            assert(instrs@.take(i + 1).drop_last() =~= instrs@.take(i as int));
        }
        let ghost encoded = spec_encode_all(line_number, cond, instrs@.take(i as int))->Ok_0;
        match instrs[i].encode(cond) {
            Ok(word) => {
                words.push(word);
                pc = pc.wrapping_add(4);
                assert(words@ =~= old(words)@ + encoded.push(word));
            },
            Err(error) => {
                proof {
                    lemma_encode_all_error(line_number, cond, instrs@, i as int);
                }
                return Err(AssemblerError { line_number, error });
            },
        }
        i += 1;
    }
    assert(instrs@.take(instrs@.len() as int) =~= instrs@);
    Ok(pc)
}

/// An instruction that cannot be encoded, after a prefix that can, is the
/// error of the whole.
proof fn lemma_encode_all_error(line_number: usize, cond: Cond, instrs: Seq<Instr>, i: int)
    requires
        0 <= i < instrs.len(),
        spec_encode_all(line_number, cond, instrs.take(i)) is Ok,
        instrs[i].spec_encode(cond) is Err,
    ensures
        spec_encode_all(line_number, cond, instrs) == Err::<Seq<u32>, AssemblerErrorView>(
            error_on(line_number, instrs[i].spec_encode(cond)->Err_0@),
        ),
    decreases instrs.len(),
{
    if i == instrs.len() - 1 {
        assert(instrs.drop_last() =~= instrs.take(i));
    } else {
        assert(instrs.drop_last().take(i) =~= instrs.take(i));
        lemma_encode_all_error(line_number, cond, instrs.drop_last(), i);
    }
}

/// Gives a name a value and says whether that is news.
fn define_label(output: &mut AssemblerOutput, name: &String, value: u32) -> (changed: bool)
    requires
        old(output).wf(),
    ensures
        final(output).wf(),
        final(output).labels@ == old(output).labels@.insert(name@, value),
        final(output).instrs == old(output).instrs,
        final(output).passes == old(output).passes,
        final(output).warnings == old(output).warnings,
        changed == ((if old(output).labels@.contains_key(name@) {
            old(output).labels@[name@]
        } else {
            0
        }) != value),
{
    let before = match output.labels.get(name) {
        Some(value) => value,
        None => 0,
    };
    output.labels.set(name, value);
    before != value
}

/// Whether the output and the counters of a pass are in the given state,
/// with the words of the state behind `before`.
pub open spec fn in_state(
    output: &AssemblerOutput,
    program_counter: u32,
    changed: bool,
    before: Seq<u32>,
    state: PassState,
) -> bool {
    state.program_counter == program_counter && state.changed == changed && state.labels
        == output.labels@ && output.instrs@ == before + state.words
}

/// Assembles one line: defines its label, or puts out its words.
/// Returns the program counter after the line, and whether a label of the
/// output changed.
fn pass_line(
    line: &AsmLine,
    heal: HealStrategy,
    program_counter: u32,
    output: &mut AssemblerOutput,
    Ghost(state): Ghost<PassState>,
    Ghost(before): Ghost<Seq<u32>>,
) -> (r: Result<(u32, bool), AssemblerError>)
    requires
        old(output).wf(),
        in_state(old(output), program_counter, state.changed, before, state),
    ensures
        final(output).wf(),
        final(output).passes == old(output).passes,
        final(output).warnings == old(output).warnings,
        match spec_line(state, heal, line@) {
            Ok(next) => r matches Ok(got) && got.0 == next.program_counter && next.changed == (
            state.changed || got.1) && in_state(
                final(output),
                next.program_counter,
                next.changed,
                before,
                next,
            ),
            Err(e) => r matches Err(got) && got@ == e,
        },
{
    match &line.contents {
        AsmLineContents::Empty => Ok((program_counter, false)),
        AsmLineContents::Label(label) => {
            let changed = define_label(output, label, program_counter);
            Ok((program_counter, changed))
        },
        AsmLineContents::Instr(cond, asm_instr) => {
            let instrs = assemble_instr(
                line.line_number,
                heal,
                program_counter,
                asm_instr,
                output,
            )?;
            let after = emit(
                line.line_number,
                *cond,
                &instrs,
                program_counter,
                &mut output.instrs,
            )?;
            proof {
                let words = spec_encode_all(line.line_number, *cond, instrs@)->Ok_0;
                assert(output.instrs@ =~= before + (state.words + words));
            }
            Ok((after, false))
        },
        AsmLineContents::Equ(name, expression) => {
            let value = expression.evaluate(line.line_number, output)?;
            let changed = define_label(output, name, value);
            Ok((program_counter, changed))
        },
        AsmLineContents::DefWord(expression) => {
            let value = expression.evaluate(line.line_number, output)?;
            output.instrs.push(value);
            assert(output.instrs@ =~= before + state.words.push(value));
            Ok((program_counter.wrapping_add(4), false))
        },
    }
}

/// A pass that is in error after some lines stays in that error.
proof fn lemma_pass_error(
    lines: Seq<AsmLineView>,
    heal: HealStrategy,
    start: PassState,
    failed: nat,
    count: nat,
)
    requires
        failed <= count,
        spec_pass_prefix(lines, heal, start, failed) is Err,
    ensures
        spec_pass_prefix(lines, heal, start, count) == spec_pass_prefix(
            lines,
            heal,
            start,
            failed,
        ),
    decreases count,
{
    if failed < count {
        lemma_pass_error(lines, heal, start, failed, (count - 1) as nat);
    }
}

/// Makes one pass over the lines from address 0 under the labels of the
/// output, and puts its words behind those that the output holds.
/// Returns true if a label of the output changed.
pub fn single_pass(lines: &Vec<AsmLine>, heal: HealStrategy, output: &mut AssemblerOutput) -> (r:
    Result<bool, AssemblerError>)
    requires
        old(output).wf(),
    ensures
        final(output).wf(),
        final(output).passes == old(output).passes,
        final(output).warnings == old(output).warnings,
        match spec_single_pass(line_views(lines@), heal, old(output).labels@) {
            Ok(state) => r == Ok::<bool, AssemblerError>(state.changed) && final(output).labels@
                == state.labels && final(output).instrs@ == old(output).instrs@ + state.words,
            Err(e) => r matches Err(got) && got@ == e,
        },
{
    let mut program_counter: u32 = 0;
    let mut anything_changed = false;
    let mut i: usize = 0;
    let ghost start = pass_start(old(output).labels@);
    let ghost before = old(output).instrs@;
    assert(output.instrs@ =~= before + start.words);
    while i < lines.len()
        invariant
            i <= lines@.len(),
            output.wf(),
            output.passes == old(output).passes,
            output.warnings == old(output).warnings,
            start == pass_start(old(output).labels@),
            before == old(output).instrs@,
            spec_pass_prefix(line_views(lines@), heal, start, i as nat) matches Ok(state) && in_state(
                output,
                program_counter,
                anything_changed,
                before,
                state,
            ),
        decreases lines@.len() - i,
    {
        let ghost state = spec_pass_prefix(line_views(lines@), heal, start, i as nat)->Ok_0;
        match pass_line(&lines[i], heal, program_counter, output, Ghost(state), Ghost(before)) {
            Ok((after, changed)) => {
                program_counter = after;
                if changed {
                    anything_changed = true;
                }
            },
            Err(error) => {
                proof {
                    lemma_pass_error(line_views(lines@), heal, start, (i + 1) as nat, lines@.len());
                }
                return Err(error);
            },
        }
        i += 1;
    }
    Ok(anything_changed)
}

/// The table in which every name that the lines define has the value 0.
fn initial_table(lines: &Vec<AsmLine>) -> (r: LabelTable)
    ensures
        r.wf(),
        r@ == initial_labels(line_views(lines@), lines@.len()),
{
    let mut labels = LabelTable::new();
    let mut i: usize = 0;
    while i < lines.len()
        invariant
            i <= lines@.len(),
            labels.wf(),
            labels@ == initial_labels(line_views(lines@), i as nat),
        decreases lines@.len() - i,
    {
        match &lines[i].contents {
            AsmLineContents::Label(label) => labels.set(label, 0),
            AsmLineContents::Equ(label, _) => labels.set(label, 0),
            _ => {},
        }
        i += 1;
    }
    labels
}

/// Assembles the lines of a program into its words.
///
/// Every label starts at address 0. The lines are then assembled again and
/// again under the labels of the pass before, until a pass leaves every
/// label where it was. This lets labels be used before they are defined,
/// and lets the length of a healed instruction depend on them.
pub fn assemble_lines(lines: &Vec<AsmLine>, heal: HealStrategy) -> (r: Result<
    AssemblerOutput,
    AssemblerError,
>)
    ensures
        match spec_assemble(line_views(lines@), heal) {
            Ok(output) => r matches Ok(got) && got@ == output && got.wf() && got.warnings@.len()
                == 0,
            Err(e) => r matches Err(got) && got@ == e,
        },
{
    let mut output = AssemblerOutput {
        labels: initial_table(lines),
        instrs: Vec::new(),
        warnings: Vec::new(),
        passes: 0,
    };
    while output.passes < MAX_PASSES
        invariant
            output.wf(),
            output.passes <= MAX_PASSES,
            output.warnings@.len() == 0,
            spec_assemble(line_views(lines@), heal) == spec_resolve(
                line_views(lines@),
                heal,
                output.labels@,
                output.passes as nat,
            ),
        decreases MAX_PASSES - output.passes,
    {
        output.instrs = Vec::new();
        output.passes += 1;
        let ghost before = output.labels@;
        let changed = single_pass(lines, heal, &mut output)?;
        if !changed {
            assert(output.instrs@ =~= spec_single_pass(line_views(lines@), heal, before)->Ok_0.words);
            return Ok(output);
        }
    }
    Err(AssemblerError { line_number: 0, error: LineError::TooManyPasses })
}

/// Assembles the lines of a program into its words, as `assemble_lines`
/// does.
pub fn assemble(lines: Vec<AsmLine>, heal: HealStrategy) -> (r: Result<
    AssemblerOutput,
    AssemblerError,
>)
    ensures
        match spec_assemble(line_views(lines@), heal) {
            Ok(output) => r matches Ok(got) && got@ == output && got.wf() && got.warnings@.len()
                == 0,
            Err(e) => r matches Err(got) && got@ == e,
        },
{
    assemble_lines(&lines, heal)
}

} // verus!
