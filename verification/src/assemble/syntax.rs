//! Abstract syntax for ARM assembly.

use vstd::prelude::*;
use crate::instr::ty::Cond;
use crate::instr::ty::DataOp;
use crate::instr::ty::Psr;
use crate::instr::ty::Register;
use crate::instr::ty::ShiftType;
use crate::instr::ty::TransferKind;
use crate::instr::ty::TransferSize;
use crate::instr::ty::TransferSizeSpecial;

verus! {

/// One thing that a line of the source holds, with the number of the line
/// and the comment that stands on it.
#[derive(Debug, Clone, PartialEq, Eq)]
pub struct AsmLine {
    pub line_number: usize,
    pub contents: AsmLineContents,
    pub comment: String,
}

/// What a line of the source holds.
#[derive(Debug, Clone, PartialEq, Eq)]
pub enum AsmLineContents {
    /// Nothing, or nothing but a comment.
    Empty,
    /// A label, which names the address of what follows it.
    Label(String),
    /// An instruction and the condition on which it is executed.
    Instr(Cond, AsmInstr),
    /// A name for the value of an expression.
    Equ(String, Expression),
    /// A word of data that holds the value of an expression.
    DefWord(Expression),
}

/// The size of a single transfer: of the word and byte transfers, or of
/// the halfword and signed transfers.
#[derive(Debug, Clone, Copy, PartialEq, Eq, Structural)]
pub enum AnyTransferSize {
    Normal(TransferSize),
    Special(TransferSizeSpecial),
}

/// An instruction that might contain expressions or labels.
/// See [`crate::instr::Instr`] for more information and documentation.
#[allow(inconsistent_fields)]
#[derive(Debug, Clone, PartialEq, Eq)]
pub enum AsmInstr {
    BranchExchange { operand: Register },
    Branch { link: bool, target: Expression },
    /// Put the value of an expression, most often an address, into a
    /// register.
    Adr { long: bool, dest: Register, expr: Expression },
    Data {
        set_condition_codes: bool,
        op: DataOp,
        dest: Register,
        op1: Register,
        op2: DataOperand,
    },
    Mrs { psr: Psr, target: Register },
    Msr { psr: Psr, source: MsrSource },
    Multiply {
        set_condition_codes: bool,
        dest: Register,
        op1: Register,
        op2: Register,
        addend: Option<Register>,
    },
    MultiplyLong {
        set_condition_codes: bool,
        signed: bool,
        accumulate: bool,
        dest_hi: Register,
        dest_lo: Register,
        op1: Register,
        op2: Register,
    },
    SingleTransfer {
        kind: TransferKind,
        size: AnyTransferSize,
        write_back: bool,
        offset_positive: bool,
        pre_index: bool,
        data_register: Register,
        base_register: Register,
        offset: DataOperand,
    },
    BlockTransfer {
        kind: TransferKind,
        write_back: bool,
        offset_positive: bool,
        pre_index: bool,
        psr: bool,
        base_register: Register,
        registers: u16,
    },
    Swap { byte: bool, dest: Register, source: Register, base: Register },
    SoftwareInterrupt { comment: Expression },
}

/// An operand that is a constant expression or a shifted register.
#[derive(Debug, Clone, PartialEq, Eq)]
pub enum DataOperand {
    Constant(Expression),
    Register(Register, Shift),
}

impl DataOperand {
    /// Whether the operand is a register.
    pub open spec fn spec_is_register_specified_shift(&self) -> bool {
        self is Register
    }

    /// Whether the operand is a register.
    pub fn is_register_specified_shift(&self) -> (r: bool)
        ensures
            r == self.spec_is_register_specified_shift(),
    {
        match self {
            DataOperand::Constant(_) => false,
            DataOperand::Register(_, _) => true,
        }
    }
}

/// A shift whose amount may be an expression.
#[derive(Debug, PartialEq, Eq)]
pub struct Shift {
    pub shift_type: ShiftType,
    pub shift_amount: ShiftAmount,
}

impl Default for Shift {
    /// The shift that leaves its operand unchanged: `LSL #0`.
    fn default() -> (r: Self)
        ensures
            r.shift_type == ShiftType::LogicalLeft,
            r.shift_amount == ShiftAmount::Constant(Expression::Constant(0)),
    {
        Shift {
            shift_type: ShiftType::LogicalLeft,
            shift_amount: ShiftAmount::Constant(Expression::Constant(0)),
        }
    }
}

/// The amount of a shift: an expression, or a register that holds it.
#[derive(Debug, PartialEq, Eq)]
pub enum ShiftAmount {
    Constant(Expression),
    Register(Register),
}

/// The source to transfer into a PSR.
#[derive(Debug, Clone, PartialEq, Eq)]
pub enum MsrSource {
    /// Transfer entirely from a register.
    Register(Register),
    /// Transfer only the flag bits from a register.
    RegisterFlags(Register),
    /// Transfer the flag bits of the given 32-bit value.
    Flags(Expression),
}

/// An expression over constants and labels. All its arithmetic is on
/// 32-bit words and wraps.
#[derive(Debug, PartialEq, Eq)]
pub enum Expression {
    Constant(u32),
    Label(String),
    Mul(Box<Expression>, Box<Expression>),
    Div(Box<Expression>, Box<Expression>),
    Add(Box<Expression>, Box<Expression>),
    Sub(Box<Expression>, Box<Expression>),
    Or(Box<Expression>, Box<Expression>),
    Lsl(Box<Expression>, Box<Expression>),
    Lsr(Box<Expression>, Box<Expression>),
    Asr(Box<Expression>, Box<Expression>),
    Ror(Box<Expression>, Box<Expression>),
}

impl Clone for Expression {
    fn clone(&self) -> (r: Self)
        ensures
            r == *self,
        decreases *self,
    {
        match self {
            Expression::Constant(value) => Expression::Constant(*value),
            Expression::Label(name) => Expression::Label(name.clone()),
            Expression::Mul(l, r) => Expression::Mul(
                Box::new((**l).clone()),
                Box::new((**r).clone()),
            ),
            Expression::Div(l, r) => Expression::Div(
                Box::new((**l).clone()),
                Box::new((**r).clone()),
            ),
            Expression::Add(l, r) => Expression::Add(
                Box::new((**l).clone()),
                Box::new((**r).clone()),
            ),
            Expression::Sub(l, r) => Expression::Sub(
                Box::new((**l).clone()),
                Box::new((**r).clone()),
            ),
            Expression::Or(l, r) => Expression::Or(
                Box::new((**l).clone()),
                Box::new((**r).clone()),
            ),
            Expression::Lsl(l, r) => Expression::Lsl(
                Box::new((**l).clone()),
                Box::new((**r).clone()),
            ),
            Expression::Lsr(l, r) => Expression::Lsr(
                Box::new((**l).clone()),
                Box::new((**r).clone()),
            ),
            Expression::Asr(l, r) => Expression::Asr(
                Box::new((**l).clone()),
                Box::new((**r).clone()),
            ),
            Expression::Ror(l, r) => Expression::Ror(
                Box::new((**l).clone()),
                Box::new((**r).clone()),
            ),
        }
    }
}

impl Clone for ShiftAmount {
    fn clone(&self) -> (r: Self)
        ensures
            r == *self,
    {
        match self {
            ShiftAmount::Constant(expression) => ShiftAmount::Constant(expression.clone()),
            ShiftAmount::Register(register) => ShiftAmount::Register(*register),
        }
    }
}

impl Clone for Shift {
    fn clone(&self) -> (r: Self)
        ensures
            r == *self,
    {
        Shift { shift_type: self.shift_type, shift_amount: self.shift_amount.clone() }
    }
}

/// An expression with its labels as plain text.
pub enum ExpressionView {
    Constant(u32),
    Label(Seq<char>),
    Mul(Box<ExpressionView>, Box<ExpressionView>),
    Div(Box<ExpressionView>, Box<ExpressionView>),
    Add(Box<ExpressionView>, Box<ExpressionView>),
    Sub(Box<ExpressionView>, Box<ExpressionView>),
    Or(Box<ExpressionView>, Box<ExpressionView>),
    Lsl(Box<ExpressionView>, Box<ExpressionView>),
    Lsr(Box<ExpressionView>, Box<ExpressionView>),
    Asr(Box<ExpressionView>, Box<ExpressionView>),
    Ror(Box<ExpressionView>, Box<ExpressionView>),
}

impl Expression {
    /// The expression with its labels as plain text.
    pub open spec fn model(self) -> ExpressionView
        decreases self,
    {
        match self {
            Expression::Constant(value) => ExpressionView::Constant(value),
            Expression::Label(name) => ExpressionView::Label(name@),
            Expression::Mul(l, r) => ExpressionView::Mul(
                Box::new((*l).model()),
                Box::new((*r).model()),
            ),
            Expression::Div(l, r) => ExpressionView::Div(
                Box::new((*l).model()),
                Box::new((*r).model()),
            ),
            Expression::Add(l, r) => ExpressionView::Add(
                Box::new((*l).model()),
                Box::new((*r).model()),
            ),
            Expression::Sub(l, r) => ExpressionView::Sub(
                Box::new((*l).model()),
                Box::new((*r).model()),
            ),
            Expression::Or(l, r) => ExpressionView::Or(
                Box::new((*l).model()),
                Box::new((*r).model()),
            ),
            Expression::Lsl(l, r) => ExpressionView::Lsl(
                Box::new((*l).model()),
                Box::new((*r).model()),
            ),
            Expression::Lsr(l, r) => ExpressionView::Lsr(
                Box::new((*l).model()),
                Box::new((*r).model()),
            ),
            Expression::Asr(l, r) => ExpressionView::Asr(
                Box::new((*l).model()),
                Box::new((*r).model()),
            ),
            Expression::Ror(l, r) => ExpressionView::Ror(
                Box::new((*l).model()),
                Box::new((*r).model()),
            ),
        }
    }
}

impl View for Expression {
    type V = ExpressionView;

    open spec fn view(&self) -> ExpressionView {
        self.model()
    }
}

/// The amount of a shift with its labels as plain text.
pub enum ShiftAmountView {
    Constant(ExpressionView),
    Register(Register),
}

impl View for ShiftAmount {
    type V = ShiftAmountView;

    open spec fn view(&self) -> ShiftAmountView {
        match self {
            ShiftAmount::Constant(expression) => ShiftAmountView::Constant(expression@),
            ShiftAmount::Register(register) => ShiftAmountView::Register(*register),
        }
    }
}

/// A shift with its labels as plain text.
pub struct ShiftView {
    pub shift_type: ShiftType,
    pub shift_amount: ShiftAmountView,
}

impl View for Shift {
    type V = ShiftView;

    open spec fn view(&self) -> ShiftView {
        ShiftView { shift_type: self.shift_type, shift_amount: self.shift_amount@ }
    }
}

impl ShiftView {
    /// The shift that leaves its operand unchanged: `LSL #0`.
    pub open spec fn none() -> ShiftView {
        ShiftView {
            shift_type: ShiftType::LogicalLeft,
            shift_amount: ShiftAmountView::Constant(ExpressionView::Constant(0)),
        }
    }
}

/// An operand with its labels as plain text.
pub enum DataOperandView {
    Constant(ExpressionView),
    Register(Register, ShiftView),
}

impl View for DataOperand {
    type V = DataOperandView;

    open spec fn view(&self) -> DataOperandView {
        match self {
            DataOperand::Constant(expression) => DataOperandView::Constant(expression@),
            DataOperand::Register(register, shift) => DataOperandView::Register(*register, shift@),
        }
    }
}

/// The source of an MSR with its labels as plain text.
pub enum MsrSourceView {
    Register(Register),
    RegisterFlags(Register),
    Flags(ExpressionView),
}

impl View for MsrSource {
    type V = MsrSourceView;

    open spec fn view(&self) -> MsrSourceView {
        match self {
            MsrSource::Register(register) => MsrSourceView::Register(*register),
            MsrSource::RegisterFlags(register) => MsrSourceView::RegisterFlags(*register),
            MsrSource::Flags(expression) => MsrSourceView::Flags(expression@),
        }
    }
}

/// An instruction of the source with its labels as plain text.
#[allow(inconsistent_fields)]
pub enum AsmInstrView {
    BranchExchange { operand: Register },
    Branch { link: bool, target: ExpressionView },
    Adr { long: bool, dest: Register, expr: ExpressionView },
    Data {
        set_condition_codes: bool,
        op: DataOp,
        dest: Register,
        op1: Register,
        op2: DataOperandView,
    },
    Mrs { psr: Psr, target: Register },
    Msr { psr: Psr, source: MsrSourceView },
    Multiply {
        set_condition_codes: bool,
        dest: Register,
        op1: Register,
        op2: Register,
        addend: Option<Register>,
    },
    MultiplyLong {
        set_condition_codes: bool,
        signed: bool,
        accumulate: bool,
        dest_hi: Register,
        dest_lo: Register,
        op1: Register,
        op2: Register,
    },
    SingleTransfer {
        kind: TransferKind,
        size: AnyTransferSize,
        write_back: bool,
        offset_positive: bool,
        pre_index: bool,
        data_register: Register,
        base_register: Register,
        offset: DataOperandView,
    },
    BlockTransfer {
        kind: TransferKind,
        write_back: bool,
        offset_positive: bool,
        pre_index: bool,
        psr: bool,
        base_register: Register,
        registers: u16,
    },
    Swap { byte: bool, dest: Register, source: Register, base: Register },
    SoftwareInterrupt { comment: ExpressionView },
}

impl View for AsmInstr {
    type V = AsmInstrView;

    open spec fn view(&self) -> AsmInstrView {
        match self {
            AsmInstr::BranchExchange { operand } => AsmInstrView::BranchExchange {
                operand: *operand,
            },
            AsmInstr::Branch { link, target } => AsmInstrView::Branch {
                link: *link,
                target: target@,
            },
            AsmInstr::Adr { long, dest, expr } => AsmInstrView::Adr {
                long: *long,
                dest: *dest,
                expr: expr@,
            },
            AsmInstr::Data { set_condition_codes, op, dest, op1, op2 } => AsmInstrView::Data {
                set_condition_codes: *set_condition_codes,
                op: *op,
                dest: *dest,
                op1: *op1,
                op2: op2@,
            },
            AsmInstr::Mrs { psr, target } => AsmInstrView::Mrs { psr: *psr, target: *target },
            AsmInstr::Msr { psr, source } => AsmInstrView::Msr { psr: *psr, source: source@ },
            AsmInstr::Multiply {
                set_condition_codes,
                dest,
                op1,
                op2,
                addend,
            } => AsmInstrView::Multiply {
                set_condition_codes: *set_condition_codes,
                dest: *dest,
                op1: *op1,
                op2: *op2,
                addend: *addend,
            },
            AsmInstr::MultiplyLong {
                set_condition_codes,
                signed,
                accumulate,
                dest_hi,
                dest_lo,
                op1,
                op2,
            } => AsmInstrView::MultiplyLong {
                set_condition_codes: *set_condition_codes,
                signed: *signed,
                accumulate: *accumulate,
                dest_hi: *dest_hi,
                dest_lo: *dest_lo,
                op1: *op1,
                op2: *op2,
            },
            AsmInstr::SingleTransfer {
                kind,
                size,
                write_back,
                offset_positive,
                pre_index,
                data_register,
                base_register,
                offset,
            } => AsmInstrView::SingleTransfer {
                kind: *kind,
                size: *size,
                write_back: *write_back,
                offset_positive: *offset_positive,
                pre_index: *pre_index,
                data_register: *data_register,
                base_register: *base_register,
                offset: offset@,
            },
            AsmInstr::BlockTransfer {
                kind,
                write_back,
                offset_positive,
                pre_index,
                psr,
                base_register,
                registers,
            } => AsmInstrView::BlockTransfer {
                kind: *kind,
                write_back: *write_back,
                offset_positive: *offset_positive,
                pre_index: *pre_index,
                psr: *psr,
                base_register: *base_register,
                registers: *registers,
            },
            AsmInstr::Swap { byte, dest, source, base } => AsmInstrView::Swap {
                byte: *byte,
                dest: *dest,
                source: *source,
                base: *base,
            },
            AsmInstr::SoftwareInterrupt { comment } => AsmInstrView::SoftwareInterrupt {
                comment: comment@,
            },
        }
    }
}

/// What a line holds, with its names as plain text.
pub enum AsmLineContentsView {
    Empty,
    Label(Seq<char>),
    Instr(Cond, AsmInstrView),
    Equ(Seq<char>, ExpressionView),
    DefWord(ExpressionView),
}

impl View for AsmLineContents {
    type V = AsmLineContentsView;

    open spec fn view(&self) -> AsmLineContentsView {
        match self {
            AsmLineContents::Empty => AsmLineContentsView::Empty,
            AsmLineContents::Label(name) => AsmLineContentsView::Label(name@),
            AsmLineContents::Instr(cond, instr) => AsmLineContentsView::Instr(*cond, instr@),
            AsmLineContents::Equ(name, expression) => AsmLineContentsView::Equ(name@, expression@),
            AsmLineContents::DefWord(expression) => AsmLineContentsView::DefWord(expression@),
        }
    }
}

/// A line with its names and its comment as plain text.
pub struct AsmLineView {
    pub line_number: usize,
    pub contents: AsmLineContentsView,
    pub comment: Seq<char>,
}

impl View for AsmLine {
    type V = AsmLineView;

    open spec fn view(&self) -> AsmLineView {
        AsmLineView {
            line_number: self.line_number,
            contents: self.contents@,
            comment: self.comment@,
        }
    }
}

} // verus!
