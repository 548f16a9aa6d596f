//! From an opcode and its arguments to an instruction.

use vstd::prelude::*;
use vstd::string::*;
use crate::assemble::keywords::Opcode;
use crate::assemble::parser::argument::argument_views;
use crate::assemble::parser::argument::rrx_view;
use crate::assemble::parser::argument::Argument;
use crate::assemble::parser::argument::ArgumentView;
use crate::assemble::parser::argument::Operand;
use crate::assemble::parser::argument::OperandView;
use crate::assemble::syntax::AnyTransferSize;
use crate::assemble::syntax::AsmInstr;
use crate::assemble::syntax::AsmInstrView;
use crate::assemble::syntax::DataOperand;
use crate::assemble::syntax::DataOperandView;
use crate::assemble::syntax::Expression;
use crate::assemble::syntax::ExpressionView;
use crate::assemble::syntax::MsrSource;
use crate::assemble::syntax::MsrSourceView;
use crate::assemble::syntax::Shift;
use crate::assemble::syntax::ShiftAmount;
use crate::assemble::syntax::ShiftAmountView;
use crate::assemble::syntax::ShiftView;
use crate::instr::display::decimal_text;
use crate::instr::display::write_decimal;
use crate::instr::ty::DataOp;
use crate::instr::ty::Psr;
use crate::instr::ty::Register;
use crate::instr::ty::ShiftType;
use crate::instr::ty::TransferKind;

verus! {

/// What an opcode and its arguments stand for: an instruction, a
/// directive, or a label that the assembler has made up.
#[derive(Debug)]
pub enum Processed {
    Label(String),
    Instr(AsmInstr),
    Equ(Expression),
    DefW(Expression),
}

/// A processed item with its names as plain text.
pub enum ProcessedView {
    Label(Seq<char>),
    Instr(AsmInstrView),
    Equ(ExpressionView),
    DefW(ExpressionView),
}

impl View for Processed {
    type V = ProcessedView;

    open spec fn view(&self) -> ProcessedView {
        match self {
            Processed::Label(name) => ProcessedView::Label(name@),
            Processed::Instr(instr) => ProcessedView::Instr(instr@),
            Processed::Equ(expression) => ProcessedView::Equ(expression@),
            Processed::DefW(expression) => ProcessedView::DefW(expression@),
        }
    }
}

/// Processed items with their names as plain text.
pub open spec fn processed_views(items: Seq<Processed>) -> Seq<ProcessedView> {
    Seq::new(items.len(), |i: int| items[i]@)
}

/// What processing gives: the items, and the number of the next label to
/// make up.
pub type ProcessedItems = Option<(Seq<ProcessedView>, u32)>;

/// The name of the label with number `index` that the assembler makes up.
pub open spec fn generated_label(index: u32) -> Seq<char> {
    decimal_text("__generatedlabel_"@, index as nat)
}

/// The register that an argument is, if it is one.
pub open spec fn register_of(argument: ArgumentView) -> Option<Register> {
    match argument {
        ArgumentView::Plain(OperandView::Register(register)) => Some(register),
        _ => None,
    }
}

/// The expression that an argument is, if it is one.
pub open spec fn expression_of(argument: ArgumentView) -> Option<ExpressionView> {
    match argument {
        ArgumentView::Plain(OperandView::Expression(expression)) => Some(expression),
        _ => None,
    }
}

/// The shift that an argument is, if it is one.
pub open spec fn shift_of(argument: ArgumentView) -> Option<ShiftView> {
    match argument {
        ArgumentView::Plain(OperandView::Shift(shift)) => Some(shift),
        _ => None,
    }
}

/// The amount of a shift that an argument is: an expression or a register.
pub open spec fn amount_of(argument: ArgumentView) -> Option<ShiftAmountView> {
    match argument {
        ArgumentView::Plain(OperandView::Expression(expression)) => Some(
            ShiftAmountView::Constant(expression),
        ),
        ArgumentView::Plain(OperandView::Register(register)) => Some(
            ShiftAmountView::Register(register),
        ),
        _ => None,
    }
}

/// The register that an argument is, with its sign; a plain register is
/// positive.
pub open spec fn signed_register_of(argument: ArgumentView) -> Option<(bool, Register)> {
    match argument {
        ArgumentView::Plain(OperandView::Register(register)) => Some((true, register)),
        ArgumentView::Plain(OperandView::SignedRegister(positive, register)) => Some(
            (positive, register),
        ),
        _ => None,
    }
}

/// The base register of an argument that is an address without operands
/// and without write-back.
pub open spec fn bare_address_of(argument: ArgumentView) -> Option<Register> {
    match argument {
        ArgumentView::Address { base_register, operands, write_back } => if operands.len() == 0
            && !write_back {
            Some(base_register)
        } else {
            None
        },
        _ => None,
    }
}

/// One instruction and nothing else.
pub open spec fn one(instr: AsmInstrView, counter: u32) -> ProcessedItems {
    Some((seq![ProcessedView::Instr(instr)], counter))
}

/// Whether the first `count` arguments are all registers.
pub open spec fn all_registers(arguments: Seq<ArgumentView>, count: int) -> bool {
    forall|i: int| 0 <= i < count ==> register_of(#[trigger] arguments[i]) is Some
}

/// The second operand at the end of the arguments of a data-processing
/// instruction, and how many arguments stand before it: a register, a
/// register and a shift, or an expression.
pub open spec fn data_operand_of(arguments: Seq<ArgumentView>) -> Option<(DataOperandView, int)> {
    let count = arguments.len() as int;
    if count == 0 {
        None
    } else if register_of(arguments[count - 1]) is Some {
        Some(
            (
                DataOperandView::Register(
                    register_of(arguments[count - 1])->Some_0,
                    ShiftView::none(),
                ),
                count - 1,
            ),
        )
    } else if shift_of(arguments[count - 1]) is Some {
        if count >= 2 && register_of(arguments[count - 2]) is Some {
            Some(
                (
                    DataOperandView::Register(
                        register_of(arguments[count - 2])->Some_0,
                        shift_of(arguments[count - 1])->Some_0,
                    ),
                    count - 2,
                ),
            )
        } else {
            None
        }
    } else if expression_of(arguments[count - 1]) is Some {
        Some((DataOperandView::Constant(expression_of(arguments[count - 1])->Some_0), count - 1))
    } else {
        None
    }
}

/// A data-processing instruction:
/// - `TST`, `TEQ`, `CMP` and `CMN` take a register and the second operand;
/// - `MOV` and `MVN` take the destination and the second operand;
/// - the others take the destination, the first operand and the second
///   operand, or, where the destination is the first operand, just that
///   and the second operand.
/// A register that the syntax leaves out is `R0`.
pub open spec fn process_data(
    set_condition_codes: bool,
    op: DataOp,
    arguments: Seq<ArgumentView>,
    counter: u32,
) -> ProcessedItems {
    match data_operand_of(arguments) {
        None => None,
        Some((op2, before)) => if before >= 1 && register_of(arguments[0]) is Some {
            let first = register_of(arguments[0])->Some_0;
            if op.spec_is_test() {
                if before == 1 {
                    one(
                        AsmInstrView::Data {
                            set_condition_codes,
                            op,
                            dest: Register::R0,
                            op1: first,
                            op2,
                        },
                        counter,
                    )
                } else {
                    None
                }
            } else if op == DataOp::Mov || op == DataOp::Mvn {
                if before == 1 {
                    one(
                        AsmInstrView::Data {
                            set_condition_codes,
                            op,
                            dest: first,
                            op1: Register::R0,
                            op2,
                        },
                        counter,
                    )
                } else {
                    None
                }
            } else if before == 1 {
                one(
                    AsmInstrView::Data { set_condition_codes, op, dest: first, op1: first, op2 },
                    counter,
                )
            } else if before == 2 && register_of(arguments[1]) is Some {
                one(
                    AsmInstrView::Data {
                        set_condition_codes,
                        op,
                        dest: first,
                        op1: register_of(arguments[1])->Some_0,
                        op2,
                    },
                    counter,
                )
            } else {
                None
            }
        } else {
            None
        },
    }
}

/// The move that a shift mnemonic stands for.
pub open spec fn shift_move(
    set_condition_codes: bool,
    dest: Register,
    source: Register,
    shift: ShiftView,
) -> AsmInstrView {
    AsmInstrView::Data {
        set_condition_codes,
        op: DataOp::Mov,
        dest,
        op1: Register::R0,
        op2: DataOperandView::Register(source, shift),
    }
}

/// A shift used as an instruction, which is a `MOV` with that shift:
/// - `RRX` takes a register, or the destination and a register;
/// - the others take a register and an amount, or the destination, a
///   register and an amount; the amount is an expression or a register.
pub open spec fn process_shift(
    set_condition_codes: bool,
    shift_type: ShiftType,
    arguments: Seq<ArgumentView>,
    counter: u32,
) -> ProcessedItems {
    let count = arguments.len();
    if shift_type == ShiftType::RotateRightExtended {
        if count == 1 && all_registers(arguments, 1) {
            one(
                shift_move(
                    set_condition_codes,
                    register_of(arguments[0])->Some_0,
                    register_of(arguments[0])->Some_0,
                    rrx_view(),
                ),
                counter,
            )
        } else if count == 2 && all_registers(arguments, 2) {
            one(
                shift_move(
                    set_condition_codes,
                    register_of(arguments[0])->Some_0,
                    register_of(arguments[1])->Some_0,
                    rrx_view(),
                ),
                counter,
            )
        } else {
            None
        }
    } else if count == 2 && all_registers(arguments, 1) && amount_of(arguments[1]) is Some {
        one(
            shift_move(
                set_condition_codes,
                register_of(arguments[0])->Some_0,
                register_of(arguments[0])->Some_0,
                ShiftView { shift_type, shift_amount: amount_of(arguments[1])->Some_0 },
            ),
            counter,
        )
    } else if count == 3 && all_registers(arguments, 2) && amount_of(arguments[2]) is Some {
        one(
            shift_move(
                set_condition_codes,
                register_of(arguments[0])->Some_0,
                register_of(arguments[1])->Some_0,
                ShiftView { shift_type, shift_amount: amount_of(arguments[2])->Some_0 },
            ),
            counter,
        )
    } else {
        None
    }
}

/// The offset inside the brackets of a pre-indexed address, with whether
/// it counts up: nothing, which is the constant 0; an expression; a
/// register, with or without a sign; or such a register and a shift.
pub open spec fn bracket_offset(operands: Seq<OperandView>) -> Option<(bool, DataOperandView)> {
    if operands.len() == 0 {
        Some((true, DataOperandView::Constant(ExpressionView::Constant(0))))
    } else if operands.len() == 1 {
        match operands[0] {
            OperandView::Expression(expression) => Some(
                (true, DataOperandView::Constant(expression)),
            ),
            OperandView::Register(register) => Some(
                (true, DataOperandView::Register(register, ShiftView::none())),
            ),
            OperandView::SignedRegister(positive, register) => Some(
                (positive, DataOperandView::Register(register, ShiftView::none())),
            ),
            _ => None,
        }
    } else if operands.len() == 2 {
        match operands[1] {
            OperandView::Shift(shift) => match operands[0] {
                OperandView::Register(register) => Some(
                    (true, DataOperandView::Register(register, shift)),
                ),
                OperandView::SignedRegister(positive, register) => Some(
                    (positive, DataOperandView::Register(register, shift)),
                ),
                _ => None,
            },
            _ => None,
        }
    } else {
        None
    }
}

/// The offset behind the brackets of a post-indexed address, with whether
/// it counts up: an expression; or a register, with or without a sign,
/// and with or without a shift behind it.
pub open spec fn trailing_offset(arguments: Seq<ArgumentView>) -> Option<(bool, DataOperandView)> {
    if arguments.len() == 3 {
        if expression_of(arguments[2]) is Some {
            Some((true, DataOperandView::Constant(expression_of(arguments[2])->Some_0)))
        } else if signed_register_of(arguments[2]) is Some {
            Some(
                (
                    signed_register_of(arguments[2])->Some_0.0,
                    DataOperandView::Register(
                        signed_register_of(arguments[2])->Some_0.1,
                        ShiftView::none(),
                    ),
                ),
            )
        } else {
            None
        }
    } else if arguments.len() == 4 && signed_register_of(arguments[2]) is Some && shift_of(
        arguments[3],
    ) is Some {
        Some(
            (
                signed_register_of(arguments[2])->Some_0.0,
                DataOperandView::Register(
                    signed_register_of(arguments[2])->Some_0.1,
                    shift_of(arguments[3])->Some_0,
                ),
            ),
        )
    } else {
        None
    }
}

/// The offset of a load from an address given by an expression: from the
/// made-up label behind the load, which is four bytes past where the
/// program counter reads, to the address.
pub open spec fn literal_offset(address: ExpressionView, here: Seq<char>) -> DataOperandView {
    DataOperandView::Constant(
        ExpressionView::Sub(
            Box::new(address),
            Box::new(
                ExpressionView::Add(
                    Box::new(ExpressionView::Label(here)),
                    Box::new(ExpressionView::Constant(4)),
                ),
            ),
        ),
    )
}

/// A single transfer takes the data register and then
/// - an expression: the address to transfer from or to, relative to the
///   program counter; a label is made up and put behind the instruction;
/// - an address with its offset inside the brackets: pre-indexed;
/// - an address without operands, and the offset behind it: post-indexed,
///   with the `T` flag of the opcode as its write-back.
/// The `T` flag is for post-indexed transfers only.
pub open spec fn process_transfer(
    kind: TransferKind,
    size: AnyTransferSize,
    t_flag: bool,
    arguments: Seq<ArgumentView>,
    counter: u32,
) -> ProcessedItems {
    if arguments.len() < 2 || register_of(arguments[0]) is None {
        None
    } else {
        let data_register = register_of(arguments[0])->Some_0;
        if arguments.len() == 2 {
            if t_flag {
                None
            } else {
                match arguments[1] {
                    ArgumentView::Plain(OperandView::Expression(address)) => Some(
                        (
                            seq![
                                ProcessedView::Instr(
                                    AsmInstrView::SingleTransfer {
                                        kind,
                                        size,
                                        write_back: false,
                                        offset_positive: true,
                                        pre_index: true,
                                        data_register,
                                        base_register: Register::R15,
                                        offset: literal_offset(address, generated_label(counter)),
                                    },
                                ),
                                ProcessedView::Label(generated_label(counter)),
                            ],
                            counter.wrapping_add(1),
                        ),
                    ),
                    ArgumentView::Address {
                        base_register,
                        operands,
                        write_back,
                    } => match bracket_offset(operands) {
                        Some((offset_positive, offset)) => one(
                            AsmInstrView::SingleTransfer {
                                kind,
                                size,
                                write_back,
                                offset_positive,
                                pre_index: true,
                                data_register,
                                base_register,
                                offset,
                            },
                            counter,
                        ),
                        None => None,
                    },
                    _ => None,
                }
            }
        } else {
            match (bare_address_of(arguments[1]), trailing_offset(arguments)) {
                (Some(base_register), Some((offset_positive, offset))) => one(
                    AsmInstrView::SingleTransfer {
                        kind,
                        size,
                        write_back: t_flag,
                        offset_positive,
                        pre_index: false,
                        data_register,
                        base_register,
                        offset,
                    },
                    counter,
                ),
                _ => None,
            }
        }
    }
}

/// The words of a `DEFW` from argument `from` on: one for each argument,
/// which must all be expressions.
pub open spec fn process_words(arguments: Seq<ArgumentView>, count: int) -> Option<
    Seq<ProcessedView>,
>
    decreases count,
{
    if count <= 0 {
        Some(Seq::empty())
    } else {
        match (process_words(arguments, count - 1), expression_of(arguments[count - 1])) {
            (Some(before), Some(expression)) => Some(
                before.push(ProcessedView::DefW(expression)),
            ),
            _ => None,
        }
    }
}

/// What an opcode and its arguments stand for, and the number of the next
/// label to make up; `None` if the opcode does not take these arguments.
/// The block transfers have no syntax yet and take none.
pub open spec fn spec_process_instruction(
    opcode: Opcode,
    arguments: Seq<ArgumentView>,
    counter: u32,
) -> ProcessedItems {
    let count = arguments.len();
    match opcode {
        Opcode::BranchExchange => if count == 1 && all_registers(arguments, 1) {
            one(
                AsmInstrView::BranchExchange { operand: register_of(arguments[0])->Some_0 },
                counter,
            )
        } else {
            None
        },
        Opcode::Branch { link } => if count == 1 && expression_of(arguments[0]) is Some {
            one(
                AsmInstrView::Branch { link, target: expression_of(arguments[0])->Some_0 },
                counter,
            )
        } else {
            None
        },
        Opcode::Adr => if count == 2 && all_registers(arguments, 1) && expression_of(
            arguments[1],
        ) is Some {
            one(
                AsmInstrView::Adr {
                    long: false,
                    dest: register_of(arguments[0])->Some_0,
                    expr: expression_of(arguments[1])->Some_0,
                },
                counter,
            )
        } else {
            None
        },
        Opcode::Nop => if count == 0 {
            one(
                AsmInstrView::Data {
                    set_condition_codes: false,
                    op: DataOp::Mov,
                    dest: Register::R8,
                    op1: Register::R0,
                    op2: DataOperandView::Register(Register::R8, ShiftView::none()),
                },
                counter,
            )
        } else {
            None
        },
        Opcode::Data(set_condition_codes, op) => process_data(
            set_condition_codes,
            op,
            arguments,
            counter,
        ),
        Opcode::Shift(set_condition_codes, shift_type) => process_shift(
            set_condition_codes,
            shift_type,
            arguments,
            counter,
        ),
        Opcode::Mrs => if count == 2 && all_registers(arguments, 1) {
            match arguments[1] {
                ArgumentView::Plain(OperandView::Psr { psr, flag }) => if !flag {
                    one(
                        AsmInstrView::Mrs { psr, target: register_of(arguments[0])->Some_0 },
                        counter,
                    )
                } else {
                    None
                },
                _ => None,
            }
        } else {
            None
        },
        Opcode::Msr => if count == 2 {
            match arguments[0] {
                ArgumentView::Plain(OperandView::Psr { psr, flag }) => if register_of(
                    arguments[1],
                ) is Some {
                    one(
                        AsmInstrView::Msr {
                            psr,
                            source: if flag {
                                MsrSourceView::RegisterFlags(register_of(arguments[1])->Some_0)
                            } else {
                                MsrSourceView::Register(register_of(arguments[1])->Some_0)
                            },
                        },
                        counter,
                    )
                } else if flag && expression_of(arguments[1]) is Some {
                    one(
                        AsmInstrView::Msr {
                            psr,
                            source: MsrSourceView::Flags(expression_of(arguments[1])->Some_0),
                        },
                        counter,
                    )
                } else {
                    None
                },
                _ => None,
            }
        } else {
            None
        },
        Opcode::Mul(set_condition_codes, accumulate) => if !accumulate && count == 3
            && all_registers(arguments, 3) {
            one(
                AsmInstrView::Multiply {
                    set_condition_codes,
                    dest: register_of(arguments[0])->Some_0,
                    op1: register_of(arguments[1])->Some_0,
                    op2: register_of(arguments[2])->Some_0,
                    addend: None,
                },
                counter,
            )
        } else if accumulate && count == 4 && all_registers(arguments, 4) {
            one(
                AsmInstrView::Multiply {
                    set_condition_codes,
                    dest: register_of(arguments[0])->Some_0,
                    op1: register_of(arguments[1])->Some_0,
                    op2: register_of(arguments[2])->Some_0,
                    addend: Some(register_of(arguments[3])->Some_0),
                },
                counter,
            )
        } else {
            None
        },
        Opcode::MulLong(set_condition_codes, signed, accumulate) => if count == 4
            && all_registers(arguments, 4) {
            one(
                AsmInstrView::MultiplyLong {
                    set_condition_codes,
                    signed,
                    accumulate,
                    dest_hi: register_of(arguments[1])->Some_0,
                    dest_lo: register_of(arguments[0])->Some_0,
                    op1: register_of(arguments[2])->Some_0,
                    op2: register_of(arguments[3])->Some_0,
                },
                counter,
            )
        } else {
            None
        },
        Opcode::SingleTransfer(kind, size, t_flag) => process_transfer(
            kind,
            size,
            t_flag,
            arguments,
            counter,
        ),
        Opcode::BlockTransfer(_, _, _) => None,
        Opcode::Swap(byte) => if count == 3 && all_registers(arguments, 2) && bare_address_of(
            arguments[2],
        ) is Some {
            one(
                AsmInstrView::Swap {
                    byte,
                    dest: register_of(arguments[0])->Some_0,
                    source: register_of(arguments[1])->Some_0,
                    base: bare_address_of(arguments[2])->Some_0,
                },
                counter,
            )
        } else {
            None
        },
        Opcode::Swi => if count == 1 && expression_of(arguments[0]) is Some {
            one(
                AsmInstrView::SoftwareInterrupt { comment: expression_of(arguments[0])->Some_0 },
                counter,
            )
        } else {
            None
        },
        Opcode::Equ => if count == 1 && expression_of(arguments[0]) is Some {
            Some((seq![ProcessedView::Equ(expression_of(arguments[0])->Some_0)], counter))
        } else {
            None
        },
        Opcode::DefW => match process_words(arguments, count as int) {
            Some(words) => Some((words, counter)),
            None => None,
        },
    }
}

/// Whether a result is the expected items and counter, or none where none
/// are expected.
pub open spec fn processed(
    result: Option<(Vec<Processed>, u32)>,
    expected: ProcessedItems,
) -> bool {
    match expected {
        Some((items, counter)) => result matches Some(got) && processed_views(got.0@) == items
            && got.1 == counter,
        None => result is None,
    }
}

/// The register that an argument is.
pub fn as_register(argument: &Argument) -> (r: Option<Register>)
    ensures
        r == register_of(argument@),
{
    match argument {
        Argument::Plain(Operand::Register(register)) => Some(*register),
        _ => None,
    }
}

/// The expression that an argument is.
pub fn as_expression(argument: &Argument) -> (r: Option<Expression>)
    ensures
        match expression_of(argument@) {
            Some(expression) => r matches Some(got) && got@ == expression,
            None => r is None,
        },
{
    match argument {
        Argument::Plain(Operand::Expression(expression)) => Some(expression.clone()),
        _ => None,
    }
}

/// The shift that an argument is.
pub fn as_shift(argument: &Argument) -> (r: Option<Shift>)
    ensures
        match shift_of(argument@) {
            Some(shift) => r matches Some(got) && got@ == shift,
            None => r is None,
        },
{
    match argument {
        Argument::Plain(Operand::Shift(shift)) => Some(shift.clone()),
        _ => None,
    }
}

/// The amount of a shift that an argument is.
pub fn as_amount(argument: &Argument) -> (r: Option<ShiftAmount>)
    ensures
        match amount_of(argument@) {
            Some(amount) => r matches Some(got) && got@ == amount,
            None => r is None,
        },
{
    match argument {
        Argument::Plain(Operand::Expression(expression)) => Some(
            ShiftAmount::Constant(expression.clone()),
        ),
        Argument::Plain(Operand::Register(register)) => Some(ShiftAmount::Register(*register)),
        _ => None,
    }
}

/// The register that an argument is, with its sign.
pub fn as_signed_register(argument: &Argument) -> (r: Option<(bool, Register)>)
    ensures
        r == signed_register_of(argument@),
{
    match argument {
        Argument::Plain(Operand::Register(register)) => Some((true, *register)),
        Argument::Plain(Operand::SignedRegister(positive, register)) => Some(
            (*positive, *register),
        ),
        _ => None,
    }
}

/// The base register of an address without operands and write-back.
pub fn as_bare_address(argument: &Argument) -> (r: Option<Register>)
    ensures
        r == bare_address_of(argument@),
{
    match argument {
        Argument::Address { base_register, operands, write_back } => {
            if operands.len() == 0 && !*write_back {
                Some(*base_register)
            } else {
                None
            }
        },
        _ => None,
    }
}

/// One instruction and nothing else.
fn only(instr: AsmInstr, counter: u32) -> (r: Option<(Vec<Processed>, u32)>)
    ensures
        processed(r, one(instr@, counter)),
{
    let mut items = Vec::new();
    items.push(Processed::Instr(instr));
    assert(processed_views(items@) =~= seq![ProcessedView::Instr(instr@)]);
    Some((items, counter))
}

/// The registers that the first `count` arguments are, if they all are.
fn leading_registers(arguments: &Vec<Argument>, count: usize) -> (r: Option<Vec<Register>>)
    requires
        count <= arguments@.len(),
    ensures
        match r {
            Some(registers) => all_registers(argument_views(arguments@), count as int)
                && registers@.len() == count && forall|i: int|
                0 <= i < count ==> Some(#[trigger] registers@[i]) == register_of(
                    argument_views(arguments@)[i],
                ),
            None => !all_registers(argument_views(arguments@), count as int),
        },
{
    let mut registers: Vec<Register> = Vec::new();
    let mut i: usize = 0;
    while i < count
        invariant
            i <= count <= arguments@.len(),
            registers@.len() == i,
            forall|k: int|
                0 <= k < i ==> Some(#[trigger] registers@[k]) == register_of(
                    argument_views(arguments@)[k],
                ),
        decreases count - i,
    {
        match as_register(&arguments[i]) {
            Some(register) => registers.push(register),
            None => {
                assert(register_of(argument_views(arguments@)[i as int]) is None);
                return None;
            },
        }
        i += 1;
    }
    assert forall|k: int| 0 <= k < count implies register_of(
        #[trigger] argument_views(arguments@)[k],
    ) is Some by {
        assert(Some(registers@[k]) == register_of(argument_views(arguments@)[k]));
    }
    Some(registers)
}

/// Finds the second operand at the end of the arguments of a
/// data-processing instruction.
fn take_data_operand(arguments: &Vec<Argument>) -> (r: Option<(DataOperand, usize)>)
    ensures
        match data_operand_of(argument_views(arguments@)) {
            Some((operand, before)) => r matches Some(got) && got.0@ == operand && got.1
                == before && got.1 < arguments@.len(),
            None => r is None,
        },
{
    let count = arguments.len();
    if count == 0 {
        return None;
    }
    let last = &arguments[count - 1];
    match as_register(last) {
        Some(register) => {
            return Some((DataOperand::Register(register, Shift::default()), count - 1));
        },
        None => {},
    }
    match as_shift(last) {
        Some(shift) => {
            if count >= 2 {
                match as_register(&arguments[count - 2]) {
                    Some(register) => {
                        return Some((DataOperand::Register(register, shift), count - 2));
                    },
                    None => {
                        return None;
                    },
                }
            } else {
                return None;
            }
        },
        None => {},
    }
    match as_expression(last) {
        Some(expression) => Some((DataOperand::Constant(expression), count - 1)),
        None => None,
    }
}

/// Processes a data-processing instruction.
fn process_data_instruction(
    set_condition_codes: bool,
    op: DataOp,
    arguments: &Vec<Argument>,
    counter: u32,
) -> (r: Option<(Vec<Processed>, u32)>)
    ensures
        processed(r, process_data(set_condition_codes, op, argument_views(arguments@), counter)),
{
    let (op2, before) = match take_data_operand(arguments) {
        Some(found) => found,
        None => {
            return None;
        },
    };
    if before < 1 {
        return None;
    }
    let first = match as_register(&arguments[0]) {
        Some(register) => register,
        None => {
            return None;
        },
    };
    if op.is_test() {
        if before == 1 {
            only(
                AsmInstr::Data { set_condition_codes, op, dest: Register::R0, op1: first, op2 },
                counter,
            )
        } else {
            None
        }
    } else if op == DataOp::Mov || op == DataOp::Mvn {
        if before == 1 {
            only(
                AsmInstr::Data { set_condition_codes, op, dest: first, op1: Register::R0, op2 },
                counter,
            )
        } else {
            None
        }
    } else if before == 1 {
        only(AsmInstr::Data { set_condition_codes, op, dest: first, op1: first, op2 }, counter)
    } else if before == 2 {
        match as_register(&arguments[1]) {
            Some(op1) => only(
                AsmInstr::Data { set_condition_codes, op, dest: first, op1, op2 },
                counter,
            ),
            None => None,
        }
    } else {
        None
    }
}

/// The move that a shift mnemonic stands for.
fn make_shift_move(set_condition_codes: bool, dest: Register, source: Register, shift: Shift) -> (r:
    AsmInstr)
    ensures
        r@ == shift_move(set_condition_codes, dest, source, shift@),
{
    AsmInstr::Data {
        set_condition_codes,
        op: DataOp::Mov,
        dest,
        op1: Register::R0,
        op2: DataOperand::Register(source, shift),
    }
}

/// Processes a shift used as an instruction.
fn process_shift_instruction(
    set_condition_codes: bool,
    shift_type: ShiftType,
    arguments: &Vec<Argument>,
    counter: u32,
) -> (r: Option<(Vec<Processed>, u32)>)
    ensures
        processed(
            r,
            process_shift(set_condition_codes, shift_type, argument_views(arguments@), counter),
        ),
{
    let count = arguments.len();
    if shift_type == ShiftType::RotateRightExtended {
        if count != 1 && count != 2 {
            return None;
        }
        let registers = match leading_registers(arguments, count) {
            Some(registers) => registers,
            None => {
                return None;
            },
        };
        let shift = Shift {
            shift_type: ShiftType::RotateRightExtended,
            shift_amount: ShiftAmount::Constant(Expression::Constant(1)),
        };
        only(
            make_shift_move(set_condition_codes, registers[0], registers[count - 1], shift),
            counter,
        )
    } else {
        if count != 2 && count != 3 {
            return None;
        }
        let registers = match leading_registers(arguments, count - 1) {
            Some(registers) => registers,
            None => {
                return None;
            },
        };
        match as_amount(&arguments[count - 1]) {
            Some(shift_amount) => only(
                make_shift_move(
                    set_condition_codes,
                    registers[0],
                    registers[count - 2],
                    Shift { shift_type, shift_amount },
                ),
                counter,
            ),
            None => None,
        }
    }
}

/// Finds the offset inside the brackets of a pre-indexed address.
fn take_bracket_offset(operands: &Vec<Operand>) -> (r: Option<(bool, DataOperand)>)
    ensures
        match bracket_offset(crate::assemble::parser::argument::operand_views(operands@)) {
            Some((positive, offset)) => r matches Some(got) && got.0 == positive && got.1@
                == offset,
            None => r is None,
        },
{
    let count = operands.len();
    if count == 0 {
        Some((true, DataOperand::Constant(Expression::Constant(0))))
    } else if count == 1 {
        match &operands[0] {
            Operand::Expression(expression) => Some(
                (true, DataOperand::Constant(expression.clone())),
            ),
            Operand::Register(register) => Some(
                (true, DataOperand::Register(*register, Shift::default())),
            ),
            Operand::SignedRegister(positive, register) => Some(
                (*positive, DataOperand::Register(*register, Shift::default())),
            ),
            _ => None,
        }
    } else if count == 2 {
        match &operands[1] {
            Operand::Shift(shift) => match &operands[0] {
                Operand::Register(register) => Some(
                    (true, DataOperand::Register(*register, shift.clone())),
                ),
                Operand::SignedRegister(positive, register) => Some(
                    (*positive, DataOperand::Register(*register, shift.clone())),
                ),
                _ => None,
            },
            _ => None,
        }
    } else {
        None
    }
}

/// Finds the offset behind the brackets of a post-indexed address.
fn take_trailing_offset(arguments: &Vec<Argument>) -> (r: Option<(bool, DataOperand)>)
    requires
        arguments@.len() >= 3,
    ensures
        match trailing_offset(argument_views(arguments@)) {
            Some((positive, offset)) => r matches Some(got) && got.0 == positive && got.1@
                == offset,
            None => r is None,
        },
{
    let count = arguments.len();
    if count == 3 {
        match as_expression(&arguments[2]) {
            Some(expression) => {
                return Some((true, DataOperand::Constant(expression)));
            },
            None => {},
        }
        match as_signed_register(&arguments[2]) {
            Some((positive, register)) => Some(
                (positive, DataOperand::Register(register, Shift::default())),
            ),
            None => None,
        }
    } else if count == 4 {
        match as_signed_register(&arguments[2]) {
            Some((positive, register)) => match as_shift(&arguments[3]) {
                Some(shift) => Some((positive, DataOperand::Register(register, shift))),
                None => None,
            },
            None => None,
        }
    } else {
        None
    }
}

/// Makes up the name of the label with number `index`.
pub fn generate_label(index: u32) -> (r: String)
    ensures
        r@ == generated_label(index),
{
    let mut name = String::from_str("__generatedlabel_");
    write_decimal(&mut name, index);
    name
}

/// Processes a load from, or a store to, an address given by an
/// expression.
fn process_literal_transfer(
    kind: TransferKind,
    size: AnyTransferSize,
    data_register: Register,
    address: Expression,
    counter: u32,
) -> (r: (Vec<Processed>, u32))
    ensures
        processed_views(r.0@) == seq![
            ProcessedView::Instr(
                AsmInstrView::SingleTransfer {
                    kind,
                    size,
                    write_back: false,
                    offset_positive: true,
                    pre_index: true,
                    data_register,
                    base_register: Register::R15,
                    offset: literal_offset(address@, generated_label(counter)),
                },
            ),
            ProcessedView::Label(generated_label(counter)),
        ],
        r.1 == counter.wrapping_add(1),
{
    // Work out an offset to the given address, or rather, make the
    // assembler do the calculation shortly. Because healing may put
    // instructions before the load, the label stands *behind* the
    // instruction that refers to it.
    let here = generate_label(counter);
    let ghost target = address@;
    let label = Expression::Label(here.clone());
    assert(label@ == ExpressionView::Label(generated_label(counter)));
    let four = Expression::Constant(4);
    assert(four@ == ExpressionView::Constant(4));
    let past = Expression::Add(Box::new(label), Box::new(four));
    assert(past@ == ExpressionView::Add(
        Box::new(ExpressionView::Label(generated_label(counter))),
        Box::new(ExpressionView::Constant(4)),
    ));
    let distance = Expression::Sub(Box::new(address), Box::new(past));
    assert(distance@ == ExpressionView::Sub(Box::new(target), Box::new(past@)));
    let offset = DataOperand::Constant(distance);
    assert(offset@ == literal_offset(target, generated_label(counter)));
    let instr = AsmInstr::SingleTransfer {
        kind,
        size,
        write_back: false,
        offset_positive: true,
        pre_index: true,
        data_register,
        base_register: Register::R15,
        offset,
    };
    let mut items = Vec::new();
    items.push(Processed::Instr(instr));
    items.push(Processed::Label(here));
    assert(processed_views(items@) =~= seq![
        ProcessedView::Instr(
            AsmInstrView::SingleTransfer {
                kind,
                size,
                write_back: false,
                offset_positive: true,
                pre_index: true,
                data_register,
                base_register: Register::R15,
                offset: literal_offset(address@, generated_label(counter)),
            },
        ),
        ProcessedView::Label(generated_label(counter)),
    ]);
    (items, counter.wrapping_add(1))
}

/// Processes a single transfer.
fn process_transfer_instruction(
    kind: TransferKind,
    size: AnyTransferSize,
    t_flag: bool,
    arguments: &Vec<Argument>,
    counter: u32,
) -> (r: Option<(Vec<Processed>, u32)>)
    ensures
        processed(r, process_transfer(kind, size, t_flag, argument_views(arguments@), counter)),
{
    let count = arguments.len();
    if count < 2 {
        return None;
    }
    let data_register = match as_register(&arguments[0]) {
        Some(register) => register,
        None => {
            return None;
        },
    };
    if count == 2 {
        if t_flag {
            return None;
        }
        match &arguments[1] {
            Argument::Plain(Operand::Expression(address)) => Some(
                process_literal_transfer(kind, size, data_register, address.clone(), counter),
            ),
            Argument::Address { base_register, operands, write_back } => {
                // This is a pre-indexed addressing specification.
                match take_bracket_offset(operands) {
                    Some((offset_positive, offset)) => only(
                        AsmInstr::SingleTransfer {
                            kind,
                            size,
                            write_back: *write_back,
                            offset_positive,
                            pre_index: true,
                            data_register,
                            base_register: *base_register,
                            offset,
                        },
                        counter,
                    ),
                    None => None,
                }
            },
            _ => None,
        }
    } else {
        // This is a post-indexed addressing specification.
        let base_register = as_bare_address(&arguments[1]);
        let offset = take_trailing_offset(arguments);
        match (base_register, offset) {
            (Some(base_register), Some((offset_positive, offset))) => only(
                AsmInstr::SingleTransfer {
                    kind,
                    size,
                    write_back: t_flag,
                    offset_positive,
                    pre_index: false,
                    data_register,
                    base_register,
                    offset,
                },
                counter,
            ),
            _ => None,
        }
    }
}

/// Processes the words of a `DEFW`.
fn process_word_list(arguments: &Vec<Argument>) -> (r: Option<Vec<Processed>>)
    ensures
        match process_words(argument_views(arguments@), arguments@.len() as int) {
            Some(words) => r matches Some(got) && processed_views(got@) == words,
            None => r is None,
        },
{
    let mut items: Vec<Processed> = Vec::new();
    let mut i: usize = 0;
    assert(processed_views(items@) =~= Seq::empty());
    while i < arguments.len()
        invariant
            i <= arguments@.len(),
            process_words(argument_views(arguments@), i as int) == Some(processed_views(items@)),
        decreases arguments@.len() - i,
    {
        let ghost before = processed_views(items@);
        match as_expression(&arguments[i]) {
            Some(expression) => {
                items.push(Processed::DefW(expression));
                assert(processed_views(items@) =~= before.push(ProcessedView::DefW(expression@)));
            },
            None => {
                proof {
                    lemma_words_fail(argument_views(arguments@), i as int, arguments@.len() as int);
                }
                return None;
            },
        }
        i += 1;
    }
    Some(items)
}

/// An argument that is no expression spoils the words of a `DEFW`.
proof fn lemma_words_fail(arguments: Seq<ArgumentView>, bad: int, count: int)
    requires
        0 <= bad < count <= arguments.len(),
        expression_of(arguments[bad]) is None,
    ensures
        process_words(arguments, count) is None,
    decreases count,
{
    if bad < count - 1 {
        lemma_words_fail(arguments, bad, count - 1);
    }
}

/// Processes the instructions whose arguments are all registers, or
/// registers before one argument of another kind.
fn process_register_instruction(opcode: Opcode, arguments: &Vec<Argument>, counter: u32) -> (r:
    Option<(Vec<Processed>, u32)>)
    requires
        opcode is BranchExchange || opcode is Adr || opcode is Mrs || opcode is Mul || opcode
            is MulLong || opcode is Swap,
    ensures
        processed(r, spec_process_instruction(opcode, argument_views(arguments@), counter)),
{
    let count = arguments.len();
    match opcode {
        Opcode::BranchExchange => {
            if count != 1 {
                return None;
            }
            match leading_registers(arguments, 1) {
                Some(registers) => only(AsmInstr::BranchExchange { operand: registers[0] }, counter),
                None => None,
            }
        },
        Opcode::Adr => {
            if count != 2 {
                return None;
            }
            match (leading_registers(arguments, 1), as_expression(&arguments[1])) {
                (Some(registers), Some(expr)) => only(
                    AsmInstr::Adr { long: false, dest: registers[0], expr },
                    counter,
                ),
                _ => None,
            }
        },
        Opcode::Mrs => {
            if count != 2 {
                return None;
            }
            let registers = match leading_registers(arguments, 1) {
                Some(registers) => registers,
                None => {
                    return None;
                },
            };
            match &arguments[1] {
                Argument::Plain(Operand::Psr { psr, flag }) => {
                    if !*flag {
                        only(AsmInstr::Mrs { psr: *psr, target: registers[0] }, counter)
                    } else {
                        None
                    }
                },
                _ => None,
            }
        },
        Opcode::Mul(set_condition_codes, accumulate) => {
            if !accumulate && count == 3 {
                match leading_registers(arguments, 3) {
                    Some(registers) => only(
                        AsmInstr::Multiply {
                            set_condition_codes,
                            dest: registers[0],
                            op1: registers[1],
                            op2: registers[2],
                            addend: None,
                        },
                        counter,
                    ),
                    None => None,
                }
            } else if accumulate && count == 4 {
                match leading_registers(arguments, 4) {
                    Some(registers) => only(
                        AsmInstr::Multiply {
                            set_condition_codes,
                            dest: registers[0],
                            op1: registers[1],
                            op2: registers[2],
                            addend: Some(registers[3]),
                        },
                        counter,
                    ),
                    None => None,
                }
            } else {
                None
            }
        },
        Opcode::MulLong(set_condition_codes, signed, accumulate) => {
            if count != 4 {
                return None;
            }
            match leading_registers(arguments, 4) {
                Some(registers) => only(
                    AsmInstr::MultiplyLong {
                        set_condition_codes,
                        signed,
                        accumulate,
                        dest_hi: registers[1],
                        dest_lo: registers[0],
                        op1: registers[2],
                        op2: registers[3],
                    },
                    counter,
                ),
                None => None,
            }
        },
        Opcode::Swap(byte) => {
            if count != 3 {
                return None;
            }
            match (leading_registers(arguments, 2), as_bare_address(&arguments[2])) {
                (Some(registers), Some(base)) => only(
                    AsmInstr::Swap { byte, dest: registers[0], source: registers[1], base },
                    counter,
                ),
                _ => None,
            }
        },
        _ => None,
    }
}

/// Processes an MSR.
fn process_msr_instruction(arguments: &Vec<Argument>, counter: u32) -> (r: Option<(Vec<Processed>, u32)>)
    ensures
        processed(r, spec_process_instruction(Opcode::Msr, argument_views(arguments@), counter)),
{
    if arguments.len() != 2 {
        return None;
    }
    match &arguments[0] {
        Argument::Plain(Operand::Psr { psr, flag }) => {
            match as_register(&arguments[1]) {
                Some(register) => {
                    return only(
                        AsmInstr::Msr {
                            psr: *psr,
                            source: if *flag {
                                MsrSource::RegisterFlags(register)
                            } else {
                                MsrSource::Register(register)
                            },
                        },
                        counter,
                    );
                },
                None => {},
            }
            if *flag {
                match as_expression(&arguments[1]) {
                    Some(expression) => only(
                        AsmInstr::Msr { psr: *psr, source: MsrSource::Flags(expression) },
                        counter,
                    ),
                    None => None,
                }
            } else {
                None
            }
        },
        _ => None,
    }
}

/// Processes the instructions and directives that take one expression.
fn process_expression_instruction(opcode: Opcode, arguments: &Vec<Argument>, counter: u32) -> (r:
    Option<(Vec<Processed>, u32)>)
    requires
        opcode is Branch || opcode is Swi || opcode is Equ,
    ensures
        processed(r, spec_process_instruction(opcode, argument_views(arguments@), counter)),
{
    if arguments.len() != 1 {
        return None;
    }
    let expression = match as_expression(&arguments[0]) {
        Some(expression) => expression,
        None => {
            return None;
        },
    };
    match opcode {
        Opcode::Branch { link } => only(AsmInstr::Branch { link, target: expression }, counter),
        Opcode::Swi => only(AsmInstr::SoftwareInterrupt { comment: expression }, counter),
        _ => {
            let mut items = Vec::new();
            items.push(Processed::Equ(expression));
            assert(processed_views(items@) =~= seq![ProcessedView::Equ(expression@)]);
            Some((items, counter))
        },
    }
}

/// How the arguments of an opcode are written.
pub open spec fn spec_usage(opcode: Opcode) -> Seq<char> {
    match opcode {
        Opcode::BranchExchange => "syntax: BX Rm"@,
        Opcode::Branch { link } => "syntax: B{L} <expression>"@,
        Opcode::Adr => "syntax: ADR Rd,<expression>"@,
        Opcode::Nop => "syntax: NOP"@,
        Opcode::Data(_, op) => if op.spec_is_test() {
            "syntax: <op> Rn,<Op2>"@
        } else if op == DataOp::Mov || op == DataOp::Mvn {
            "syntax: <op> Rd,<Op2>"@
        } else {
            "syntax: <op> Rd,Rn,<Op2>"@
        },
        Opcode::Shift(_, shift_type) => if shift_type == ShiftType::RotateRightExtended {
            "syntax: RRX Rd{,Rm}"@
        } else {
            "syntax: <shift> Rd{,Rm},<amount>"@
        },
        Opcode::Mrs => "syntax: MRS Rd,<psr>"@,
        Opcode::Msr => "syntax: MSR <psr>,Rm or MSR <psr>_flg,<expression>"@,
        Opcode::Mul(_, accumulate) => if accumulate {
            "syntax: MLA Rd,Rm,Rs,Rn"@
        } else {
            "syntax: MUL Rd,Rm,Rs"@
        },
        Opcode::MulLong(_, _, _) => "syntax: <op> RdLo,RdHi,Rm,Rs"@,
        Opcode::SingleTransfer(_, _, _) => "syntax: <op> Rd,<address>"@,
        Opcode::BlockTransfer(_, _, _) => "block transfers have no syntax yet"@,
        Opcode::Swap(_) => "syntax: SWP Rd,Rm,[Rn]"@,
        Opcode::Swi => "syntax: SWI <expression>"@,
        Opcode::Equ => "syntax: <label> EQU <expression>"@,
        Opcode::DefW => "syntax: DEFW <expression>,...,<expression>"@,
    }
}

/// Says how the arguments of an opcode are written.
pub fn usage(opcode: Opcode) -> (r: &'static str)
    ensures
        r@ == spec_usage(opcode),
{
    match opcode {
        Opcode::BranchExchange => "syntax: BX Rm",
        Opcode::Branch { link } => "syntax: B{L} <expression>",
        Opcode::Adr => "syntax: ADR Rd,<expression>",
        Opcode::Nop => "syntax: NOP",
        Opcode::Data(_, op) => if op.is_test() {
            "syntax: <op> Rn,<Op2>"
        } else if op == DataOp::Mov || op == DataOp::Mvn {
            "syntax: <op> Rd,<Op2>"
        } else {
            "syntax: <op> Rd,Rn,<Op2>"
        },
        Opcode::Shift(_, shift_type) => if shift_type == ShiftType::RotateRightExtended {
            "syntax: RRX Rd{,Rm}"
        } else {
            "syntax: <shift> Rd{,Rm},<amount>"
        },
        Opcode::Mrs => "syntax: MRS Rd,<psr>",
        Opcode::Msr => "syntax: MSR <psr>,Rm or MSR <psr>_flg,<expression>",
        Opcode::Mul(_, accumulate) => if accumulate {
            "syntax: MLA Rd,Rm,Rs,Rn"
        } else {
            "syntax: MUL Rd,Rm,Rs"
        },
        Opcode::MulLong(_, _, _) => "syntax: <op> RdLo,RdHi,Rm,Rs",
        Opcode::SingleTransfer(_, _, _) => "syntax: <op> Rd,<address>",
        Opcode::BlockTransfer(_, _, _) => "block transfers have no syntax yet",
        Opcode::Swap(_) => "syntax: SWP Rd,Rm,[Rn]",
        Opcode::Swi => "syntax: SWI <expression>",
        Opcode::Equ => "syntax: <label> EQU <expression>",
        Opcode::DefW => "syntax: DEFW <expression>,...,<expression>",
    }
}

/// Works out what an opcode and its arguments stand for, if they stand
/// for anything.
fn process_items(opcode: Opcode, arguments: &Vec<Argument>, counter: u32) -> (r: Option<
    (Vec<Processed>, u32),
>)
    ensures
        processed(r, spec_process_instruction(opcode, argument_views(arguments@), counter)),
{
    match opcode {
        Opcode::BranchExchange | Opcode::Adr | Opcode::Mrs | Opcode::Mul(_, _) | Opcode::MulLong(
            _,
            _,
            _,
        ) | Opcode::Swap(_) => process_register_instruction(opcode, arguments, counter),
        Opcode::Branch { .. } | Opcode::Swi | Opcode::Equ => process_expression_instruction(
            opcode,
            arguments,
            counter,
        ),
        Opcode::Nop => {
            if arguments.len() == 0 {
                // A simple NOP instruction.
                only(
                    AsmInstr::Data {
                        set_condition_codes: false,
                        op: DataOp::Mov,
                        dest: Register::R8,
                        op1: Register::R0,
                        op2: DataOperand::Register(Register::R8, Shift::default()),
                    },
                    counter,
                )
            } else {
                None
            }
        },
        Opcode::Data(set_condition_codes, op) => process_data_instruction(
            set_condition_codes,
            op,
            arguments,
            counter,
        ),
        Opcode::Shift(set_condition_codes, shift_type) => process_shift_instruction(
            set_condition_codes,
            shift_type,
            arguments,
            counter,
        ),
        Opcode::Msr => process_msr_instruction(arguments, counter),
        Opcode::SingleTransfer(kind, size, t_flag) => process_transfer_instruction(
            kind,
            size,
            t_flag,
            arguments,
            counter,
        ),
        Opcode::BlockTransfer(_, _, _) => None,
        Opcode::DefW => match process_word_list(arguments) {
            Some(items) => Some((items, counter)),
            None => None,
        },
    }
}

/// Works out what an opcode and its arguments stand for. `counter` is the
/// number of the next label to make up; the number after the last one made
/// up is returned. Arguments that the opcode cannot take are answered
/// with how its arguments are written.
pub(crate) fn process_instruction(opcode: Opcode, arguments: &Vec<Argument>, counter: u32) -> (r:
    Result<(Vec<Processed>, u32), &'static str>)
    ensures
        match spec_process_instruction(opcode, argument_views(arguments@), counter) {
            Some((items, counter_after)) => r matches Ok(got) && processed_views(got.0@) == items
                && got.1 == counter_after,
            None => r matches Err(message) && message@ == spec_usage(opcode),
        },
{
    match process_items(opcode, arguments, counter) {
        Some(items) => Ok(items),
        None => Err(usage(opcode)),
    }
}

} // verus!
