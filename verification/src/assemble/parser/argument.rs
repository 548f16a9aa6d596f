//! The arguments of an instruction.

use vstd::prelude::*;
use crate::assemble::keywords::Opcode;
use crate::assemble::lexer::Token;
use crate::assemble::lexer::TokenKind;
use crate::assemble::parser::expression::parse_expression;
use crate::assemble::parser::expression::parsed;
use crate::assemble::parser::expression::spec_parse_expression;
use crate::assemble::parser::failure_at;
use crate::assemble::parser::failure_view;
use crate::assemble::parser::FailureView;
use crate::assemble::parser::tokens_wf;
use crate::assemble::parser::ParseFailure;
use crate::assemble::parser::Source;
use crate::assemble::syntax::Expression;
use crate::assemble::syntax::ExpressionView;
use crate::assemble::syntax::Shift;
use crate::assemble::syntax::ShiftAmount;
use crate::assemble::syntax::ShiftAmountView;
use crate::assemble::syntax::ShiftView;
use crate::instr::ty::Cond;
use crate::instr::ty::Psr;
use crate::instr::ty::Register;
use crate::instr::ty::ShiftType;

verus! {

/// An argument that is no address.
#[derive(Debug)]
pub enum Operand {
    Register(Register),
    /// The bool is whether the sign was positive.
    SignedRegister(bool, Register),
    Psr { psr: Psr, flag: bool },
    Shift(Shift),
    Expression(Expression),
}

/// An argument of an instruction.
#[derive(Debug)]
pub enum Argument {
    Plain(Operand),
    /// `[Rn{,operand}*]{!}`
    Address { base_register: Register, operands: Vec<Operand>, write_back: bool },
}

/// An operand with its labels as plain text.
pub enum OperandView {
    Register(Register),
    SignedRegister(bool, Register),
    Psr { psr: Psr, flag: bool },
    Shift(ShiftView),
    Expression(ExpressionView),
}

impl View for Operand {
    type V = OperandView;

    open spec fn view(&self) -> OperandView {
        match self {
            Operand::Register(register) => OperandView::Register(*register),
            Operand::SignedRegister(positive, register) => OperandView::SignedRegister(
                *positive,
                *register,
            ),
            Operand::Psr { psr, flag } => OperandView::Psr { psr: *psr, flag: *flag },
            Operand::Shift(shift) => OperandView::Shift(shift@),
            Operand::Expression(expression) => OperandView::Expression(expression@),
        }
    }
}

/// Operands with their labels as plain text.
pub open spec fn operand_views(operands: Seq<Operand>) -> Seq<OperandView> {
    Seq::new(operands.len(), |i: int| operands[i]@)
}

/// An argument with its labels as plain text.
pub enum ArgumentView {
    Plain(OperandView),
    Address { base_register: Register, operands: Seq<OperandView>, write_back: bool },
}

impl View for Argument {
    type V = ArgumentView;

    open spec fn view(&self) -> ArgumentView {
        match self {
            Argument::Plain(operand) => ArgumentView::Plain(operand@),
            Argument::Address { base_register, operands, write_back } => ArgumentView::Address {
                base_register: *base_register,
                operands: operand_views(operands@),
                write_back: *write_back,
            },
        }
    }
}

/// Arguments with their labels as plain text.
pub open spec fn argument_views(arguments: Seq<Argument>) -> Seq<ArgumentView> {
    Seq::new(arguments.len(), |i: int| arguments[i]@)
}

/// The kind of the token at `pos`, if there is one.
pub open spec fn kind_at(tokens: Seq<Token>, pos: int) -> Option<TokenKind> {
    if 0 <= pos < tokens.len() {
        Some(tokens[pos].kind)
    } else {
        None
    }
}

/// Rotate right extended, which takes no amount and stands for one bit.
pub open spec fn rrx_view() -> ShiftView {
    ShiftView {
        shift_type: ShiftType::RotateRightExtended,
        shift_amount: ShiftAmountView::Constant(ExpressionView::Constant(1)),
    }
}

/// The operand that starts at token `pos`, or where and why none does:
/// - a register;
/// - `+` or `-` and a register;
/// - `rrx`, or a shift and its amount, a register or an expression;
/// - a status register;
/// - an expression.
pub open spec fn spec_parse_operand(src: Seq<char>, tokens: Seq<Token>, pos: int) -> Result<
    (OperandView, int),
    FailureView,
> {
    match kind_at(tokens, pos) {
        None => Err(failure_view(src, tokens, pos, "expected an argument"@)),
        Some(TokenKind::Register(register)) => Ok((OperandView::Register(register), pos + 1)),
        Some(TokenKind::Add) => match kind_at(tokens, pos + 1) {
            Some(TokenKind::Register(register)) => Ok(
                (OperandView::SignedRegister(true, register), pos + 2),
            ),
            _ => Err(failure_view(src, tokens, pos, "expected signed register"@)),
        },
        Some(TokenKind::Sub) => match kind_at(tokens, pos + 1) {
            Some(TokenKind::Register(register)) => Ok(
                (OperandView::SignedRegister(false, register), pos + 2),
            ),
            _ => Err(failure_view(src, tokens, pos, "expected signed register"@)),
        },
        Some(TokenKind::Opcode(Cond::AL, Opcode::Shift(false, shift_type))) => if shift_type
            == ShiftType::RotateRightExtended {
            Ok((OperandView::Shift(rrx_view()), pos + 1))
        } else {
            match kind_at(tokens, pos + 1) {
                Some(TokenKind::Register(register)) => Ok(
                    (
                        OperandView::Shift(
                            ShiftView {
                                shift_type,
                                shift_amount: ShiftAmountView::Register(register),
                            },
                        ),
                        pos + 2,
                    ),
                ),
                _ => match spec_parse_expression(src, tokens, pos + 1) {
                    Ok((amount, next)) => Ok(
                        (
                            OperandView::Shift(
                                ShiftView {
                                    shift_type,
                                    shift_amount: ShiftAmountView::Constant(amount),
                                },
                            ),
                            next,
                        ),
                    ),
                    Err(failure) => Err(failure),
                },
            }
        },
        Some(TokenKind::Psr(psr, flag)) => Ok((OperandView::Psr { psr, flag }, pos + 1)),
        Some(_) => match spec_parse_expression(src, tokens, pos) {
            Ok((expression, next)) => Ok((OperandView::Expression(expression), next)),
            Err(failure) => Err(failure),
        },
    }
}

/// The operands that follow in an address, each after a comma, behind
/// those of `before`.
pub open spec fn spec_parse_operands(
    src: Seq<char>,
    tokens: Seq<Token>,
    pos: int,
    before: Seq<OperandView>,
) -> Result<(Seq<OperandView>, int), FailureView>
    decreases tokens.len() - pos,
{
    if kind_at(tokens, pos) == Some(TokenKind::Comma) {
        match spec_parse_operand(src, tokens, pos + 1) {
            Ok((operand, next)) => if pos < next <= tokens.len() {
                spec_parse_operands(src, tokens, next, before.push(operand))
            } else {
                Err(failure_view(src, tokens, pos, "expected an argument"@))
            },
            Err(failure) => Err(failure),
        }
    } else {
        Ok((before, pos))
    }
}

/// The argument that starts at token `pos`: an address, which is a base
/// register in square brackets, with operands behind it after commas, and
/// `!` behind the brackets for write-back; or an operand.
pub open spec fn spec_parse_argument(src: Seq<char>, tokens: Seq<Token>, pos: int) -> Result<
    (ArgumentView, int),
    FailureView,
> {
    if kind_at(tokens, pos) == Some(TokenKind::LSquare) {
        match kind_at(tokens, pos + 1) {
            Some(TokenKind::Register(base_register)) => match spec_parse_operands(
                src,
                tokens,
                pos + 2,
                Seq::empty(),
            ) {
                Ok((operands, next)) => if kind_at(tokens, next) == Some(TokenKind::RSquare) {
                    if kind_at(tokens, next + 1) == Some(TokenKind::Exclamation) {
                        Ok(
                            (
                                ArgumentView::Address { base_register, operands, write_back: true },
                                next + 2,
                            ),
                        )
                    } else {
                        Ok(
                            (
                                ArgumentView::Address {
                                    base_register,
                                    operands,
                                    write_back: false,
                                },
                                next + 1,
                            ),
                        )
                    }
                } else {
                    Err(failure_view(src, tokens, next, "expected ']'"@))
                },
                Err(failure) => Err(failure),
            },
            _ => Err(failure_view(src, tokens, pos + 1, "expected a base register after '['"@)),
        }
    } else {
        match spec_parse_operand(src, tokens, pos) {
            Ok((operand, next)) => Ok((ArgumentView::Plain(operand), next)),
            Err(failure) => Err(failure),
        }
    }
}

/// The arguments that follow, each after a comma, behind those of
/// `before`.
pub open spec fn spec_parse_more_arguments(
    src: Seq<char>,
    tokens: Seq<Token>,
    pos: int,
    before: Seq<ArgumentView>,
) -> Result<(Seq<ArgumentView>, int), FailureView>
    decreases tokens.len() - pos,
{
    if kind_at(tokens, pos) == Some(TokenKind::Comma) {
        match spec_parse_argument(src, tokens, pos + 1) {
            Ok((argument, next)) => if pos < next <= tokens.len() {
                spec_parse_more_arguments(src, tokens, next, before.push(argument))
            } else {
                Err(failure_view(src, tokens, pos, "expected an argument"@))
            },
            Err(failure) => Err(failure),
        }
    } else {
        Ok((before, pos))
    }
}

/// Whether the instruction is over at token `pos`: the tokens are, or a
/// comment starts.
pub open spec fn at_end(tokens: Seq<Token>, pos: int) -> bool {
    kind_at(tokens, pos) is None || kind_at(tokens, pos) == Some(TokenKind::Comment)
}

/// The arguments of an instruction from token `pos` on: none, or one and
/// more, separated by commas; or where and why they cannot be read.
pub open spec fn spec_parse_arguments(src: Seq<char>, tokens: Seq<Token>, pos: int) -> Result<
    (Seq<ArgumentView>, int),
    FailureView,
> {
    if at_end(tokens, pos) {
        Ok((Seq::empty(), pos))
    } else {
        match spec_parse_argument(src, tokens, pos) {
            Ok((argument, next)) => spec_parse_more_arguments(src, tokens, next, seq![argument]),
            Err(failure) => Err(failure),
        }
    }
}

/// The kind of the token at `pos`, if there is one.
pub fn token_kind(tokens: &Vec<Token>, pos: usize) -> (r: Option<TokenKind>)
    ensures
        r == kind_at(tokens@, pos as int),
        tokens@.len() <= usize::MAX,
{
    if pos < tokens.len() {
        Some(tokens[pos].kind)
    } else {
        None
    }
}

/// The kind of the token behind the one at `pos`, if there is one.
fn next_kind(tokens: &Vec<Token>, pos: usize) -> (r: Option<TokenKind>)
    requires
        pos < tokens@.len(),
    ensures
        r == kind_at(tokens@, pos + 1),
        pos + 1 <= usize::MAX,
{
    let length = tokens.len();
    token_kind(tokens, pos + 1)
}

/// Parses the operand that starts at token `pos`.
pub(crate) fn parse_operand(source: &Source, tokens: &Vec<Token>, pos: usize) -> (r: Result<
    (Operand, usize),
    ParseFailure,
>)
    requires
        source.wf(),
        tokens_wf(tokens@, source.chars@.len()),
    ensures
        parsed(r, spec_parse_operand(source.chars@, tokens@, pos as int), pos, tokens@.len()),
{
    let end = source.chars.len();
    match token_kind(tokens, pos) {
        None => Err(failure_at(tokens, pos, end, "expected an argument")),
        Some(TokenKind::Register(register)) => Ok((Operand::Register(register), pos + 1)),
        Some(TokenKind::Add) => match next_kind(tokens, pos) {
            Some(TokenKind::Register(register)) => Ok(
                (Operand::SignedRegister(true, register), pos + 2),
            ),
            _ => Err(failure_at(tokens, pos, end, "expected signed register")),
        },
        Some(TokenKind::Sub) => match next_kind(tokens, pos) {
            Some(TokenKind::Register(register)) => Ok(
                (Operand::SignedRegister(false, register), pos + 2),
            ),
            _ => Err(failure_at(tokens, pos, end, "expected signed register")),
        },
        Some(TokenKind::Opcode(Cond::AL, Opcode::Shift(false, shift_type))) => {
            if shift_type == ShiftType::RotateRightExtended {
                Ok(
                    (
                        Operand::Shift(
                            Shift {
                                shift_type: ShiftType::RotateRightExtended,
                                shift_amount: ShiftAmount::Constant(Expression::Constant(1)),
                            },
                        ),
                        pos + 1,
                    ),
                )
            } else {
                match next_kind(tokens, pos) {
                    Some(TokenKind::Register(register)) => Ok(
                        (
                            Operand::Shift(
                                Shift { shift_type, shift_amount: ShiftAmount::Register(register) },
                            ),
                            pos + 2,
                        ),
                    ),
                    _ => {
                        let (amount, next) = parse_expression(source, tokens, pos + 1)?;
                        Ok(
                            (
                                Operand::Shift(
                                    Shift { shift_type, shift_amount: ShiftAmount::Constant(amount) },
                                ),
                                next,
                            ),
                        )
                    },
                }
            }
        },
        Some(TokenKind::Psr(psr, flag)) => Ok((Operand::Psr { psr, flag }, pos + 1)),
        Some(_) => {
            let (expression, next) = parse_expression(source, tokens, pos)?;
            Ok((Operand::Expression(expression), next))
        },
    }
}

/// Parses the argument that starts at token `pos`.
pub(crate) fn parse_argument(source: &Source, tokens: &Vec<Token>, pos: usize) -> (r: Result<
    (Argument, usize),
    ParseFailure,
>)
    requires
        source.wf(),
        tokens_wf(tokens@, source.chars@.len()),
    ensures
        parsed(r, spec_parse_argument(source.chars@, tokens@, pos as int), pos, tokens@.len()),
{
    let end = source.chars.len();
    if token_kind(tokens, pos) != Some(TokenKind::LSquare) {
        let (operand, next) = parse_operand(source, tokens, pos)?;
        return Ok((Argument::Plain(operand), next));
    }
    let base_register = match next_kind(tokens, pos) {
        Some(TokenKind::Register(register)) => register,
        _ => {
            return Err(failure_at(tokens, pos + 1, end, "expected a base register after '['"));
        },
    };
    let mut operands: Vec<Operand> = Vec::new();
    let mut at = pos + 2;
    assert(operand_views(operands@) =~= Seq::empty());
    while token_kind(tokens, at) == Some(TokenKind::Comma)
        invariant
            source.wf(),
            tokens_wf(tokens@, source.chars@.len()),
            pos + 2 <= at <= tokens@.len(),
            kind_at(tokens@, pos as int) == Some(TokenKind::LSquare),
            kind_at(tokens@, pos + 1) == Some(TokenKind::Register(base_register)),
            spec_parse_operands(source.chars@, tokens@, at as int, operand_views(operands@))
                == spec_parse_operands(source.chars@, tokens@, pos + 2, Seq::empty()),
        decreases tokens@.len() - at,
    {
        let ghost before = operand_views(operands@);
        let (operand, next) = parse_operand(source, tokens, at + 1)?;
        operands.push(operand);
        assert(operand_views(operands@) =~= before.push(operand@));
        at = next;
    }
    if token_kind(tokens, at) != Some(TokenKind::RSquare) {
        return Err(failure_at(tokens, at, end, "expected ']'"));
    }
    if token_kind(tokens, at + 1) == Some(TokenKind::Exclamation) {
        Ok((Argument::Address { base_register, operands, write_back: true }, at + 2))
    } else {
        Ok((Argument::Address { base_register, operands, write_back: false }, at + 1))
    }
}

/// Whether a result is the expected arguments at the expected place, which
/// is within the tokens; or the expected failure.
pub open spec fn parsed_arguments(
    result: Result<(Vec<Argument>, usize), ParseFailure>,
    expected: Result<(Seq<ArgumentView>, int), FailureView>,
    pos: usize,
    length: nat,
) -> bool {
    match expected {
        Ok((arguments, next)) => result matches Ok(got) && argument_views(got.0@) == arguments
            && got.1 == next && pos <= got.1 <= length,
        Err(failure) => result matches Err(got) && got@ == failure,
    }
}

/// Parses the arguments of an instruction from token `pos` on.
pub(crate) fn parse_arguments(source: &Source, tokens: &Vec<Token>, pos: usize) -> (r: Result<
    (Vec<Argument>, usize),
    ParseFailure,
>)
    requires
        source.wf(),
        tokens_wf(tokens@, source.chars@.len()),
        pos <= tokens@.len(),
    ensures
        parsed_arguments(
            r,
            spec_parse_arguments(source.chars@, tokens@, pos as int),
            pos,
            tokens@.len(),
        ),
{
    let mut arguments: Vec<Argument> = Vec::new();
    match token_kind(tokens, pos) {
        None => {
            assert(argument_views(arguments@) =~= Seq::empty());
            return Ok((arguments, pos));
        },
        Some(TokenKind::Comment) => {
            assert(argument_views(arguments@) =~= Seq::empty());
            return Ok((arguments, pos));
        },
        Some(_) => {},
    }
    let (first, next) = parse_argument(source, tokens, pos)?;
    arguments.push(first);
    assert(argument_views(arguments@) =~= seq![first@]);
    let mut at = next;
    while token_kind(tokens, at) == Some(TokenKind::Comma)
        invariant
            source.wf(),
            tokens_wf(tokens@, source.chars@.len()),
            pos < at <= tokens@.len(),
            spec_parse_more_arguments(
                source.chars@,
                tokens@,
                at as int,
                argument_views(arguments@),
            ) == spec_parse_arguments(source.chars@, tokens@, pos as int),
        decreases tokens@.len() - at,
    {
        let ghost before = argument_views(arguments@);
        let (argument, next) = parse_argument(source, tokens, at + 1)?;
        arguments.push(argument);
        assert(argument_views(arguments@) =~= before.push(argument@));
        at = next;
    }
    Ok((arguments, at))
}

} // verus!
