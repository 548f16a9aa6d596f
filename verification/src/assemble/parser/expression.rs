//! Expressions: constants and labels joined by operators.

use vstd::prelude::*;
use crate::assemble::keywords::matches_word;
use crate::assemble::keywords::word_is;
use crate::assemble::keywords::Opcode;
use crate::assemble::lexer::Token;
use crate::assemble::lexer::TokenKind;
use crate::assemble::parser::argument::kind_at;
use crate::assemble::parser::failure_at;
use crate::assemble::parser::failure_view;
use crate::assemble::parser::FailureView;
use crate::assemble::parser::tokens_wf;
use crate::assemble::parser::ParseFailure;
use crate::assemble::parser::Source;
use crate::assemble::syntax::Expression;
use crate::assemble::syntax::ExpressionView;
use crate::instr::ty::Cond;
use crate::instr::ty::ShiftType;

verus! {

/// The operators that join two expressions.
#[derive(Debug, Clone, Copy, PartialEq, Eq, Structural)]
pub enum BinaryOp {
    Mul,
    Div,
    Add,
    Sub,
    Or,
    Lsl,
    Lsr,
    Asr,
    Ror,
}

/// The level of `or`, which binds least.
pub const LEVEL_OR: u8 = 0;

/// The level of the shifts and the rotation.
pub const LEVEL_SHIFT: u8 = 1;

/// The level of `+` and `-`.
pub const LEVEL_ADDITIVE: u8 = 2;

/// The level of `*` and `/`, which bind most.
pub const LEVEL_MULTIPLICATIVE: u8 = 3;

/// The level of what the operators join: numbers, labels, and expressions
/// in parentheses.
pub const LEVEL_ATOM: u8 = 4;

/// Two expressions joined by an operator.
pub open spec fn combine_view(op: BinaryOp, left: ExpressionView, right: ExpressionView)
    -> ExpressionView {
    match op {
        BinaryOp::Mul => ExpressionView::Mul(Box::new(left), Box::new(right)),
        BinaryOp::Div => ExpressionView::Div(Box::new(left), Box::new(right)),
        BinaryOp::Add => ExpressionView::Add(Box::new(left), Box::new(right)),
        BinaryOp::Sub => ExpressionView::Sub(Box::new(left), Box::new(right)),
        BinaryOp::Or => ExpressionView::Or(Box::new(left), Box::new(right)),
        BinaryOp::Lsl => ExpressionView::Lsl(Box::new(left), Box::new(right)),
        BinaryOp::Lsr => ExpressionView::Lsr(Box::new(left), Box::new(right)),
        BinaryOp::Asr => ExpressionView::Asr(Box::new(left), Box::new(right)),
        BinaryOp::Ror => ExpressionView::Ror(Box::new(left), Box::new(right)),
    }
}

/// The operator of a level that the token at `pos` is, if it is one:
/// - the word `or`;
/// - `lsl`, `asl`, `lsr`, `asr` and `ror`, without a condition or suffix;
/// - `+` and `-`;
/// - `*` and `/`.
pub open spec fn operator_at(src: Seq<char>, tokens: Seq<Token>, pos: int, level: nat) -> Option<
    BinaryOp,
> {
    if pos < 0 || pos >= tokens.len() {
        None
    } else {
        let token = tokens[pos];
        if level == LEVEL_OR {
            if token.kind == TokenKind::Name && word_is(
                src,
                token.start as int,
                token.end as int,
                "or"@,
            ) {
                Some(BinaryOp::Or)
            } else {
                None
            }
        } else if level == LEVEL_SHIFT {
            match token.kind {
                TokenKind::Opcode(Cond::AL, Opcode::Shift(false, shift_type)) => match shift_type {
                    ShiftType::LogicalLeft => Some(BinaryOp::Lsl),
                    ShiftType::LogicalRight => Some(BinaryOp::Lsr),
                    ShiftType::ArithmeticRight => Some(BinaryOp::Asr),
                    ShiftType::RotateRight => Some(BinaryOp::Ror),
                    ShiftType::RotateRightExtended => None,
                },
                _ => None,
            }
        } else if level == LEVEL_ADDITIVE {
            match token.kind {
                TokenKind::Add => Some(BinaryOp::Add),
                TokenKind::Sub => Some(BinaryOp::Sub),
                _ => None,
            }
        } else if level == LEVEL_MULTIPLICATIVE {
            match token.kind {
                TokenKind::Mul => Some(BinaryOp::Mul),
                TokenKind::Div => Some(BinaryOp::Div),
                _ => None,
            }
        } else {
            None
        }
    }
}

/// The expression of a level that starts at token `pos`, and the place of
/// the token behind it; or where and why none starts there.
///
/// An expression of a level below `LEVEL_ATOM` is one or more expressions
/// of the next level, joined from left to right by operators of the level.
/// An atom is a number, with or without `#` before it, a name, or an
/// expression in parentheses.
pub open spec fn spec_parse_level(src: Seq<char>, tokens: Seq<Token>, pos: int, level: nat)
    -> Result<(ExpressionView, int), FailureView>
    decreases tokens.len() - pos, 2 * (LEVEL_ATOM - level) + 1,
{
    if pos < 0 || pos >= tokens.len() {
        Err(failure_view(src, tokens, pos, "expected an expression"@))
    } else if level >= LEVEL_ATOM {
        match tokens[pos].kind {
            TokenKind::Integer(value) => Ok((ExpressionView::Constant(value), pos + 1)),
            TokenKind::Hash => match kind_at(tokens, pos + 1) {
                Some(TokenKind::Integer(value)) => Ok((ExpressionView::Constant(value), pos + 2)),
                _ => Err(failure_view(src, tokens, pos + 1, "expected a number after '#'"@)),
            },
            TokenKind::Name => Ok(
                (
                    ExpressionView::Label(
                        src.subrange(tokens[pos].start as int, tokens[pos].end as int),
                    ),
                    pos + 1,
                ),
            ),
            TokenKind::LParen => match spec_parse_level(src, tokens, pos + 1, LEVEL_OR as nat) {
                Ok((inner, next)) => if pos < next && kind_at(tokens, next) == Some(
                    TokenKind::RParen,
                ) {
                    Ok((inner, next + 1))
                } else {
                    Err(failure_view(src, tokens, next, "expected ')'"@))
                },
                Err(failure) => Err(failure),
            },
            _ => Err(failure_view(src, tokens, pos, "expected an expression"@)),
        }
    } else {
        match spec_parse_level(src, tokens, pos, level + 1) {
            Ok((left, next)) => if pos < next <= tokens.len() {
                spec_parse_tail(src, tokens, left, next, level)
            } else {
                Err(failure_view(src, tokens, pos, "expected an expression"@))
            },
            Err(failure) => Err(failure),
        }
    }
}

/// What follows a left operand of a level: as long as an operator of the
/// level follows, its right operand, joined to what stands to the left.
pub open spec fn spec_parse_tail(
    src: Seq<char>,
    tokens: Seq<Token>,
    left: ExpressionView,
    pos: int,
    level: nat,
) -> Result<(ExpressionView, int), FailureView>
    decreases tokens.len() - pos, 2 * (LEVEL_ATOM - level),
{
    if level >= LEVEL_ATOM {
        Ok((left, pos))
    } else {
        match operator_at(src, tokens, pos, level) {
            None => Ok((left, pos)),
            Some(op) => match spec_parse_level(src, tokens, pos + 1, level + 1) {
                Err(failure) => Err(failure),
                Ok((right, next)) => if pos < next <= tokens.len() {
                    spec_parse_tail(src, tokens, combine_view(op, left, right), next, level)
                } else {
                    Err(failure_view(src, tokens, pos, "expected an expression"@))
                },
            },
        }
    }
}

/// The expression that starts at token `pos`.
pub open spec fn spec_parse_expression(src: Seq<char>, tokens: Seq<Token>, pos: int) -> Result<
    (ExpressionView, int),
    FailureView,
> {
    spec_parse_level(src, tokens, pos, LEVEL_OR as nat)
}

/// Whether a result is the expected value at the expected place, which is
/// behind `pos` and within the tokens; or the expected failure.
pub open spec fn parsed<T: View>(
    result: Result<(T, usize), ParseFailure>,
    expected: Result<(T::V, int), FailureView>,
    pos: usize,
    length: nat,
) -> bool {
    match expected {
        Ok((value, next)) => result matches Ok(got) && got.0@ == value && got.1 == next && pos
            < got.1 <= length,
        Err(failure) => result matches Err(got) && got@ == failure,
    }
}

/// Joins two expressions by an operator.
pub fn combine(op: BinaryOp, left: Expression, right: Expression) -> (r: Expression)
    ensures
        r@ == combine_view(op, left@, right@),
{
    match op {
        BinaryOp::Mul => Expression::Mul(Box::new(left), Box::new(right)),
        BinaryOp::Div => Expression::Div(Box::new(left), Box::new(right)),
        BinaryOp::Add => Expression::Add(Box::new(left), Box::new(right)),
        BinaryOp::Sub => Expression::Sub(Box::new(left), Box::new(right)),
        BinaryOp::Or => Expression::Or(Box::new(left), Box::new(right)),
        BinaryOp::Lsl => Expression::Lsl(Box::new(left), Box::new(right)),
        BinaryOp::Lsr => Expression::Lsr(Box::new(left), Box::new(right)),
        BinaryOp::Asr => Expression::Asr(Box::new(left), Box::new(right)),
        BinaryOp::Ror => Expression::Ror(Box::new(left), Box::new(right)),
    }
}

/// Tells which operator of a level the token at `pos` is.
pub fn find_operator(source: &Source, tokens: &Vec<Token>, pos: usize, level: u8) -> (r: Option<
    BinaryOp,
>)
    requires
        source.wf(),
        tokens_wf(tokens@, source.chars@.len()),
    ensures
        r == operator_at(source.chars@, tokens@, pos as int, level as nat),
{
    if pos >= tokens.len() {
        return None;
    }
    let token = tokens[pos];
    if level == LEVEL_OR {
        if token.kind == TokenKind::Name && matches_word(
            &source.chars,
            token.start,
            token.end,
            "or",
        ) {
            Some(BinaryOp::Or)
        } else {
            None
        }
    } else if level == LEVEL_SHIFT {
        match token.kind {
            TokenKind::Opcode(Cond::AL, Opcode::Shift(false, shift_type)) => match shift_type {
                ShiftType::LogicalLeft => Some(BinaryOp::Lsl),
                ShiftType::LogicalRight => Some(BinaryOp::Lsr),
                ShiftType::ArithmeticRight => Some(BinaryOp::Asr),
                ShiftType::RotateRight => Some(BinaryOp::Ror),
                ShiftType::RotateRightExtended => None,
            },
            _ => None,
        }
    } else if level == LEVEL_ADDITIVE {
        match token.kind {
            TokenKind::Add => Some(BinaryOp::Add),
            TokenKind::Sub => Some(BinaryOp::Sub),
            _ => None,
        }
    } else if level == LEVEL_MULTIPLICATIVE {
        match token.kind {
            TokenKind::Mul => Some(BinaryOp::Mul),
            TokenKind::Div => Some(BinaryOp::Div),
            _ => None,
        }
    } else {
        None
    }
}

/// Parses the expression of a level that starts at token `pos`.
pub(crate) fn parse_level(source: &Source, tokens: &Vec<Token>, pos: usize, level: u8) -> (r: Result<
    (Expression, usize),
    ParseFailure,
>)
    requires
        source.wf(),
        tokens_wf(tokens@, source.chars@.len()),
    ensures
        parsed(
            r,
            spec_parse_level(source.chars@, tokens@, pos as int, level as nat),
            pos,
            tokens@.len(),
        ),
    decreases tokens@.len() - pos, 2 * (LEVEL_ATOM - level) + 1,
{
    let end = source.chars.len();
    if pos >= tokens.len() {
        return Err(failure_at(tokens, pos, end, "expected an expression"));
    }
    if level >= LEVEL_ATOM {
        let token = tokens[pos];
        match token.kind {
            TokenKind::Integer(value) => Ok((Expression::Constant(value), pos + 1)),
            TokenKind::Hash => {
                if pos + 1 < tokens.len() {
                    match tokens[pos + 1].kind {
                        TokenKind::Integer(value) => Ok((Expression::Constant(value), pos + 2)),
                        _ => Err(failure_at(tokens, pos + 1, end, "expected a number after '#'")),
                    }
                } else {
                    Err(failure_at(tokens, pos + 1, end, "expected a number after '#'"))
                }
            },
            TokenKind::Name => Ok(
                (Expression::Label(source.slice(token.start, token.end)), pos + 1),
            ),
            TokenKind::LParen => {
                let (inner, next) = parse_level(source, tokens, pos + 1, LEVEL_OR)?;
                if next < tokens.len() && tokens[next].kind == TokenKind::RParen {
                    Ok((inner, next + 1))
                } else {
                    Err(failure_at(tokens, next, end, "expected ')'"))
                }
            },
            _ => Err(failure_at(tokens, pos, end, "expected an expression")),
        }
    } else {
        let (left, next) = parse_level(source, tokens, pos, level + 1)?;
        parse_tail(source, tokens, left, next, level, Ghost(pos))
    }
}

/// Parses what follows a left operand of a level.
fn parse_tail(
    source: &Source,
    tokens: &Vec<Token>,
    left: Expression,
    pos: usize,
    level: u8,
    Ghost(start): Ghost<usize>,
) -> (r: Result<(Expression, usize), ParseFailure>)
    requires
        source.wf(),
        tokens_wf(tokens@, source.chars@.len()),
        start < pos <= tokens@.len(),
    ensures
        parsed(
            r,
            spec_parse_tail(source.chars@, tokens@, left@, pos as int, level as nat),
            start,
            tokens@.len(),
        ),
    decreases tokens@.len() - pos, 2 * (LEVEL_ATOM - level),
{
    if level >= LEVEL_ATOM {
        return Ok((left, pos));
    }
    match find_operator(source, tokens, pos, level) {
        None => Ok((left, pos)),
        Some(op) => {
            assert(pos < tokens.len());
            let (right, next) = parse_level(source, tokens, pos + 1, level + 1)?;
            parse_tail(source, tokens, combine(op, left, right), next, level, Ghost(start))
        },
    }
}

/// Parses the expression that starts at token `pos`.
pub(crate) fn parse_expression(source: &Source, tokens: &Vec<Token>, pos: usize) -> (r: Result<
    (Expression, usize),
    ParseFailure,
>)
    requires
        source.wf(),
        tokens_wf(tokens@, source.chars@.len()),
    ensures
        parsed(r, spec_parse_expression(source.chars@, tokens@, pos as int), pos, tokens@.len()),
{
    parse_level(source, tokens, pos, LEVEL_OR)
}

} // verus!
