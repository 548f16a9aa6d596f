//! The values of expressions.

use vstd::prelude::*;
use crate::assemble::error_on;
use crate::assemble::agrees;
use crate::assemble::labels::LabelTable;
use crate::assemble::syntax::Expression;
use crate::assemble::syntax::ExpressionView;
use crate::assemble::AssemblerError;
use crate::assemble::Expected;
use crate::assemble::LineError;
use crate::assemble::LineErrorView;
use crate::instr::bits::ror32;
use crate::instr::bits::rotate_right;
use crate::processor::shifter::arithmetic_shift_right;

verus! {

/// The two values, or the error of the first operand that has one.
pub open spec fn both(left: Expected<u32>, right: Expected<u32>) -> Expected<(u32, u32)> {
    match left {
        Err(e) => Err(e),
        Ok(a) => match right {
            Err(e) => Err(e),
            Ok(b) => Ok((a, b)),
        },
    }
}

/// The quotient of two words; a division by zero gives zero.
pub open spec fn quotient(a: u32, b: u32) -> u32 {
    if b == 0 {
        0
    } else {
        a / b
    }
}

/// A word shifted right by `b` modulo 32 with its sign kept.
pub open spec fn shift_right_signed(a: u32, b: u32) -> u32 {
    if b % 32 == 0 {
        a
    } else {
        arithmetic_shift_right(a, b % 32)
    }
}

impl ExpressionView {
    /// The value of the expression under a table of labels, or the error
    /// `LabelNotFound` for the first label, from left to right, that the
    /// table does not hold.
    ///
    /// All arithmetic is on 32-bit words and wraps; shifts and rotations
    /// are by their amount modulo 32.
    pub open spec fn evaluate(self, line_number: usize, labels: Map<Seq<char>, u32>)
        -> Expected<u32>
        decreases self,
    {
        match self {
            ExpressionView::Constant(value) => Ok(value),
            ExpressionView::Label(name) => if labels.contains_key(name) {
                Ok(labels[name])
            } else {
                Err(error_on(line_number, LineErrorView::LabelNotFound(name)))
            },
            ExpressionView::Mul(l, r) => match both(
                (*l).evaluate(line_number, labels),
                (*r).evaluate(line_number, labels),
            ) {
                Ok((a, b)) => Ok(a.wrapping_mul(b)),
                Err(e) => Err(e),
            },
            ExpressionView::Div(l, r) => match both(
                (*l).evaluate(line_number, labels),
                (*r).evaluate(line_number, labels),
            ) {
                Ok((a, b)) => Ok(quotient(a, b)),
                Err(e) => Err(e),
            },
            ExpressionView::Add(l, r) => match both(
                (*l).evaluate(line_number, labels),
                (*r).evaluate(line_number, labels),
            ) {
                Ok((a, b)) => Ok(a.wrapping_add(b)),
                Err(e) => Err(e),
            },
            ExpressionView::Sub(l, r) => match both(
                (*l).evaluate(line_number, labels),
                (*r).evaluate(line_number, labels),
            ) {
                Ok((a, b)) => Ok(a.wrapping_sub(b)),
                Err(e) => Err(e),
            },
            ExpressionView::Or(l, r) => match both(
                (*l).evaluate(line_number, labels),
                (*r).evaluate(line_number, labels),
            ) {
                Ok((a, b)) => Ok(a | b),
                Err(e) => Err(e),
            },
            ExpressionView::Lsl(l, r) => match both(
                (*l).evaluate(line_number, labels),
                (*r).evaluate(line_number, labels),
            ) {
                Ok((a, b)) => Ok(a.wrapping_shl(b)),
                Err(e) => Err(e),
            },
            ExpressionView::Lsr(l, r) => match both(
                (*l).evaluate(line_number, labels),
                (*r).evaluate(line_number, labels),
            ) {
                Ok((a, b)) => Ok(a.wrapping_shr(b)),
                Err(e) => Err(e),
            },
            ExpressionView::Asr(l, r) => match both(
                (*l).evaluate(line_number, labels),
                (*r).evaluate(line_number, labels),
            ) {
                Ok((a, b)) => Ok(shift_right_signed(a, b)),
                Err(e) => Err(e),
            },
            ExpressionView::Ror(l, r) => match both(
                (*l).evaluate(line_number, labels),
                (*r).evaluate(line_number, labels),
            ) {
                Ok((a, b)) => Ok(ror32(a, b)),
                Err(e) => Err(e),
            },
        }
    }
}

impl Expression {
    /// The value of the expression under the labels of the table.
    pub fn evaluate_in(&self, line_number: usize, labels: &LabelTable) -> (r: Result<
        u32,
        AssemblerError,
    >)
        requires
            labels.wf(),
        ensures
            agrees(r, self@.evaluate(line_number, labels@)),
        decreases self,
    {
        match self {
            Expression::Constant(value) => Ok(*value),
            Expression::Label(name) => match labels.get(name) {
                Some(address) => Ok(address),
                None => Err(
                    AssemblerError { line_number, error: LineError::LabelNotFound(name.clone()) },
                ),
            },
            Expression::Mul(l, r) => {
                let a = l.evaluate_in(line_number, labels)?;
                let b = r.evaluate_in(line_number, labels)?;
                Ok(a.wrapping_mul(b))
            },
            Expression::Div(l, r) => {
                let a = l.evaluate_in(line_number, labels)?;
                let b = r.evaluate_in(line_number, labels)?;
                Ok(
                    if b == 0 {
                        0
                    } else {
                        a / b
                    },
                )
            },
            Expression::Add(l, r) => {
                let a = l.evaluate_in(line_number, labels)?;
                let b = r.evaluate_in(line_number, labels)?;
                Ok(a.wrapping_add(b))
            },
            Expression::Sub(l, r) => {
                let a = l.evaluate_in(line_number, labels)?;
                let b = r.evaluate_in(line_number, labels)?;
                Ok(a.wrapping_sub(b))
            },
            Expression::Or(l, r) => {
                let a = l.evaluate_in(line_number, labels)?;
                let b = r.evaluate_in(line_number, labels)?;
                Ok(a | b)
            },
            Expression::Lsl(l, r) => {
                let a = l.evaluate_in(line_number, labels)?;
                let b = r.evaluate_in(line_number, labels)?;
                Ok(a.wrapping_shl(b))
            },
            Expression::Lsr(l, r) => {
                let a = l.evaluate_in(line_number, labels)?;
                let b = r.evaluate_in(line_number, labels)?;
                Ok(a.wrapping_shr(b))
            },
            Expression::Asr(l, r) => {
                let a = l.evaluate_in(line_number, labels)?;
                let b = r.evaluate_in(line_number, labels)?;
                let amount = b % 32;
                Ok(
                    if amount == 0 {
                        a
                    } else {
                        crate::processor::shifter::compute_arithmetic_shift_right(a, amount)
                    },
                )
            },
            Expression::Ror(l, r) => {
                let a = l.evaluate_in(line_number, labels)?;
                let b = r.evaluate_in(line_number, labels)?;
                Ok(rotate_right(a, b))
            },
        }
    }
}

} // verus!
