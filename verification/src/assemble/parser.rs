//! A parser for ARM assembly.

use vstd::prelude::*;
use vstd::string::*;
use crate::assemble::lexer::Token;

pub mod argument;
pub mod expression;
pub mod instruction;
pub mod line;
pub mod source;

pub use source::parse;

verus! {

/// Why a line cannot be parsed: where in the source, counted in
/// characters, and what is wrong there.
#[derive(Debug, Clone, Copy)]
pub struct ParseFailure {
    pub at: usize,
    pub message: &'static str,
}

/// A failure with its message as plain text.
pub struct FailureView {
    pub at: int,
    pub message: Seq<char>,
}

impl View for ParseFailure {
    type V = FailureView;

    open spec fn view(&self) -> FailureView {
        FailureView { at: self.at as int, message: self.message@ }
    }
}

/// The failure at token `pos` of a source: at the start of that token, or
/// at the end of the source if the tokens are over.
pub open spec fn failure_view(src: Seq<char>, tokens: Seq<Token>, pos: int, message: Seq<char>)
    -> FailureView {
    FailureView {
        at: if 0 <= pos < tokens.len() {
            tokens[pos].start as int
        } else {
            src.len() as int
        },
        message,
    }
}

/// The source text, together with its characters one by one.
pub struct Source {
    pub text: String,
    pub chars: Vec<char>,
}

/// Whether every token spans characters of a source of `length`
/// characters, and at least one.
pub open spec fn tokens_wf(tokens: Seq<Token>, length: nat) -> bool {
    forall|i: int| 0 <= i < tokens.len() ==> (#[trigger] tokens[i]).start < tokens[i].end <= length
}

impl Source {
    /// Whether the characters are those of the text.
    pub open spec fn wf(&self) -> bool {
        self.chars@ == self.text@
    }

    /// Takes a text apart into its characters.
    pub fn new(text: &str) -> (r: Source)
        ensures
            r.wf(),
            r.text@ == text@,
    {
        let length = text.unicode_len();
        let mut chars: Vec<char> = Vec::new();
        let mut i: usize = 0;
        while i < length
            invariant
                i <= length,
                length == text@.len(),
                chars@ == text@.subrange(0, i as int),
            decreases length - i,
        {
            chars.push(text.get_char(i));
            assert(chars@ =~= text@.subrange(0, i + 1));
            i += 1;
        }
        assert(chars@ =~= text@);
        Source { text: String::from_str(text), chars }
    }

    /// The characters from `start` up to `end` as a string.
    pub fn slice(&self, start: usize, end: usize) -> (r: String)
        requires
            self.wf(),
            start <= end <= self.chars@.len(),
        ensures
            r@ == self.chars@.subrange(start as int, end as int),
    {
        String::from_str(self.text.as_str().substring_char(start, end))
    }
}

/// Where a failure at token `pos` is in the source: at the start of that
/// token, or at `end` if the tokens are over.
pub fn failure_at(tokens: &Vec<Token>, pos: usize, end: usize, message: &'static str) -> (r:
    ParseFailure)
    ensures
        r.message == message,
        r.at == (if pos < tokens@.len() {
            tokens@[pos as int].start
        } else {
            end
        }),
{
    ParseFailure {
        at: if pos < tokens.len() {
            tokens[pos].start
        } else {
            end
        },
        message,
    }
}

} // verus!
