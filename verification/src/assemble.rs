//! The assembler: from source text to instruction words.

use vstd::prelude::*;
use vstd::string::*;

pub mod assembler;
pub mod expression;
pub mod heal;
pub mod keywords;
pub mod labels;
pub mod laws;
pub mod lexer;
pub mod parser;
pub mod syntax;

pub use assembler::AssemblerOutput;
pub use heal::fill_register;
pub use heal::HealStrategy;
pub use labels::LabelTable;

verus! {

/// An error found while assembling, with the line it was found on.
#[derive(Debug)]
pub struct AssemblerError {
    pub line_number: usize,
    pub error: LineError,
}

/// What can be wrong with a line of assembly.
#[derive(Debug)]
pub enum LineError {
    /// The line could not be parsed; the message says where and why.
    ParseError(String),
    /// An expression names a label that the source never defines.
    LabelNotFound(String),
    /// A constant shift amount is too large for its shift type.
    ShiftOutOfRange,
    /// A branch target is not a whole number of words away.
    MisalignedBranchOffset,
    /// A branch target is too far away for the 24-bit offset field.
    OffsetOutOfRange,
    /// A constant cannot be written as an immediate operand.
    ImmediateOutOfRange(u32),
    /// Rotate right extended cannot take its amount from a register.
    InvalidShiftType,
    /// Stores exist for halfwords only, not for the sign-extending sizes.
    InvalidStoreSize,
    /// The addressing mode asks for more than the instruction can hold.
    AddressTooComplex,
    /// The label addresses did not settle within the allowed passes.
    TooManyPasses,
}

/// A warning raised while assembling, with the line it was raised on.
#[derive(Debug)]
pub struct AssemblerWarning {
    pub line_number: usize,
    pub warning: LineWarning,
}

/// What a line of assembly can be warned about.
#[derive(Debug)]
pub enum LineWarning {
    /// No check raises a warning so far, and the assembler never builds
    /// this value; it stands here so that the type has a value at all.
    Unused,
}

/// A line error with its messages and names as plain text.
pub enum LineErrorView {
    ParseError(Seq<char>),
    LabelNotFound(Seq<char>),
    ShiftOutOfRange,
    MisalignedBranchOffset,
    OffsetOutOfRange,
    ImmediateOutOfRange(u32),
    InvalidShiftType,
    InvalidStoreSize,
    AddressTooComplex,
    TooManyPasses,
}

impl View for LineError {
    type V = LineErrorView;

    open spec fn view(&self) -> LineErrorView {
        match self {
            LineError::ParseError(message) => LineErrorView::ParseError(message@),
            LineError::LabelNotFound(name) => LineErrorView::LabelNotFound(name@),
            LineError::ShiftOutOfRange => LineErrorView::ShiftOutOfRange,
            LineError::MisalignedBranchOffset => LineErrorView::MisalignedBranchOffset,
            LineError::OffsetOutOfRange => LineErrorView::OffsetOutOfRange,
            LineError::ImmediateOutOfRange(value) => LineErrorView::ImmediateOutOfRange(*value),
            LineError::InvalidShiftType => LineErrorView::InvalidShiftType,
            LineError::InvalidStoreSize => LineErrorView::InvalidStoreSize,
            LineError::AddressTooComplex => LineErrorView::AddressTooComplex,
            LineError::TooManyPasses => LineErrorView::TooManyPasses,
        }
    }
}

/// An assembler error with its messages and names as plain text.
pub struct AssemblerErrorView {
    pub line_number: usize,
    pub error: LineErrorView,
}

impl View for AssemblerError {
    type V = AssemblerErrorView;

    open spec fn view(&self) -> AssemblerErrorView {
        AssemblerErrorView { line_number: self.line_number, error: self.error@ }
    }
}

/// What a function of the assembler is to give: a value, or an error told
/// by its view.
pub type Expected<T> = Result<T, AssemblerErrorView>;

/// Whether a result is the expected value, or an error with the expected
/// view.
pub open spec fn agrees<T>(result: Result<T, AssemblerError>, expected: Expected<T>) -> bool {
    match expected {
        Ok(value) => result matches Ok(got) && got == value,
        Err(error) => result matches Err(got) && got@ == error,
    }
}

/// The error `error` on line `line_number`.
pub open spec fn error_on(line_number: usize, error: LineErrorView) -> AssemblerErrorView {
    AssemblerErrorView { line_number, error }
}

impl LineErrorView {
    /// What the error says, for a person to read.
    pub open spec fn message(self) -> Seq<char> {
        match self {
            LineErrorView::ParseError(message) => "syntax error at "@ + message,
            LineErrorView::LabelNotFound(name) => "label not found: "@ + name,
            LineErrorView::ShiftOutOfRange => "shift amount out of range"@,
            LineErrorView::MisalignedBranchOffset => "branch target is not word-aligned"@,
            LineErrorView::OffsetOutOfRange => "branch target is too far away"@,
            LineErrorView::ImmediateOutOfRange(value) => crate::instr::display::decimal_text(
                "immediate out of range: "@,
                value as nat,
            ),
            LineErrorView::InvalidShiftType => "RRX cannot take its amount from a register"@,
            LineErrorView::InvalidStoreSize => "only words, bytes and halfwords can be stored"@,
            LineErrorView::AddressTooComplex => "address too complex"@,
            LineErrorView::TooManyPasses => "the labels did not settle"@,
        }
    }
}

impl LineError {
    /// What the error says, for a person to read.
    pub fn message(&self) -> (r: String)
        ensures
            r@ == self@.message(),
    {
        match self {
            LineError::ParseError(message) => {
                let mut text = String::from_str("syntax error at ");
                text.append(message.as_str());
                text
            },
            LineError::LabelNotFound(name) => {
                let mut text = String::from_str("label not found: ");
                text.append(name.as_str());
                text
            },
            LineError::ShiftOutOfRange => String::from_str("shift amount out of range"),
            LineError::MisalignedBranchOffset => String::from_str(
                "branch target is not word-aligned",
            ),
            LineError::OffsetOutOfRange => String::from_str("branch target is too far away"),
            LineError::ImmediateOutOfRange(value) => {
                let mut text = String::from_str("immediate out of range: ");
                crate::instr::display::write_decimal(&mut text, *value);
                text
            },
            LineError::InvalidShiftType => String::from_str(
                "RRX cannot take its amount from a register",
            ),
            LineError::InvalidStoreSize => String::from_str(
                "only words, bytes and halfwords can be stored",
            ),
            LineError::AddressTooComplex => String::from_str("address too complex"),
            LineError::TooManyPasses => String::from_str("the labels did not settle"),
        }
    }
}

/// Whether the characters from `start` on spell `word`, in either case of
/// the letters, and nothing but blanks follows.
pub open spec fn is_magic(comment: Seq<char>, start: int, word: Seq<char>) -> bool {
    start + word.len() <= comment.len() && keywords::word_is(
        comment,
        start,
        start + word.len(),
        word,
    ) && lexer::run_end(
        comment,
        start + word.len(),
        comment.len() as int,
        lexer::CharClass::Space,
    ) == comment.len()
}

/// The healing that a comment asks for, if it is a magic comment:
/// `; HEAL OFF` or `; HEAL SIMPLE`, with any blanks after the semicolon
/// and at the end.
pub open spec fn comment_heal(comment: Seq<char>) -> Option<HealStrategy> {
    if comment.len() == 0 || comment[0] != ';' {
        None
    } else {
        let start = lexer::run_end(comment, 1, comment.len() as int, lexer::CharClass::Space);
        if is_magic(comment, start, "heal off"@) {
            Some(HealStrategy::Off)
        } else if is_magic(comment, start, "heal simple"@) {
            Some(HealStrategy::Simple)
        } else {
            None
        }
    }
}

/// The healing that the lines from `from` on ask for: that of the first
/// magic comment, or advanced healing with the scratch register `R12`.
pub open spec fn heal_of(lines: Seq<syntax::AsmLineView>, from: int) -> HealStrategy
    decreases lines.len() - from,
{
    if from < 0 || from >= lines.len() {
        HealStrategy::Advanced(crate::instr::ty::Register::R12)
    } else {
        match comment_heal(lines[from].comment) {
            Some(heal) => heal,
            None => heal_of(lines, from + 1),
        }
    }
}

/// Tells whether a word and then only blanks stand at `start`.
fn check_magic(comment: &Vec<char>, start: usize, word: &str) -> (r: bool)
    requires
        start <= comment@.len(),
    ensures
        r == is_magic(comment@, start as int, word@),
{
    let length = word.unicode_len();
    if comment.len() - start < length {
        return false;
    }
    keywords::matches_word(comment, start, start + length, word) && lexer::scan_run(
        comment,
        start + length,
        comment.len(),
        lexer::CharClass::Space,
    ) == comment.len()
}

/// Tells which healing a comment asks for.
pub fn heal_of_comment(comment: &String) -> (r: Option<HealStrategy>)
    ensures
        r == comment_heal(comment@),
{
    let source = parser::Source::new(comment.as_str());
    let chars = &source.chars;
    if chars.len() == 0 || chars[0] != ';' {
        return None;
    }
    let start = lexer::scan_run(chars, 1, chars.len(), lexer::CharClass::Space);
    if check_magic(chars, start, "heal off") {
        Some(HealStrategy::Off)
    } else if check_magic(chars, start, "heal simple") {
        Some(HealStrategy::Simple)
    } else {
        None
    }
}

/// Tells which healing the lines ask for.
pub fn heal_strategy(lines: &Vec<syntax::AsmLine>) -> (r: HealStrategy)
    ensures
        r == heal_of(parser::line::line_views(lines@), 0),
{
    let mut i: usize = 0;
    while i < lines.len()
        invariant
            i <= lines@.len(),
            heal_of(parser::line::line_views(lines@), i as int) == heal_of(
                parser::line::line_views(lines@),
                0,
            ),
        decreases lines@.len() - i,
    {
        match heal_of_comment(&lines[i].comment) {
            Some(heal) => {
                return heal;
            },
            None => {},
        }
        i += 1;
    }
    HealStrategy::Advanced(crate::instr::ty::Register::R12)
}

/// What assembling a source gives.
///
/// The source is parsed line by line; if a line cannot be parsed, the
/// errors of all such lines are given, in the order of the lines.
/// Otherwise the lines are assembled, with the healing that their comments
/// ask for, and the output is given, or the one error that assembling ran
/// into.
pub open spec fn spec_assemble_source(src: Seq<char>) -> Result<
    assembler::OutputView,
    Seq<AssemblerErrorView>,
> {
    let parsed = parser::source::spec_parse(src);
    if parsed.failed.len() > 0 {
        Err(parsed.failed)
    } else {
        match assembler::spec_assemble(parsed.lines, heal_of(parsed.lines, 0)) {
            Ok(output) => Ok(output),
            Err(error) => Err(seq![error]),
        }
    }
}

/// Assembles a source into the words of its program.
pub fn assemble(src: &str) -> (r: Result<AssemblerOutput, Vec<AssemblerError>>)
    ensures
        match spec_assemble_source(src@) {
            Ok(output) => r matches Ok(got) && got.wf() && got.warnings@.len() == 0 && got@
                == output,
            Err(errors) => r matches Err(got) && parser::source::error_views(got@) == errors,
        },
{
    let lines = match parser::source::parse(src) {
        Ok(lines) => lines,
        Err(errors) => {
            return Err(errors);
        },
    };
    let heal = heal_strategy(&lines);
    match assembler::assemble(lines, heal) {
        Ok(output) => Ok(output),
        Err(error) => {
            let ghost error_view = error@;
            let mut errors = Vec::new();
            errors.push(error);
            assert(parser::source::error_views(errors@) =~= seq![error_view]);
            Err(errors)
        },
    }
}

} // verus!
