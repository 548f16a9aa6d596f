//! The source as a whole: its lines, and the errors found in them.

use vstd::prelude::*;
use vstd::string::*;
use crate::assemble::parser::line::line_views;
use crate::assemble::parser::line::parse_line;
use crate::assemble::parser::line::spec_parse_line;
use crate::assemble::parser::FailureView;
use crate::assemble::parser::ParseFailure;
use crate::assemble::parser::Source;
use crate::assemble::syntax::AsmLine;
use crate::assemble::syntax::AsmLineView;
use crate::assemble::AssemblerError;
use crate::assemble::AssemblerErrorView;
use crate::assemble::LineError;
use crate::assemble::error_on;
use crate::assemble::LineErrorView;
use crate::instr::display::decimal_text;
use crate::instr::display::write_count;

verus! {

/// Where the line that starts at `start` ends: at the next line feed, or
/// at the end of the source.
pub open spec fn line_end(src: Seq<char>, start: int) -> int
    decreases src.len() - start,
{
    if start < src.len() && src[start] != '\n' {
        line_end(src, start + 1)
    } else {
        start
    }
}

/// What parsing gives: the lines that could be parsed, and the errors of
/// those that could not.
pub struct ParseOutcome {
    pub lines: Seq<AsmLineView>,
    pub failed: Seq<AssemblerErrorView>,
}

/// The message of a line that cannot be parsed: the line, the column,
/// counted from 1, and what is wrong.
pub open spec fn parse_error_text(line_number: usize, column: usize, message: Seq<char>) -> Seq<
    char,
> {
    decimal_text(decimal_text(Seq::empty(), line_number as nat) + ":"@, column as nat) + ": "@
        + message
}

/// The error of a line that starts at `line_start` and cannot be parsed.
pub open spec fn spec_parse_error(line_number: usize, line_start: int, failure: FailureView)
    -> AssemblerErrorView {
    error_on(
        line_number,
        LineErrorView::ParseError(
            parse_error_text(
                line_number,
                ((failure.at - line_start) as usize).saturating_add(1),
                failure.message,
            ),
        ),
    )
}

/// What parsing gives for the source from `start` on, behind what it gave
/// before. Lines are numbered from 1. A line that cannot be parsed gives
/// its error, and makes up no label; parsing goes on with the next line.
pub open spec fn spec_parse_from(
    src: Seq<char>,
    start: int,
    line_number: usize,
    counter: u32,
    before: ParseOutcome,
) -> ParseOutcome
    decreases src.len() + 1 - start,
{
    if start < 0 || start >= src.len() {
        before
    } else {
        let end = line_end(src, start);
        if end < start || end > src.len() {
            before
        } else {
            match spec_parse_line(src, start, end, line_number, counter) {
                Ok((lines, counter_after)) => spec_parse_from(
                    src,
                    end + 1,
                    line_number.saturating_add(1),
                    counter_after,
                    ParseOutcome { lines: before.lines + lines, failed: before.failed },
                ),
                Err(failure) => spec_parse_from(
                    src,
                    end + 1,
                    line_number.saturating_add(1),
                    counter,
                    ParseOutcome {
                        lines: before.lines,
                        failed: before.failed.push(spec_parse_error(line_number, start, failure)),
                    },
                ),
            }
        }
    }
}

/// What parsing gives for a source.
pub open spec fn spec_parse(src: Seq<char>) -> ParseOutcome {
    spec_parse_from(src, 0, 1, 0, ParseOutcome { lines: Seq::empty(), failed: Seq::empty() })
}

/// Errors with their names and messages as plain text.
pub open spec fn error_views(errors: Seq<AssemblerError>) -> Seq<AssemblerErrorView> {
    Seq::new(errors.len(), |i: int| errors[i]@)
}

/// A line ends at or after its start and within the source.
pub proof fn lemma_line_end(src: Seq<char>, start: int)
    requires
        0 <= start <= src.len(),
    ensures
        start <= line_end(src, start) <= src.len(),
        line_end(src, start) < src.len() ==> src[line_end(src, start)] == '\n',
    decreases src.len() - start,
{
    if start < src.len() && src[start] != '\n' {
        lemma_line_end(src, start + 1);
    }
}

/// Finds the end of the line that starts at `start`.
pub fn find_line_end(chars: &Vec<char>, start: usize) -> (r: usize)
    requires
        start <= chars@.len(),
    ensures
        r == line_end(chars@, start as int),
        start <= r <= chars@.len(),
{
    let mut at = start;
    while at < chars.len() && chars[at] != '\n'
        invariant
            start <= at <= chars@.len(),
            line_end(chars@, at as int) == line_end(chars@, start as int),
        decreases chars@.len() - at,
    {
        at += 1;
    }
    at
}

/// The error of a line that cannot be parsed.
pub fn parse_error(line_number: usize, line_start: usize, failure: ParseFailure) -> (r:
    AssemblerError)
    requires
        line_start <= failure.at,
    ensures
        r@ == spec_parse_error(line_number, line_start as int, failure@),
{
    let mut message = String::new();
    write_count(&mut message, line_number);
    message.append(":");
    write_count(&mut message, (failure.at - line_start).saturating_add(1));
    message.append(": ");
    message.append(failure.message);
    AssemblerError { line_number, error: LineError::ParseError(message) }
}

/// Parses a source into its lines.
///
/// Every line is parsed on its own; a line that cannot be parsed gives an
/// error, and parsing goes on with the next line. The lines are returned
/// if there was no error, else all the errors, in the order of their
/// lines.
pub fn parse(src: &str) -> (r: Result<Vec<AsmLine>, Vec<AssemblerError>>)
    ensures
        match r {
            Ok(lines) => spec_parse(src@).failed.len() == 0 && line_views(lines@) == spec_parse(
                src@,
            ).lines,
            Err(errors) => errors@.len() > 0 && error_views(errors@) == spec_parse(src@).failed,
        },
{
    let source = Source::new(src);
    let length = source.chars.len();
    let mut lines: Vec<AsmLine> = Vec::new();
    let mut errors: Vec<AssemblerError> = Vec::new();
    let mut line_number: usize = 1;
    let mut counter: u32 = 0;
    let mut at: usize = 0;
    assert(line_views(lines@) =~= Seq::empty());
    assert(error_views(errors@) =~= Seq::empty());
    while at < length
        invariant
            source.wf(),
            source.chars@ == src@,
            length == source.chars@.len(),
            at <= length,
            spec_parse_from(
                src@,
                at as int,
                line_number,
                counter,
                ParseOutcome { lines: line_views(lines@), failed: error_views(errors@) },
            ) == spec_parse(src@),
        decreases length - at,
    {
        let end = find_line_end(&source.chars, at);
        let ghost lines_before = line_views(lines@);
        let ghost errors_before = error_views(errors@);
        let ghost counter_before = counter;
        match parse_line(&source, at, end, line_number, counter) {
            Ok((mut parsed, counter_after)) => {
                let ghost parsed_views = line_views(parsed@);
                lines.append(&mut parsed);
                assert(line_views(lines@) =~= lines_before + parsed_views);
                counter = counter_after;
            },
            Err(failure) => {
                let error = parse_error(line_number, at, failure);
                let ghost error_view = error@;
                errors.push(error);
                assert(error_views(errors@) =~= errors_before.push(error_view));
            },
        }
        let ghost after = ParseOutcome {
            lines: line_views(lines@),
            failed: error_views(errors@),
        };
        let ghost next_number = line_number.saturating_add(1);
        proof {
            lemma_line_end(src@, at as int);
            assert(spec_parse_from(
                src@,
                at as int,
                line_number,
                counter_before,
                ParseOutcome { lines: lines_before, failed: errors_before },
            ) == spec_parse_from(src@, end + 1, next_number, counter, after));
            if end >= length {
                assert(spec_parse_from(src@, end + 1, next_number, counter, after) == after);
                assert(spec_parse_from(src@, length as int, next_number, counter, after) == after);
            }
        }
        line_number = line_number.saturating_add(1);
        at = if end < length {
            end + 1
        } else {
            length
        };
    }
    if errors.len() == 0 {
        Ok(lines)
    } else {
        Err(errors)
    }
}

} // verus!
