//! Lines: a label, an instruction and a comment, each of which may be
//! missing.

use vstd::prelude::*;
use vstd::string::*;
use crate::assemble::keywords::Opcode;
use crate::assemble::lexer::lex;
use crate::assemble::lexer::spec_lex;
use crate::assemble::lexer::LexError;
use crate::assemble::lexer::Token;
use crate::assemble::lexer::TokenKind;
use crate::assemble::parser::argument::kind_at;
use crate::assemble::parser::argument::parse_arguments;
use crate::assemble::parser::argument::spec_parse_arguments;
use crate::assemble::parser::argument::token_kind;
use crate::assemble::parser::instruction::process_instruction;
use crate::assemble::parser::instruction::processed_views;
use crate::assemble::parser::instruction::spec_process_instruction;
use crate::assemble::parser::instruction::spec_usage;
use crate::assemble::parser::instruction::Processed;
use crate::assemble::parser::instruction::ProcessedView;
use crate::assemble::parser::failure_at;
use crate::assemble::parser::failure_view;
use crate::assemble::parser::tokens_wf;
use crate::assemble::parser::FailureView;
use crate::assemble::parser::ParseFailure;
use crate::assemble::parser::Source;
use crate::assemble::syntax::AsmLine;
use crate::assemble::syntax::AsmLineContents;
use crate::assemble::syntax::AsmLineContentsView;
use crate::assemble::syntax::AsmLineView;
use crate::instr::ty::Cond;

verus! {

/// Line contents with their names as plain text.
pub open spec fn contents_views(contents: Seq<AsmLineContents>) -> Seq<AsmLineContentsView> {
    Seq::new(contents.len(), |i: int| contents[i]@)
}

/// Lines with their names and comments as plain text.
pub open spec fn line_views(lines: Seq<AsmLine>) -> Seq<AsmLineView> {
    Seq::new(lines.len(), |i: int| lines[i]@)
}

/// The text of a label, if there is one.
pub open spec fn label_text(label: Option<String>) -> Option<Seq<char>> {
    match label {
        Some(name) => Some(name@),
        None => None,
    }
}

/// The label of a line as the first of its contents, if it has one.
pub open spec fn label_contents(label: Option<Seq<char>>) -> Seq<AsmLineContentsView> {
    match label {
        Some(name) => seq![AsmLineContentsView::Label(name)],
        None => Seq::empty(),
    }
}

/// The contents that the first `count` items of an instruction stand for,
/// behind `before`: an instruction under its condition, a word of data,
/// which takes no condition, or a made-up label. An `EQU` is no item of a
/// list. The first item that gives no contents says what is wrong.
pub open spec fn item_contents(
    before: Seq<AsmLineContentsView>,
    cond: Cond,
    items: Seq<ProcessedView>,
    count: int,
) -> Result<Seq<AsmLineContentsView>, Seq<char>>
    decreases count,
{
    if count <= 0 {
        Ok(before)
    } else {
        match item_contents(before, cond, items, count - 1) {
            Err(message) => Err(message),
            Ok(contents) => match items[count - 1] {
                ProcessedView::Instr(instr) => Ok(
                    contents.push(AsmLineContentsView::Instr(cond, instr)),
                ),
                ProcessedView::DefW(expression) => if cond == Cond::AL {
                    Ok(contents.push(AsmLineContentsView::DefWord(expression)))
                } else {
                    Err("'defw' cannot have a condition flag"@)
                },
                ProcessedView::Label(name) => Ok(contents.push(AsmLineContentsView::Label(name))),
                ProcessedView::Equ(_) => Err("'equ' stands alone"@),
            },
        }
    }
}

/// What a line holds, given its label and what its instruction stands
/// for:
/// - an `EQU` needs a label and takes no condition; it gives the label the
///   value of its expression;
/// - otherwise the label, if there is one, comes first, and then what the
///   items of the instruction stand for.
///
/// Where the line holds nothing of this, the message says why.
pub open spec fn spec_line_contents(
    label: Option<Seq<char>>,
    cond: Cond,
    items: Seq<ProcessedView>,
) -> Result<Seq<AsmLineContentsView>, Seq<char>> {
    if items.len() == 1 && items[0] is Equ {
        match label {
            Some(name) => if cond == Cond::AL {
                Ok(seq![AsmLineContentsView::Equ(name, items[0]->Equ_0)])
            } else {
                Err("'equ' cannot have a condition flag"@)
            },
            None => Err("'equ' needs a label"@),
        }
    } else {
        item_contents(label_contents(label), cond, items, items.len() as int)
    }
}

/// The lines that the contents of one line of the source become: one for
/// each, or an empty one if there are none; the comment goes to the first.
pub open spec fn lines_of(
    contents: Seq<AsmLineContentsView>,
    comment: Seq<char>,
    line_number: usize,
) -> Seq<AsmLineView> {
    if contents.len() == 0 {
        seq![AsmLineView { line_number, contents: AsmLineContentsView::Empty, comment }]
    } else {
        Seq::new(
            contents.len(),
            |i: int|
                AsmLineView {
                    line_number,
                    contents: contents[i],
                    comment: if i == 0 {
                        comment
                    } else {
                        Seq::empty()
                    },
                },
        )
    }
}

/// The first of the tokens from `from` on that is an error, if one is.
pub open spec fn first_error(tokens: Seq<Token>, from: int) -> Option<int>
    decreases tokens.len() - from,
{
    if from < 0 || from >= tokens.len() {
        None
    } else if tokens[from].kind is Error {
        Some(from)
    } else {
        first_error(tokens, from + 1)
    }
}

/// A failure with its place moved into the line from `start` up to `end`,
/// if it was outside.
pub open spec fn clamped(failure: FailureView, start: int, end: int) -> FailureView {
    FailureView {
        at: if failure.at < start {
            start
        } else if failure.at > end {
            end
        } else {
            failure.at
        },
        message: failure.message,
    }
}

/// What stands behind the instruction of a line: a comment or nothing,
/// and then the end of the line.
pub open spec fn spec_finish_line(
    src: Seq<char>,
    tokens: Seq<Token>,
    pos: int,
    contents: Seq<AsmLineContentsView>,
    line_number: usize,
) -> Result<Seq<AsmLineView>, FailureView> {
    if kind_at(tokens, pos) == Some(TokenKind::Comment) {
        if pos + 1 == tokens.len() {
            Ok(
                lines_of(
                    contents,
                    src.subrange(tokens[pos].start as int, tokens[pos].end as int),
                    line_number,
                ),
            )
        } else {
            Err(failure_view(src, tokens, pos + 1, "unexpected text after comment"@))
        }
    } else if pos == tokens.len() {
        Ok(lines_of(contents, Seq::empty(), line_number))
    } else {
        Err(failure_view(src, tokens, pos, "expected an opcode or the end of the line"@))
    }
}

/// What the tokens of a line hold, and the number of the next label to
/// make up; or where and why they hold no line.
///
/// A line is a label, an instruction and a comment, in this order, each of
/// which may be missing. A label is a name that starts the line, with no
/// blank before it. An instruction is an opcode and its arguments.
/// A line with an error token fails at the first of them. Arguments that
/// the opcode cannot take, and contents that cannot stand together, fail
/// at the opcode.
pub open spec fn spec_parse_tokens(
    src: Seq<char>,
    tokens: Seq<Token>,
    start: int,
    line_number: usize,
    counter: u32,
) -> Result<(Seq<AsmLineView>, u32), FailureView> {
    let labelled = kind_at(tokens, 0) == Some(TokenKind::Name) && tokens[0].start == start;
    let label = if labelled {
        Some(src.subrange(tokens[0].start as int, tokens[0].end as int))
    } else {
        None
    };
    let pos: int = if labelled {
        1
    } else {
        0
    };
    match first_error(tokens, 0) {
        Some(bad) => Err(
            FailureView {
                at: tokens[bad].start as int,
                message: lex_error_text(tokens[bad].kind->Error_0),
            },
        ),
        None => match kind_at(tokens, pos) {
            Some(TokenKind::Opcode(cond, opcode)) => match spec_parse_arguments(
                src,
                tokens,
                pos + 1,
            ) {
                Err(failure) => Err(failure),
                Ok((arguments, next)) => match spec_process_instruction(
                    opcode,
                    arguments,
                    counter,
                ) {
                    None => Err(failure_view(src, tokens, pos, spec_usage(opcode))),
                    Some((items, counter_after)) => match spec_line_contents(label, cond, items) {
                        Err(message) => Err(failure_view(src, tokens, pos, message)),
                        Ok(contents) => match spec_finish_line(
                            src,
                            tokens,
                            next,
                            contents,
                            line_number,
                        ) {
                            Ok(lines) => Ok((lines, counter_after)),
                            Err(failure) => Err(failure),
                        },
                    },
                },
            },
            _ => match spec_finish_line(src, tokens, pos, label_contents(label), line_number) {
                Ok(lines) => Ok((lines, counter)),
                Err(failure) => Err(failure),
            },
        },
    }
}

/// What the line of the characters from `start` up to `end` holds, and
/// the number of the next label to make up; or where in the line, and
/// why, it cannot be parsed.
pub open spec fn spec_parse_line(
    src: Seq<char>,
    start: int,
    end: int,
    line_number: usize,
    counter: u32,
) -> Result<(Seq<AsmLineView>, u32), FailureView> {
    match spec_parse_tokens(src, spec_lex(src, start, end), start, line_number, counter) {
        Ok(parsed) => Ok(parsed),
        Err(failure) => Err(clamped(failure, start, end)),
    }
}

/// Works out what a line holds from its label and what its instruction
/// stands for.
pub(crate) fn process_line_contents(label: Option<String>, cond: Cond, items: Vec<Processed>) -> (r:
    Result<Vec<AsmLineContents>, &'static str>)
    ensures
        match spec_line_contents(label_text(label), cond, processed_views(items@)) {
            Ok(contents) => r matches Ok(got) && contents_views(got@) == contents,
            Err(message) => r matches Err(got) && got@ == message,
        },
{

    let ghost label_view: Option<Seq<char>> = label_text(label);
    let ghost views = processed_views(items@);
    let count = items.len();
    let mut result: Vec<AsmLineContents> = Vec::new();
    let is_equ = count == 1 && matches!(items[0], Processed::Equ(_));
    assert(is_equ == (views.len() == 1 && views[0] is Equ));
    let mut pending = label;
    if !is_equ {
        match pending {
            Some(name) => {
                result.push(AsmLineContents::Label(name));
            },
            None => {},
        }
        pending = None;
        assert(contents_views(result@) =~= label_contents(label_view));
    }
    let mut remaining = items;
    let mut reversed: Vec<Processed> = Vec::new();
    while remaining.len() > 0
        invariant
            remaining@.len() + reversed@.len() == count,
            views.len() == count,
            forall|i: int| 0 <= i < remaining@.len() ==> (#[trigger] remaining@[i])@ == views[i],
            forall|i: int|
                0 <= i < reversed@.len() ==> (#[trigger] reversed@[i])@ == views[count - 1 - i],
        decreases remaining@.len(),
    {
        let item = remaining.pop().unwrap();
        reversed.push(item);
    }
    let mut done: usize = 0;
    while reversed.len() > 0
        invariant
            done + reversed@.len() == count,
            views.len() == count,
            views == processed_views(items@),
            label_view == label_text(label),
            is_equ == (views.len() == 1 && views[0] is Equ),
            is_equ ==> done == 0 && result@.len() == 0 && label_text(pending) == label_view,
            forall|i: int|
                0 <= i < reversed@.len() ==> (#[trigger] reversed@[i])@ == views[count - 1 - i],
            !is_equ ==> item_contents(label_contents(label_view), cond, views, done as int)
                == Ok::<Seq<AsmLineContentsView>, Seq<char>>(contents_views(result@)),
        decreases reversed@.len(),
    {
        let ghost before = contents_views(result@);
        let item = reversed.pop().unwrap();
        assert(item@ == views[done as int]);
        match item {
            Processed::Instr(instr) => {
                result.push(AsmLineContents::Instr(cond, instr));
                assert(contents_views(result@) =~= before.push(
                    AsmLineContentsView::Instr(cond, instr@),
                ));
            },
            Processed::DefW(expression) => {
                if cond != Cond::AL {
                    proof {
                        lemma_items_fail(
                            label_contents(label_view),
                            cond,
                            views,
                            done as int,
                            count as int,
                        );
                    }
                    return Err("'defw' cannot have a condition flag");
                }
                result.push(AsmLineContents::DefWord(expression));
                assert(contents_views(result@) =~= before.push(
                    AsmLineContentsView::DefWord(expression@),
                ));
            },
            Processed::Label(name) => {
                result.push(AsmLineContents::Label(name));
                assert(contents_views(result@) =~= before.push(AsmLineContentsView::Label(name@)));
            },
            Processed::Equ(expression) => {
                if !is_equ {
                    proof {
                        lemma_items_fail(
                            label_contents(label_view),
                            cond,
                            views,
                            done as int,
                            count as int,
                        );
                    }
                    return Err("'equ' stands alone");
                }
                let name = match pending {
                    Some(name) => name,
                    None => {
                        return Err("'equ' needs a label");
                    },
                };
                if cond != Cond::AL {
                    return Err("'equ' cannot have a condition flag");
                }
                result.push(AsmLineContents::Equ(name, expression));
                assert(contents_views(result@) =~= seq![
                    AsmLineContentsView::Equ(name@, expression@),
                ]);
                return Ok(result);
            },
        }
        done += 1;
    }
    Ok(result)
}

/// The first item that gives no contents spoils the contents of the
/// whole.
proof fn lemma_items_fail(
    before: Seq<AsmLineContentsView>,
    cond: Cond,
    items: Seq<ProcessedView>,
    bad: int,
    count: int,
)
    requires
        0 <= bad < count <= items.len(),
        item_contents(before, cond, items, bad) is Ok,
        items[bad] is Equ || (items[bad] is DefW && cond != Cond::AL),
    ensures
        item_contents(before, cond, items, count) == item_contents(before, cond, items, bad + 1),
        item_contents(before, cond, items, count) is Err,
    decreases count,
{
    if bad < count - 1 {
        lemma_items_fail(before, cond, items, bad, count - 1);
    }
}

/// Makes the lines of the assembler from the contents of one line of the
/// source.
fn make_lines(contents: Vec<AsmLineContents>, comment: String, line_number: usize) -> (r: Vec<
    AsmLine,
>)
    ensures
        line_views(r@) == lines_of(contents_views(contents@), comment@, line_number),
{
    let ghost views = contents_views(contents@);
    let ghost comment_view = comment@;
    let count = contents.len();
    let mut lines: Vec<AsmLine> = Vec::new();
    if count == 0 {
        lines.push(AsmLine { line_number, contents: AsmLineContents::Empty, comment });
        assert(line_views(lines@) =~= lines_of(views, comment_view, line_number));
        return lines;
    }
    let mut contents = contents;
    let mut reversed: Vec<AsmLineContents> = Vec::new();
    while contents.len() > 0
        invariant
            contents@.len() + reversed@.len() == count,
            views.len() == count,
            forall|i: int| 0 <= i < contents@.len() ==> (#[trigger] contents@[i])@ == views[i],
            forall|i: int|
                0 <= i < reversed@.len() ==> (#[trigger] reversed@[i])@ == views[count - 1 - i],
        decreases contents@.len(),
    {
        let item = contents.pop().unwrap();
        reversed.push(item);
    }
    let mut comment = Some(comment);
    while reversed.len() > 0
        invariant
            lines@.len() + reversed@.len() == count,
            views.len() == count,
            count > 0,
            forall|i: int|
                0 <= i < reversed@.len() ==> (#[trigger] reversed@[i])@ == views[count - 1 - i],
            lines@.len() == 0 ==> (comment matches Some(text) && text@ == comment_view),
            lines@.len() > 0 ==> comment is None,
            forall|i: int|
                0 <= i < lines@.len() ==> (#[trigger] lines@[i])@ == lines_of(
                    views,
                    comment_view,
                    line_number,
                )[i],
        decreases reversed@.len(),
    {
        let item = reversed.pop().unwrap();
        let text = match comment {
            Some(text) => text,
            None => String::new(),
        };
        comment = None;
        lines.push(AsmLine { line_number, contents: item, comment: text });
    }
    assert(line_views(lines@) =~= lines_of(views, comment_view, line_number));
    lines
}

/// What is wrong with an error token.
pub open spec fn lex_error_text(error: LexError) -> Seq<char> {
    match error {
        LexError::InvalidCharacter => "invalid character"@,
        LexError::InvalidInteger => "invalid integer"@,
        LexError::Overflow => "overflow error"@,
    }
}

/// What is wrong with an error token.
pub fn lex_error_message(error: LexError) -> (r: &'static str)
    ensures
        r@ == lex_error_text(error),
{
    match error {
        LexError::InvalidCharacter => "invalid character",
        LexError::InvalidInteger => "invalid integer",
        LexError::Overflow => "overflow error",
    }
}

/// Finds the first error token.
fn find_error(tokens: &Vec<Token>) -> (r: Option<ParseFailure>)
    ensures
        match first_error(tokens@, 0) {
            Some(bad) => r matches Some(failure) && failure@ == (FailureView {
                at: tokens@[bad].start as int,
                message: lex_error_text(tokens@[bad].kind->Error_0),
            }),
            None => r is None,
        },
{
    let mut i: usize = 0;
    while i < tokens.len()
        invariant
            i <= tokens@.len(),
            first_error(tokens@, i as int) == first_error(tokens@, 0),
        decreases tokens@.len() - i,
    {
        match tokens[i].kind {
            TokenKind::Error(error) => {
                return Some(
                    ParseFailure { at: tokens[i].start, message: lex_error_message(error) },
                );
            },
            _ => {},
        }
        i += 1;
    }
    None
}

/// Whether a result is the expected lines and counter, or the expected
/// failure.
pub open spec fn line_parsed(
    result: Result<(Vec<AsmLine>, u32), ParseFailure>,
    expected: Result<(Seq<AsmLineView>, u32), FailureView>,
) -> bool {
    match expected {
        Ok((lines, counter)) => result matches Ok(got) && line_views(got.0@) == lines && got.1
            == counter,
        Err(failure) => result matches Err(got) && got@ == failure,
    }
}

/// Parses what stands behind the instruction of a line.
fn finish_line(
    source: &Source,
    tokens: &Vec<Token>,
    pos: usize,
    end: usize,
    contents: Vec<AsmLineContents>,
    line_number: usize,
) -> (r: Result<Vec<AsmLine>, ParseFailure>)
    requires
        source.wf(),
        tokens_wf(tokens@, source.chars@.len()),
        pos <= tokens@.len(),
        end == source.chars@.len(),
    ensures
        match spec_finish_line(
            source.chars@,
            tokens@,
            pos as int,
            contents_views(contents@),
            line_number,
        ) {
            Ok(lines) => r matches Ok(got) && line_views(got@) == lines,
            Err(failure) => r matches Err(got) && got@ == failure,
        },
{
    let count = tokens.len();
    if pos < count && tokens[pos].kind == TokenKind::Comment {
        if pos + 1 == count {
            let comment = source.slice(tokens[pos].start, tokens[pos].end);
            Ok(make_lines(contents, comment, line_number))
        } else {
            Err(failure_at(tokens, pos + 1, end, "unexpected text after comment"))
        }
    } else if pos == count {
        Ok(make_lines(contents, String::new(), line_number))
    } else {
        Err(failure_at(tokens, pos, end, "expected an opcode or the end of the line"))
    }
}

/// Parses the line of the characters from `start` up to `end`.
pub(crate) fn parse_line(source: &Source, start: usize, end: usize, line_number: usize, counter: u32)
    -> (r: Result<(Vec<AsmLine>, u32), ParseFailure>)
    requires
        source.wf(),
        start <= end <= source.chars@.len(),
    ensures
        line_parsed(
            r,
            spec_parse_line(source.chars@, start as int, end as int, line_number, counter),
        ),
        r is Err ==> start <= r->Err_0.at <= end,
{
    let tokens = lex(&source.chars, start, end);
    assert(tokens_wf(tokens@, source.chars@.len()));
    match parse_tokens(source, &tokens, start, line_number, counter) {
        Ok(parsed) => Ok(parsed),
        Err(failure) => Err(clamp_failure(failure, start, end)),
    }
}

/// Parses the tokens of a line that starts at `start`.
fn parse_tokens(
    source: &Source,
    tokens: &Vec<Token>,
    start: usize,
    line_number: usize,
    counter: u32,
) -> (r: Result<(Vec<AsmLine>, u32), ParseFailure>)
    requires
        source.wf(),
        tokens_wf(tokens@, source.chars@.len()),
    ensures
        line_parsed(
            r,
            spec_parse_tokens(source.chars@, tokens@, start as int, line_number, counter),
        ),
{
    let length = source.chars.len();
    match find_error(tokens) {
        Some(failure) => {
            return Err(failure);
        },
        None => {},
    }
    let labelled = tokens.len() > 0 && tokens[0].kind == TokenKind::Name && tokens[0].start
        == start;
    let pos: usize = if labelled {
        1
    } else {
        0
    };
    let label: Option<String> = if labelled {
        Some(source.slice(tokens[0].start, tokens[0].end))
    } else {
        None
    };
    match token_kind(tokens, pos) {
        Some(TokenKind::Opcode(cond, opcode)) => {
            let (arguments, next) = parse_arguments(source, tokens, pos + 1)?;
            let (items, counter_after) = match process_instruction(opcode, &arguments, counter) {
                Ok(processed) => processed,
                Err(message) => {
                    return Err(failure_at(tokens, pos, length, message));
                },
            };
            let contents = match process_line_contents(label, cond, items) {
                Ok(contents) => contents,
                Err(message) => {
                    return Err(failure_at(tokens, pos, length, message));
                },
            };
            let lines = finish_line(source, tokens, next, length, contents, line_number)?;
            Ok((lines, counter_after))
        },
        _ => {
            let mut contents: Vec<AsmLineContents> = Vec::new();
            match label {
                Some(name) => {
                    contents.push(AsmLineContents::Label(name));
                },
                None => {},
            }
            assert(contents_views(contents@) =~= label_contents(
                if labelled {
                    Some(
                        source.chars@.subrange(
                            tokens@[0].start as int,
                            tokens@[0].end as int,
                        ),
                    )
                } else {
                    None
                },
            ));
            let lines = finish_line(source, tokens, pos, length, contents, line_number)?;
            Ok((lines, counter))
        },
    }
}

/// A failure with its place moved into the line, if it was outside.
fn clamp_failure(failure: ParseFailure, start: usize, end: usize) -> (r: ParseFailure)
    requires
        start <= end,
    ensures
        r@ == clamped(failure@, start as int, end as int),
        start <= r.at <= end,
{
    ParseFailure {
        at: if failure.at < start {
            start
        } else if failure.at > end {
            end
        } else {
            failure.at
        },
        message: failure.message,
    }
}

} // verus!
