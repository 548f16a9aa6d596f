//! A test procedure for assembly routines: a source says in comments what
//! it expects of its run.
//!
//! A comment that starts with `;!` on a line of its own is a directive:
//! - `STEPS n`: run at most `n` steps;
//! - `HALTS n`: run at most `n` steps, and expect the program to halt;
//! - `MODE name`: start in this processor mode;
//! - a register name and a number or a label: expect this value in the
//!   register at the end.

use vstd::prelude::*;
use vstd::string::*;
use crate::assemble::heal_strategy;
use crate::assemble::spec_assemble_source;
use crate::assemble::keywords::matches_word;
use crate::assemble::keywords::word_is;
use crate::assemble::labels::LabelTable;
use crate::assemble::lexer::lex_one;
use crate::assemble::lexer::run_end;
use crate::assemble::lexer::scan_run;
use crate::assemble::lexer::spec_lex_one;
use crate::assemble::lexer::CharClass;
use crate::assemble::lexer::TokenKind;
use crate::assemble::parser::line::line_views;
use crate::assemble::parser::source::error_views;
use crate::assemble::parser::source::parse;
use crate::assemble::parser::source::spec_parse;
use crate::assemble::parser::Source;
use crate::assemble::syntax::AsmLine;
use crate::assemble::syntax::AsmLineContents;
use crate::assemble::syntax::AsmLineView;
use crate::assemble::AssemblerError;
use crate::assemble::AssemblerErrorView;
use crate::instr::ty::Register;
use crate::memory::DEFAULT_WORD;
use crate::memory::WORD_COUNT;
use crate::mode::Mode;
use crate::processor::advanced;
use crate::processor::spec_step;
use crate::processor::MachineState;
use crate::processor::Processor;
use crate::processor::ProcessorError;
use crate::processor::ProcessorState;
use crate::registers::cpsr_slot;
use crate::registers::PhysicalRegister;
use crate::registers::Registers;

verus! {

/// The number of the entries in the table of register directives.
pub const REGISTER_DIRECTIVE_COUNT: usize = 40;

/// The table of register directives. Entries above the last are read as the last.
pub open spec fn register_directive(index: usize) -> (Seq<char>, PhysicalRegister) {
    match index {
        0 => ("r0"@, PhysicalRegister::R0),
        1 => ("r1"@, PhysicalRegister::R1),
        2 => ("r2"@, PhysicalRegister::R2),
        3 => ("r3"@, PhysicalRegister::R3),
        4 => ("r4"@, PhysicalRegister::R4),
        5 => ("r5"@, PhysicalRegister::R5),
        6 => ("r6"@, PhysicalRegister::R6),
        7 => ("r7"@, PhysicalRegister::R7),
        8 => ("r8"@, PhysicalRegister::R8),
        9 => ("r9"@, PhysicalRegister::R9),
        10 => ("r10"@, PhysicalRegister::R10),
        11 => ("r11"@, PhysicalRegister::R11),
        12 => ("r12"@, PhysicalRegister::R12),
        13 => ("r13"@, PhysicalRegister::R13),
        14 => ("r14"@, PhysicalRegister::R14),
        15 => ("r15"@, PhysicalRegister::R15),
        16 => ("sp"@, PhysicalRegister::R13),
        17 => ("lr"@, PhysicalRegister::R14),
        18 => ("pc"@, PhysicalRegister::R15),
        19 => ("r8fiq"@, PhysicalRegister::R8Fiq),
        20 => ("r9fiq"@, PhysicalRegister::R9Fiq),
        21 => ("r10fiq"@, PhysicalRegister::R10Fiq),
        22 => ("r11fiq"@, PhysicalRegister::R11Fiq),
        23 => ("r12fiq"@, PhysicalRegister::R12Fiq),
        24 => ("r13fiq"@, PhysicalRegister::R13Fiq),
        25 => ("r14fiq"@, PhysicalRegister::R14Fiq),
        26 => ("r13svc"@, PhysicalRegister::R13Svc),
        27 => ("r14svc"@, PhysicalRegister::R14Svc),
        28 => ("r13abt"@, PhysicalRegister::R13Abt),
        29 => ("r14abt"@, PhysicalRegister::R14Abt),
        30 => ("r13irq"@, PhysicalRegister::R13Irq),
        31 => ("r14irq"@, PhysicalRegister::R14Irq),
        32 => ("r13und"@, PhysicalRegister::R13Und),
        33 => ("r14und"@, PhysicalRegister::R14Und),
        34 => ("cpsr"@, PhysicalRegister::Cpsr),
        35 => ("spsrfiq"@, PhysicalRegister::SpsrFiq),
        36 => ("spsrsvc"@, PhysicalRegister::SpsrSvc),
        37 => ("spsrabt"@, PhysicalRegister::SpsrAbt),
        38 => ("spsrirq"@, PhysicalRegister::SpsrIrq),
        _ => ("spsrund"@, PhysicalRegister::SpsrUnd),
    }
}

/// The table of register directives.
pub fn register_directive_at(index: usize) -> (r: (&'static str, PhysicalRegister))
    ensures
        r.0@ == register_directive(index).0,
        r.1 == register_directive(index).1,
{
    match index {
        0 => ("r0", PhysicalRegister::R0),
        1 => ("r1", PhysicalRegister::R1),
        2 => ("r2", PhysicalRegister::R2),
        3 => ("r3", PhysicalRegister::R3),
        4 => ("r4", PhysicalRegister::R4),
        5 => ("r5", PhysicalRegister::R5),
        6 => ("r6", PhysicalRegister::R6),
        7 => ("r7", PhysicalRegister::R7),
        8 => ("r8", PhysicalRegister::R8),
        9 => ("r9", PhysicalRegister::R9),
        10 => ("r10", PhysicalRegister::R10),
        11 => ("r11", PhysicalRegister::R11),
        12 => ("r12", PhysicalRegister::R12),
        13 => ("r13", PhysicalRegister::R13),
        14 => ("r14", PhysicalRegister::R14),
        15 => ("r15", PhysicalRegister::R15),
        16 => ("sp", PhysicalRegister::R13),
        17 => ("lr", PhysicalRegister::R14),
        18 => ("pc", PhysicalRegister::R15),
        19 => ("r8fiq", PhysicalRegister::R8Fiq),
        20 => ("r9fiq", PhysicalRegister::R9Fiq),
        21 => ("r10fiq", PhysicalRegister::R10Fiq),
        22 => ("r11fiq", PhysicalRegister::R11Fiq),
        23 => ("r12fiq", PhysicalRegister::R12Fiq),
        24 => ("r13fiq", PhysicalRegister::R13Fiq),
        25 => ("r14fiq", PhysicalRegister::R14Fiq),
        26 => ("r13svc", PhysicalRegister::R13Svc),
        27 => ("r14svc", PhysicalRegister::R14Svc),
        28 => ("r13abt", PhysicalRegister::R13Abt),
        29 => ("r14abt", PhysicalRegister::R14Abt),
        30 => ("r13irq", PhysicalRegister::R13Irq),
        31 => ("r14irq", PhysicalRegister::R14Irq),
        32 => ("r13und", PhysicalRegister::R13Und),
        33 => ("r14und", PhysicalRegister::R14Und),
        34 => ("cpsr", PhysicalRegister::Cpsr),
        35 => ("spsrfiq", PhysicalRegister::SpsrFiq),
        36 => ("spsrsvc", PhysicalRegister::SpsrSvc),
        37 => ("spsrabt", PhysicalRegister::SpsrAbt),
        38 => ("spsrirq", PhysicalRegister::SpsrIrq),
        _ => ("spsrund", PhysicalRegister::SpsrUnd),
    }
}

/// The number of the entries in the table of mode names.
pub const MODE_NAME_COUNT: usize = 11;

/// The table of mode names. Entries above the last are read as the last.
pub open spec fn mode_name(index: usize) -> (Seq<char>, Mode) {
    match index {
        0 => ("usr"@, Mode::Usr),
        1 => ("fiq"@, Mode::Fiq),
        2 => ("irq"@, Mode::Irq),
        3 => ("svc"@, Mode::Supervisor),
        4 => ("supervisor"@, Mode::Supervisor),
        5 => ("abt"@, Mode::Abort),
        6 => ("abort"@, Mode::Abort),
        7 => ("sys"@, Mode::System),
        8 => ("system"@, Mode::System),
        9 => ("und"@, Mode::Undefined),
        _ => ("undefined"@, Mode::Undefined),
    }
}

/// The table of mode names.
pub fn mode_name_at(index: usize) -> (r: (&'static str, Mode))
    ensures
        r.0@ == mode_name(index).0,
        r.1 == mode_name(index).1,
{
    match index {
        0 => ("usr", Mode::Usr),
        1 => ("fiq", Mode::Fiq),
        2 => ("irq", Mode::Irq),
        3 => ("svc", Mode::Supervisor),
        4 => ("supervisor", Mode::Supervisor),
        5 => ("abt", Mode::Abort),
        6 => ("abort", Mode::Abort),
        7 => ("sys", Mode::System),
        8 => ("system", Mode::System),
        9 => ("und", Mode::Undefined),
        _ => ("undefined", Mode::Undefined),
    }
}

/// Why a test fails.
#[derive(Debug)]
pub enum TestError {
    /// The source does not assemble.
    AssemblerError(Vec<AssemblerError>),
    /// A step of the processor failed.
    ProcessorError(ProcessorError),
    /// A directive is not of the form of a keyword and parameters, or its
    /// keyword is unknown. The number is that of its line.
    InvalidComment(usize),
    /// The parameters of a directive are not what its keyword takes. The
    /// number is that of its line.
    InvalidParams(usize),
    /// No directive says how many steps to run.
    StepsNotGiven,
    /// The program has more words than the memory.
    ProgramTooLarge,
    /// The program halted though it was not expected to, or did not halt
    /// though it was.
    HaltMismatch { expected: bool, halted: bool },
    /// A register does not hold the expected value at the end.
    RegisterMismatch { register: PhysicalRegister, expected: u32, actual: u32 },
}

/// Why a test fails, with the errors of the assembler as plain text.
pub enum TestFailure {
    Assembler(Seq<AssemblerErrorView>),
    Processor(ProcessorError),
    InvalidComment(usize),
    InvalidParams(usize),
    StepsNotGiven,
    ProgramTooLarge,
    HaltMismatch { expected: bool, halted: bool },
    RegisterMismatch { register: PhysicalRegister, expected: u32, actual: u32 },
}

impl View for TestError {
    type V = TestFailure;

    open spec fn view(&self) -> TestFailure {
        match self {
            TestError::AssemblerError(errors) => TestFailure::Assembler(error_views(errors@)),
            TestError::ProcessorError(error) => TestFailure::Processor(*error),
            TestError::InvalidComment(line) => TestFailure::InvalidComment(*line),
            TestError::InvalidParams(line) => TestFailure::InvalidParams(*line),
            TestError::StepsNotGiven => TestFailure::StepsNotGiven,
            TestError::ProgramTooLarge => TestFailure::ProgramTooLarge,
            TestError::HaltMismatch { expected, halted } => TestFailure::HaltMismatch {
                expected: *expected,
                halted: *halted,
            },
            TestError::RegisterMismatch {
                register,
                expected,
                actual,
            } => TestFailure::RegisterMismatch {
                register: *register,
                expected: *expected,
                actual: *actual,
            },
        }
    }
}

/// What the directives of a source ask for.
pub struct Plan {
    /// How many steps to run at most.
    pub steps: Option<usize>,
    /// Whether the program is expected to halt.
    pub halts: bool,
    /// The mode in which the processor starts.
    pub mode: Mode,
    /// The value expected in each of the 37 physical registers, if one is.
    pub expected: Vec<Option<u32>>,
}

/// A plan as plain values.
pub struct PlanView {
    pub steps: Option<usize>,
    pub halts: bool,
    pub mode: Mode,
    pub expected: Seq<Option<u32>>,
}

impl View for Plan {
    type V = PlanView;

    open spec fn view(&self) -> PlanView {
        PlanView {
            steps: self.steps,
            halts: self.halts,
            mode: self.mode,
            expected: self.expected@,
        }
    }
}

/// The plan of a source without directives: no steps, no halt, user mode,
/// and nothing expected of the registers.
pub open spec fn empty_plan() -> PlanView {
    PlanView {
        steps: None,
        halts: false,
        mode: Mode::Usr,
        expected: Seq::new(37, |i: int| None::<u32>),
    }
}

/// The register that a keyword names, by the first entry from `from` on.
pub open spec fn register_directive_from(src: Seq<char>, start: int, end: int, from: usize)
    -> Option<PhysicalRegister>
    decreases REGISTER_DIRECTIVE_COUNT - from,
{
    if from >= REGISTER_DIRECTIVE_COUNT {
        None
    } else if word_is(src, start, end, register_directive(from).0) {
        Some(register_directive(from).1)
    } else {
        register_directive_from(src, start, end, (from + 1) as usize)
    }
}

/// The mode that a parameter names, by the first entry from `from` on.
pub open spec fn mode_name_from(src: Seq<char>, start: int, end: int, from: usize) -> Option<
    Mode,
>
    decreases MODE_NAME_COUNT - from,
{
    if from >= MODE_NAME_COUNT {
        None
    } else if word_is(src, start, end, mode_name(from).0) {
        Some(mode_name(from).1)
    } else {
        mode_name_from(src, start, end, (from + 1) as usize)
    }
}

/// Where the text from `start` up to `end` ends once the blanks at its end
/// are taken off.
pub open spec fn trimmed_end(src: Seq<char>, start: int, end: int) -> int
    decreases end - start,
{
    if start < end && (src[end - 1] == ' ' || src[end - 1] == '\t' || src[end - 1] == '\x0C') {
        trimmed_end(src, start, end - 1)
    } else {
        end
    }
}

/// The number that the text from `start` up to `end` is, if it is one
/// integer literal, in any base that the assembler knows.
pub open spec fn number_at(src: Seq<char>, start: int, end: int) -> Option<u32> {
    if start < end && spec_lex_one(src, start, end).end == end {
        match spec_lex_one(src, start, end).kind {
            TokenKind::Integer(value) => Some(value),
            _ => None,
        }
    } else {
        None
    }
}

/// The value that the text from `start` up to `end` stands for: a number,
/// or the value of a label.
pub open spec fn value_at(src: Seq<char>, start: int, end: int, labels: Map<Seq<char>, u32>)
    -> Option<u32> {
    match number_at(src, start, end) {
        Some(value) => Some(value),
        None => if labels.contains_key(src.subrange(start, end)) {
            Some(labels[src.subrange(start, end)])
        } else {
            None
        },
    }
}

/// Whether a comment is a directive: it starts with `;!`.
pub open spec fn is_directive(comment: Seq<char>) -> bool {
    comment.len() >= 2 && comment[0] == ';' && comment[1] == '!'
}

/// The plan after the directive of a comment on line `line_number`.
///
/// The keyword is the first word after `;!`, the parameters are the rest
/// without the blanks around it; both must be there (`InvalidComment`).
/// The keyword is a register, `steps`, `halts` or `mode`, in either case
/// of the letters (`InvalidComment` otherwise); its parameters must be a
/// value, a number that does not start with a sign, or the name of a
/// mode (`InvalidParams` otherwise).
pub open spec fn spec_directive(
    plan: PlanView,
    comment: Seq<char>,
    line_number: usize,
    labels: Map<Seq<char>, u32>,
) -> Result<PlanView, TestFailure> {
    let length = comment.len() as int;
    let keyword = run_end(comment, 2, length, CharClass::Space);
    let keyword_end = run_end(comment, keyword, length, CharClass::Solid);
    let params = run_end(comment, keyword_end, length, CharClass::Space);
    let params_end = trimmed_end(comment, params, length);
    if keyword == keyword_end || params == keyword_end || params == params_end {
        Err(TestFailure::InvalidComment(line_number))
    } else {
        match register_directive_from(comment, keyword, keyword_end, 0) {
            Some(register) => match value_at(comment, params, params_end, labels) {
                Some(value) => Ok(
                    PlanView {
                        expected: plan.expected.update(register.spec_index(), Some(value)),
                        ..plan
                    },
                ),
                None => Err(TestFailure::InvalidParams(line_number)),
            },
            None => if word_is(comment, keyword, keyword_end, "steps"@) || word_is(
                comment,
                keyword,
                keyword_end,
                "halts"@,
            ) {
                match number_at(comment, params, params_end) {
                    Some(steps) => if comment[params] == '-' {
                        Err(TestFailure::InvalidParams(line_number))
                    } else {
                        Ok(
                            PlanView {
                                steps: Some(steps as usize),
                                halts: plan.halts || word_is(
                                    comment,
                                    keyword,
                                    keyword_end,
                                    "halts"@,
                                ),
                                ..plan
                            },
                        )
                    },
                    None => Err(TestFailure::InvalidParams(line_number)),
                }
            } else if word_is(comment, keyword, keyword_end, "mode"@) {
                match mode_name_from(comment, params, params_end, 0) {
                    Some(mode) => Ok(PlanView { mode, ..plan }),
                    None => Err(TestFailure::InvalidParams(line_number)),
                }
            } else {
                Err(TestFailure::InvalidComment(line_number))
            },
        }
    }
}

/// The plan that the directives of the first `count` lines ask for, or the
/// failure of the first directive that is wrong. A directive is a comment
/// that starts with `;!` on a line that holds nothing else.
pub open spec fn spec_plan(lines: Seq<AsmLineView>, labels: Map<Seq<char>, u32>, count: nat)
    -> Result<PlanView, TestFailure>
    decreases count,
{
    if count == 0 {
        Ok(empty_plan())
    } else {
        match spec_plan(lines, labels, (count - 1) as nat) {
            Err(e) => Err(e),
            Ok(plan) => {
                let line = lines[count - 1];
                if line.contents is Empty && is_directive(line.comment) {
                    spec_directive(plan, line.comment, line.line_number, labels)
                } else {
                    Ok(plan)
                }
            },
        }
    }
}

/// The machine in which a test starts: the registers in their initial
/// state but in the given mode, the program from address 0 on, and the
/// default word in the rest of the memory.
pub open spec fn initial_machine(program: Seq<u32>, mode: Mode) -> MachineState {
    MachineState {
        regs: Registers::default_view().update(
            cpsr_slot(),
            (Registers::default_view()[cpsr_slot()] - crate::instr::bits::field(
                Registers::default_view()[cpsr_slot()],
                0,
                5,
            ) + mode.spec_bits()) as u32,
        ),
        mem: Seq::new(
            WORD_COUNT as nat,
            |word: int| if word < program.len() { program[word] } else { DEFAULT_WORD },
        ),
        state: ProcessorState::Running,
    }
}

/// The machine after at most `steps` steps, each followed by the move of
/// the program counter, and whether it halted; or the error of the first
/// step that failed.
pub open spec fn spec_run(m: MachineState, steps: nat) -> Result<
    (MachineState, bool),
    ProcessorError,
>
    decreases steps,
{
    if steps == 0 {
        Ok((m, false))
    } else {
        match spec_step(m) {
            Err(e) => Err(e),
            Ok((next, _)) => if next.state == ProcessorState::Stopped {
                Ok((advanced(next), true))
            } else {
                spec_run(advanced(next), (steps - 1) as nat)
            },
        }
    }
}

/// Where the machine stands at the end of a run of at most `steps` steps:
/// after the last step that succeeded, with the program counter moved on.
/// A step that fails leaves the machine as it was before that step.
pub open spec fn spec_run_end(m: MachineState, steps: nat) -> MachineState
    decreases steps,
{
    if steps == 0 {
        m
    } else {
        match spec_step(m) {
            Err(_) => m,
            Ok((next, _)) => if next.state == ProcessorState::Stopped {
                advanced(next)
            } else {
                spec_run_end(advanced(next), (steps - 1) as nat)
            },
        }
    }
}

/// The first of the registers from slot `from` on that does not hold what
/// is expected of it.
pub open spec fn first_mismatch(regs: Seq<u32>, expected: Seq<Option<u32>>, from: int) -> Option<
    int,
>
    decreases 37 - from,
{
    if from < 0 || from >= 37 {
        None
    } else if expected[from] is Some && expected[from] != Some(regs[from]) {
        Some(from)
    } else {
        first_mismatch(regs, expected, from + 1)
    }
}

/// What running a program under a plan gives: success, or why not.
pub open spec fn spec_check(program: Seq<u32>, plan: PlanView) -> Result<(), TestFailure> {
    match plan.steps {
        None => Err(TestFailure::StepsNotGiven),
        Some(steps) => if program.len() > WORD_COUNT {
            Err(TestFailure::ProgramTooLarge)
        } else {
            match spec_run(initial_machine(program, plan.mode), steps as nat) {
                Err(e) => Err(TestFailure::Processor(e)),
                Ok((m, halted)) => if halted != plan.halts {
                    Err(TestFailure::HaltMismatch { expected: plan.halts, halted })
                } else {
                    match first_mismatch(m.regs, plan.expected, 0) {
                        Some(slot) => Err(
                            TestFailure::RegisterMismatch {
                                register: physical_at(slot),
                                expected: plan.expected[slot]->Some_0,
                                actual: m.regs[slot],
                            },
                        ),
                        None => Ok(()),
                    }
                },
            }
        },
    }
}

/// The physical register in a slot of the bank.
pub open spec fn physical_at(slot: int) -> PhysicalRegister {
    choose|register: PhysicalRegister| register.spec_index() == slot
}

/// What the test of a source gives: the source must assemble, its
/// directives must make a plan, and the run of its program must be what
/// the plan expects.
pub open spec fn spec_test(src: Seq<char>) -> Result<(), TestFailure> {
    let lines = spec_parse(src).lines;
    match spec_assemble_source(src) {
        Err(errors) => Err(TestFailure::Assembler(errors)),
        Ok(output) => match spec_plan(lines, output.labels, lines.len()) {
            Err(e) => Err(e),
            Ok(plan) => spec_check(output.instrs, plan),
        },
    }
}

/// Looks a keyword up in the table of register directives.
fn find_register_directive(chars: &Vec<char>, start: usize, end: usize) -> (r: Option<
    PhysicalRegister,
>)
    requires
        start <= end <= chars@.len(),
    ensures
        r == register_directive_from(chars@, start as int, end as int, 0),
{
    let mut i: usize = 0;
    while i < REGISTER_DIRECTIVE_COUNT
        invariant
            i <= REGISTER_DIRECTIVE_COUNT,
            start <= end <= chars@.len(),
            register_directive_from(chars@, start as int, end as int, i)
                == register_directive_from(chars@, start as int, end as int, 0),
        decreases REGISTER_DIRECTIVE_COUNT - i,
    {
        let (word, register) = register_directive_at(i);
        if matches_word(chars, start, end, word) {
            return Some(register);
        }
        i += 1;
    }
    None
}

/// Looks a parameter up in the table of mode names.
fn find_mode(chars: &Vec<char>, start: usize, end: usize) -> (r: Option<Mode>)
    requires
        start <= end <= chars@.len(),
    ensures
        r == mode_name_from(chars@, start as int, end as int, 0),
{
    let mut i: usize = 0;
    while i < MODE_NAME_COUNT
        invariant
            i <= MODE_NAME_COUNT,
            start <= end <= chars@.len(),
            mode_name_from(chars@, start as int, end as int, i) == mode_name_from(
                chars@,
                start as int,
                end as int,
                0,
            ),
        decreases MODE_NAME_COUNT - i,
    {
        let (word, mode) = mode_name_at(i);
        if matches_word(chars, start, end, word) {
            return Some(mode);
        }
        i += 1;
    }
    None
}

/// Takes the blanks off the end of a text.
fn trim_end(chars: &Vec<char>, start: usize, end: usize) -> (r: usize)
    requires
        start <= end <= chars@.len(),
    ensures
        r == trimmed_end(chars@, start as int, end as int),
        start <= r <= end,
{
    let mut at = end;
    while at > start && (chars[at - 1] == ' ' || chars[at - 1] == '\t' || chars[at - 1] == '\x0C')
        invariant
            start <= at <= end <= chars@.len(),
            trimmed_end(chars@, start as int, at as int) == trimmed_end(
                chars@,
                start as int,
                end as int,
            ),
        decreases at - start,
    {
        at -= 1;
    }
    at
}

/// Reads a text as one integer literal.
fn read_number(chars: &Vec<char>, start: usize, end: usize) -> (r: Option<u32>)
    requires
        start <= end <= chars@.len(),
    ensures
        r == number_at(chars@, start as int, end as int),
{
    if start >= end {
        return None;
    }
    let token = lex_one(chars, start, end);
    if token.end != end {
        return None;
    }
    match token.kind {
        TokenKind::Integer(value) => Some(value),
        _ => None,
    }
}

/// Reads a text as a number or as the name of a label.
fn read_value(source: &Source, start: usize, end: usize, labels: &LabelTable) -> (r: Option<u32>)
    requires
        source.wf(),
        labels.wf(),
        start <= end <= source.chars@.len(),
    ensures
        r == value_at(source.chars@, start as int, end as int, labels@),
{
    match read_number(&source.chars, start, end) {
        Some(value) => Some(value),
        None => labels.get(&source.slice(start, end)),
    }
}

/// Takes the directive of a comment into the plan.
fn apply_directive(plan: &mut Plan, comment: &String, line_number: usize, labels: &LabelTable) -> (r:
    Result<(), TestError>)
    requires
        labels.wf(),
        old(plan).expected@.len() == 37,
    ensures
        match spec_directive(old(plan)@, comment@, line_number, labels@) {
            Ok(next) => r is Ok && final(plan)@ == next && final(plan).expected@.len() == 37,
            Err(e) => r matches Err(got) && got@ == e,
        },
{
    let source = Source::new(comment.as_str());
    let chars = &source.chars;
    let length = chars.len();
    if length < 2 {
        proof {
            crate::assemble::lexer::lemma_run_end(chars@, length as int, length as int, CharClass::Space);
        }
        return Err(TestError::InvalidComment(line_number));
    }
    let keyword = scan_run(chars, 2, length, CharClass::Space);
    let keyword_end = scan_run(chars, keyword, length, CharClass::Solid);
    let params = scan_run(chars, keyword_end, length, CharClass::Space);
    let params_end = trim_end(chars, params, length);
    if keyword == keyword_end || params == keyword_end || params == params_end {
        return Err(TestError::InvalidComment(line_number));
    }
    match find_register_directive(chars, keyword, keyword_end) {
        Some(register) => {
            return match read_value(&source, params, params_end, labels) {
                Some(value) => {
                    plan.expected[register.index()] = Some(value);
                    Ok(())
                },
                None => Err(TestError::InvalidParams(line_number)),
            };
        },
        None => {},
    }
    let is_steps = matches_word(chars, keyword, keyword_end, "steps");
    let is_halts = matches_word(chars, keyword, keyword_end, "halts");
    if is_steps || is_halts {
        match read_number(chars, params, params_end) {
            Some(steps) => {
                if chars[params] == '-' {
                    return Err(TestError::InvalidParams(line_number));
                }
                plan.steps = Some(steps as usize);
                if is_halts {
                    plan.halts = true;
                }
                Ok(())
            },
            None => Err(TestError::InvalidParams(line_number)),
        }
    } else if matches_word(chars, keyword, keyword_end, "mode") {
        match find_mode(chars, params, params_end) {
            Some(mode) => {
                plan.mode = mode;
                Ok(())
            },
            None => Err(TestError::InvalidParams(line_number)),
        }
    } else {
        Err(TestError::InvalidComment(line_number))
    }
}

/// Whether a comment is a directive.
fn comment_is_directive(comment: &String) -> (r: bool)
    ensures
        r == is_directive(comment@),
{
    let text = comment.as_str();
    let length = text.unicode_len();
    length >= 2 && text.get_char(0) == ';' && text.get_char(1) == '!'
}

/// A directive that is wrong spoils the plan.
proof fn lemma_plan_error(
    lines: Seq<AsmLineView>,
    labels: Map<Seq<char>, u32>,
    failed: nat,
    count: nat,
)
    requires
        failed <= count,
        spec_plan(lines, labels, failed) is Err,
    ensures
        spec_plan(lines, labels, count) == spec_plan(lines, labels, failed),
    decreases count,
{
    if failed < count {
        lemma_plan_error(lines, labels, failed, (count - 1) as nat);
    }
}

/// Reads the plan of a test from the directives of its lines.
pub fn read_plan(lines: &Vec<AsmLine>, labels: &LabelTable) -> (r: Result<Plan, TestError>)
    requires
        labels.wf(),
    ensures
        match spec_plan(line_views(lines@), labels@, lines@.len()) {
            Ok(plan) => r matches Ok(got) && got@ == plan && got.expected@.len() == 37,
            Err(e) => r matches Err(got) && got@ == e,
        },
{
    let mut expected: Vec<Option<u32>> = Vec::new();
    let mut slot: usize = 0;
    while slot < 37
        invariant
            slot <= 37,
            expected@.len() == slot,
            forall|i: int| 0 <= i < slot ==> expected@[i] is None,
        decreases 37 - slot,
    {
        expected.push(None);
        slot += 1;
    }
    let mut plan = Plan { steps: None, halts: false, mode: Mode::Usr, expected };
    assert(plan@.expected =~= empty_plan().expected);
    let mut i: usize = 0;
    while i < lines.len()
        invariant
            i <= lines@.len(),
            labels.wf(),
            plan.expected@.len() == 37,
            spec_plan(line_views(lines@), labels@, i as nat) == Ok::<PlanView, TestFailure>(plan@),
        decreases lines@.len() - i,
    {
        let line = &lines[i];
        let empty = match &line.contents {
            AsmLineContents::Empty => true,
            _ => false,
        };
        if empty && comment_is_directive(&line.comment) {
            match apply_directive(&mut plan, &line.comment, line.line_number, labels) {
                Ok(()) => {},
                Err(error) => {
                    proof {
                        lemma_plan_error(line_views(lines@), labels@, (i + 1) as nat, lines@.len());
                    }
                    return Err(error);
                },
            }
        }
        i += 1;
    }
    Ok(plan)
}

/// Runs a processor for at most `steps` steps, and moves the program
/// counter on after each. Returns whether the processor halted, or the
/// error of the step that failed; the processor is then left as it was
/// before that step.
pub fn run(processor: &mut Processor, steps: usize) -> (r: Result<bool, ProcessorError>)
    requires
        old(processor).wf(),
    ensures
        final(processor).wf(),
        final(processor)@ == spec_run_end(old(processor)@, steps as nat),
        match spec_run(old(processor)@, steps as nat) {
            Ok((m, halted)) => r == Ok::<bool, ProcessorError>(halted) && final(processor)@ == m,
            Err(e) => r == Err::<bool, ProcessorError>(e),
        },
{
    let mut done: usize = 0;
    while done < steps
        invariant
            done <= steps,
            processor.wf(),
            spec_run(processor@, (steps - done) as nat) == spec_run(old(processor)@, steps as nat),
            spec_run_end(processor@, (steps - done) as nat) == spec_run_end(
                old(processor)@,
                steps as nat,
            ),
        decreases steps - done,
    {
        match processor.step() {
            Ok(_) => {},
            Err(error) => {
                return Err(error);
            },
        }
        // Advance the program counter.
        let pc = processor.registers().get(Register::R15);
        processor.registers_mut().set(Register::R15, pc.wrapping_add(4));
        if processor.state() == ProcessorState::Stopped {
            return Ok(true);
        }
        done += 1;
    }
    Ok(false)
}

/// Finds the first register that does not hold what is expected of it.
fn check_registers(registers: &Registers, expected: &Vec<Option<u32>>) -> (r: Result<
    (),
    TestError,
>)
    requires
        expected@.len() == 37,
    ensures
        match first_mismatch(registers@, expected@, 0) {
            Some(slot) => r matches Err(got) && got@ == (TestFailure::RegisterMismatch {
                register: physical_at(slot),
                expected: expected@[slot]->Some_0,
                actual: registers@[slot],
            }),
            None => r is Ok,
        },
{
    let mut slot: usize = 0;
    while slot < 37
        invariant
            slot <= 37,
            expected@.len() == 37,
            first_mismatch(registers@, expected@, slot as int) == first_mismatch(
                registers@,
                expected@,
                0,
            ),
        decreases 37 - slot,
    {
        match expected[slot] {
            Some(value) => {
                let register = physical_register_at(slot);
                let actual = registers.get_physical(register);
                if actual != value {
                    return Err(
                        TestError::RegisterMismatch { register, expected: value, actual },
                    );
                }
            },
            None => {},
        }
        slot += 1;
    }
    Ok(())
}

/// The physical register in a slot of the bank.
pub fn physical_register_at(slot: usize) -> (r: PhysicalRegister)
    requires
        slot < 37,
    ensures
        r.spec_index() == slot,
        r == physical_at(slot as int),
{
    let r = match slot {
        0 => PhysicalRegister::R0,
        1 => PhysicalRegister::R1,
        2 => PhysicalRegister::R2,
        3 => PhysicalRegister::R3,
        4 => PhysicalRegister::R4,
        5 => PhysicalRegister::R5,
        6 => PhysicalRegister::R6,
        7 => PhysicalRegister::R7,
        8 => PhysicalRegister::R8,
        9 => PhysicalRegister::R9,
        10 => PhysicalRegister::R10,
        11 => PhysicalRegister::R11,
        12 => PhysicalRegister::R12,
        13 => PhysicalRegister::R13,
        14 => PhysicalRegister::R14,
        15 => PhysicalRegister::R15,
        16 => PhysicalRegister::R8Fiq,
        17 => PhysicalRegister::R9Fiq,
        18 => PhysicalRegister::R10Fiq,
        19 => PhysicalRegister::R11Fiq,
        20 => PhysicalRegister::R12Fiq,
        21 => PhysicalRegister::R13Fiq,
        22 => PhysicalRegister::R14Fiq,
        23 => PhysicalRegister::R13Svc,
        24 => PhysicalRegister::R14Svc,
        25 => PhysicalRegister::R13Abt,
        26 => PhysicalRegister::R14Abt,
        27 => PhysicalRegister::R13Irq,
        28 => PhysicalRegister::R14Irq,
        29 => PhysicalRegister::R13Und,
        30 => PhysicalRegister::R14Und,
        31 => PhysicalRegister::Cpsr,
        32 => PhysicalRegister::SpsrFiq,
        33 => PhysicalRegister::SpsrSvc,
        34 => PhysicalRegister::SpsrAbt,
        35 => PhysicalRegister::SpsrIrq,
        _ => PhysicalRegister::SpsrUnd,
    };
    proof {
        let chosen = physical_at(slot as int);
        r.lemma_index_injective(chosen);
    }
    r
}

/// Runs a program under a plan and checks what the plan expects.
pub fn check(program: &Vec<u32>, plan: &Plan) -> (r: Result<(), TestError>)
    requires
        plan.expected@.len() == 37,
    ensures
        match spec_check(program@, plan@) {
            Ok(()) => r is Ok,
            Err(e) => r matches Err(got) && got@ == e,
        },
{
    let steps = match plan.steps {
        Some(steps) => steps,
        None => {
            return Err(TestError::StepsNotGiven);
        },
    };
    if program.len() > WORD_COUNT {
        return Err(TestError::ProgramTooLarge);
    }
    let mut processor = Processor::default();
    processor.registers_mut().set_mode(plan.mode);
    processor.memory_mut().set_words_aligned(0, program.as_slice());
    assert(processor@.mem =~= initial_machine(program@, plan.mode).mem);
    assert(processor@ == initial_machine(program@, plan.mode));
    let halted = match run(&mut processor, steps) {
        Ok(halted) => halted,
        Err(error) => {
            return Err(TestError::ProcessorError(error));
        },
    };
    if halted != plan.halts {
        return Err(TestError::HaltMismatch { expected: plan.halts, halted });
    }
    check_registers(processor.registers(), &plan.expected)
}

/// Assembles a source, runs its program as its directives say, and checks
/// what they expect.
pub fn test(src: &str) -> (r: Result<(), TestError>)
    ensures
        match spec_test(src@) {
            Ok(()) => r is Ok,
            Err(e) => r matches Err(got) && got@ == e,
        },
{
    let lines = match parse(src) {
        Ok(lines) => lines,
        Err(errors) => {
            return Err(TestError::AssemblerError(errors));
        },
    };
    let heal = heal_strategy(&lines);
    let output = match crate::assemble::assembler::assemble_lines(&lines, heal) {
        Ok(output) => output,
        Err(error) => {
            let ghost error_view = error@;
            let mut errors = Vec::new();
            errors.push(error);
            assert(error_views(errors@) =~= seq![error_view]);
            return Err(TestError::AssemblerError(errors));
        },
    };
    let plan = read_plan(&lines, &output.labels)?;
    check(&output.instrs, &plan)
}

} // verus!
