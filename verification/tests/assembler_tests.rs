use armul::assemble::assemble;
use armul::assemble::assembler::assemble as assemble_lines;
use armul::assemble::fill_register;
use armul::assemble::heal_of_comment;
use armul::assemble::keywords::Opcode;
use armul::assemble::lexer::lex;
use armul::assemble::lexer::LexError;
use armul::assemble::lexer::TokenKind;
use armul::assemble::parser::parse;
use armul::assemble::syntax::AsmInstr;
use armul::assemble::syntax::AsmLine;
use armul::assemble::syntax::AsmLineContents;
use armul::assemble::syntax::DataOperand;
use armul::assemble::syntax::Expression;
use armul::assemble::syntax::Shift;
use armul::assemble::HealStrategy;
use armul::assemble::LabelTable;
use armul::assemble::LineError;
use armul::harness;
use armul::harness::TestError;
use armul::instr::Cond;
use armul::instr::ConstantStyle;
use armul::instr::DataOp;
use armul::instr::Instr;
use armul::instr::LineInfo;
use armul::instr::PrettyArgument;
use armul::instr::PrettyInstr;
use armul::instr::Psr;
use armul::instr::ShiftType;
use armul::instr::Register;
use armul::processor::ProcessorError;
use armul::registers::PhysicalRegister;

fn kinds(src: &str) -> Vec<TokenKind> {
    let chars: Vec<char> = src.chars().collect();
    lex(&chars, 0, chars.len()).into_iter().map(|token| token.kind).collect()
}

fn error_of(src: &str) -> (usize, LineError) {
    let mut errors = assemble(src).expect_err("the source is in error");
    assert_eq!(errors.len(), 1);
    let error = errors.remove(0);
    (error.line_number, error.error)
}

fn label(output: &armul::assemble::AssemblerOutput, name: &str) -> Option<u32> {
    output.labels.get(&name.to_owned())
}

#[test]
fn numbers_are_read_in_every_base() {
    assert_eq!(kinds("42"), [TokenKind::Integer(42)]);
    assert_eq!(kinds("0x1F"), [TokenKind::Integer(31)]);
    assert_eq!(kinds("0XfF"), [TokenKind::Integer(255)]);
    assert_eq!(kinds("&1F"), [TokenKind::Integer(31)]);
    assert_eq!(kinds("0o17"), [TokenKind::Integer(15)]);
    assert_eq!(kinds("0b1010"), [TokenKind::Integer(10)]);
    assert_eq!(kinds("1_000_000"), [TokenKind::Integer(1_000_000)]);
    assert_eq!(kinds("0xDEAD_BEEF"), [TokenKind::Integer(0xDEAD_BEEF)]);
    assert_eq!(kinds("4294967295"), [TokenKind::Integer(u32::MAX)]);
    assert_eq!(kinds("-1"), [TokenKind::Integer(u32::MAX)]);
    assert_eq!(kinds("-2147483648"), [TokenKind::Integer(0x8000_0000)]);
    assert_eq!(kinds("-0"), [TokenKind::Integer(0)]);
    assert_eq!(kinds("4294967296"), [TokenKind::Error(LexError::Overflow)]);
    assert_eq!(kinds("-2147483649"), [TokenKind::Error(LexError::Overflow)]);
    assert_eq!(kinds("0x1_0000_0000"), [TokenKind::Error(LexError::Overflow)]);
    assert_eq!(kinds("12ab"), [TokenKind::Error(LexError::InvalidInteger)]);
    assert_eq!(kinds("0b102"), [TokenKind::Error(LexError::InvalidInteger)]);
    assert_eq!(kinds("0o8"), [TokenKind::Error(LexError::InvalidInteger)]);
    assert_eq!(kinds("0x"), [TokenKind::Error(LexError::InvalidInteger)]);
    assert_eq!(kinds("@"), [TokenKind::Error(LexError::InvalidCharacter)]);
}

#[test]
fn names_are_told_from_keywords() {
    assert_eq!(kinds("loop"), [TokenKind::Name]);
    assert_eq!(kinds("R10"), [TokenKind::Register(Register::R10)]);
    assert_eq!(kinds("sp Lr pC"), [
        TokenKind::Register(Register::R13),
        TokenKind::Register(Register::R14),
        TokenKind::Register(Register::R15),
    ]);
    assert_eq!(kinds("mov"), [TokenKind::Opcode(Cond::AL, Opcode::Data(false, DataOp::Mov))]);
    assert_eq!(kinds("MOVS"), [TokenKind::Opcode(Cond::AL, Opcode::Data(true, DataOp::Mov))]);
    assert_eq!(kinds("movcs"), [TokenKind::Opcode(Cond::CS, Opcode::Data(false, DataOp::Mov))]);
    assert_eq!(kinds("MovNeS"), [TokenKind::Opcode(Cond::NE, Opcode::Data(true, DataOp::Mov))]);
    assert_eq!(kinds("bleq"), [TokenKind::Opcode(Cond::EQ, Opcode::Branch { link: true })]);
    assert_eq!(kinds("blt"), [TokenKind::Opcode(Cond::LT, Opcode::Branch { link: false })]);
    assert_eq!(kinds("bal"), [TokenKind::Opcode(Cond::AL, Opcode::Branch { link: false })]);
    assert_eq!(kinds("teq"), [TokenKind::Opcode(Cond::AL, Opcode::Data(true, DataOp::Teq))]);
    assert_eq!(kinds("lsl"), [TokenKind::Opcode(Cond::AL, Opcode::Shift(false, ShiftType::LogicalLeft))]);
    assert_eq!(kinds("asl"), [TokenKind::Opcode(Cond::AL, Opcode::Shift(false, ShiftType::LogicalLeft))]);
    assert_eq!(kinds("cpsr_flg"), [TokenKind::Psr(Psr::Cpsr, true)]);
    assert_eq!(kinds("SPSR_all"), [TokenKind::Psr(Psr::Spsr, false)]);
    assert_eq!(kinds("movx"), [TokenKind::Name]);
    assert_eq!(kinds("a-b_c"), [TokenKind::Name]);
    assert_eq!(kinds("ldmfd"), [TokenKind::Opcode(
        Cond::AL,
        Opcode::BlockTransfer(armul::instr::TransferKind::Load, true, false)
    )]);
    assert_eq!(kinds("stmfd"), [TokenKind::Opcode(
        Cond::AL,
        Opcode::BlockTransfer(armul::instr::TransferKind::Store, false, true)
    )]);
    assert_eq!(Opcode::Data(true, DataOp::Mov).text(), "MOVS");
    assert_eq!(Opcode::MulLong(false, true, true).text(), "SMLAL");
    assert_eq!(kinds(" +-*/,#!()[] \t; rest * of line"), [
        TokenKind::Add,
        TokenKind::Sub,
        TokenKind::Mul,
        TokenKind::Div,
        TokenKind::Comma,
        TokenKind::Hash,
        TokenKind::Exclamation,
        TokenKind::LParen,
        TokenKind::RParen,
        TokenKind::LSquare,
        TokenKind::RSquare,
        TokenKind::Comment,
    ]);
}

#[test]
fn lines_are_parsed_into_their_contents() {
    let lines = parse("start   mov r0, #1 ; first\n\n  ; alone\nend\nten equ 5 * 2\n  defw 1, ten\n")
        .expect("the source parses");
    let numbers: Vec<usize> = lines.iter().map(|line| line.line_number).collect();
    assert_eq!(numbers, [1, 1, 2, 3, 4, 5, 6, 6]);
    assert_eq!(lines[0].contents, AsmLineContents::Label("start".to_owned()));
    assert_eq!(lines[0].comment, "; first");
    assert_eq!(
        lines[1].contents,
        AsmLineContents::Instr(
            Cond::AL,
            AsmInstr::Data {
                set_condition_codes: false,
                op: DataOp::Mov,
                dest: Register::R0,
                op1: Register::R0,
                op2: DataOperand::Constant(Expression::Constant(1)),
            }
        )
    );
    assert_eq!(lines[1].comment, "");
    assert_eq!(lines[2].contents, AsmLineContents::Empty);
    assert_eq!(lines[3].contents, AsmLineContents::Empty);
    assert_eq!(lines[3].comment, "; alone");
    assert_eq!(lines[4].contents, AsmLineContents::Label("end".to_owned()));
    assert_eq!(
        lines[5].contents,
        AsmLineContents::Equ(
            "ten".to_owned(),
            Expression::Mul(Box::new(Expression::Constant(5)), Box::new(Expression::Constant(2)))
        )
    );
    assert_eq!(lines[6].contents, AsmLineContents::DefWord(Expression::Constant(1)));
    assert_eq!(lines[7].contents, AsmLineContents::DefWord(Expression::Label("ten".to_owned())));
}

#[test]
fn operators_bind_as_in_arithmetic() {
    let value = |expression: &str| {
        let output = assemble(&format!("        defw {expression}\n")).expect("assembles");
        output.instrs[0]
    };
    assert_eq!(value("2 + 3 * 4"), 14);
    assert_eq!(value("(2 + 3) * 4"), 20);
    assert_eq!(value("20 - 4 - 3"), 13);
    assert_eq!(value("20 / 4 / 2"), 2);
    assert_eq!(value("1 lsl 4 + 1"), 32);
    assert_eq!(value("0x100 lsr 4 or 1 lsl 1"), 0x12);
    assert_eq!(value("1 or 2 + 4"), 7);
    assert_eq!(value("#7 / 0"), 0);
    assert_eq!(value("0 - 1"), 0xFFFF_FFFF);
    assert_eq!(value("0xFFFFFFFF * 2"), 0xFFFF_FFFE);
    assert_eq!(value("-16 asr 2"), 0xFFFF_FFFC);
    assert_eq!(value("-16 lsr 2"), 0x3FFF_FFFC);
    assert_eq!(value("1 ror 1"), 0x8000_0000);
    assert_eq!(value("1 lsl 33"), 2);
    assert_eq!(value("0x80000000 asr 32"), 0x8000_0000);
}

#[test]
fn labels_are_resolved_before_and_after_their_use() {
    let src = "start   b end\n        mov r0, #0x12345678\nmiddle  b start\nend     b middle\nsize equ end - start\n";
    let output = assemble(src).expect("the source assembles");
    assert_eq!(label(&output, "start"), Some(0));
    // The healed move takes five words.
    assert_eq!(label(&output, "middle"), Some(24));
    assert_eq!(label(&output, "end"), Some(28));
    assert_eq!(label(&output, "size"), Some(28));
    assert_eq!(label(&output, "nowhere"), None);
    assert_eq!(output.labels.len(), 4);
    assert_eq!(output.instrs.len(), 8);
    assert!(1 <= output.passes && output.passes <= 10);
    assert_eq!(output.passes, 2);
    assert!(output.warnings.is_empty());
    assert_eq!(Instr::decode(output.instrs[0]), Some((Cond::AL, Instr::Branch { link: false, offset: 20 })));
    assert_eq!(Instr::decode(output.instrs[7]), Some((Cond::AL, Instr::Branch { link: false, offset: -12 })));
    // Every name is in the table once.
    let mut names: Vec<String> =
        (0..output.labels.len()).map(|i| output.labels.entry(i).0.clone()).collect();
    names.sort();
    assert_eq!(names, ["end", "middle", "size", "start"]);
}

#[test]
fn labels_that_do_not_settle_are_given_up() {
    let (line, error) = error_of("x equ y + 1\ny equ x + 1\n");
    assert_eq!(line, 0);
    assert!(matches!(error, LineError::TooManyPasses));
}

#[test]
fn each_line_error_has_its_cause() {
    assert!(matches!(error_of("        mov r0, r1 r2\n"), (1, LineError::ParseError(_))));
    assert!(matches!(error_of("\n        b nowhere\n"), (2, LineError::LabelNotFound(name)) if name == "nowhere"));
    assert!(matches!(error_of("        mov r0, r1, lsl #32\n"), (1, LineError::ShiftOutOfRange)));
    assert!(matches!(error_of("        mov r0, r1, lsl #256\n"), (1, LineError::ShiftOutOfRange)));
    assert!(matches!(error_of("        b 2\n"), (1, LineError::MisalignedBranchOffset)));
    assert!(matches!(error_of("        b 0x2000008\n"), (1, LineError::OffsetOutOfRange)));
    assert!(matches!(
        error_of("; heal simple\n        mov r0, #0x101\n"),
        (2, LineError::ImmediateOutOfRange(0x101))
    ));
    assert!(matches!(
        error_of(";HEAL OFF  \n        ldr r0, [r1, #4096]\n"),
        (2, LineError::ImmediateOutOfRange(4096))
    ));
    assert!(matches!(error_of("        strsb r0, [r1]\n"), (1, LineError::InvalidStoreSize)));
    assert!(matches!(error_of("        ldrh r0, [r1, r2, lsl #1]\n"), (1, LineError::AddressTooComplex)));
    assert!(matches!(
        error_of("; HEAL OFF\n        ldrh r0, [r1, #256]\n"),
        (2, LineError::AddressTooComplex)
    ));
    assert_eq!(LineError::ImmediateOutOfRange(257).message(), "immediate out of range: 257");
    assert_eq!(LineError::LabelNotFound("x".to_owned()).message(), "label not found: x");
}

#[test]
fn every_line_that_cannot_be_parsed_is_reported() {
    let errors = assemble("        mov r0\n        mov r0, r1\n  ldr r0, [r1\nx y z\n 7\n")
        .expect_err("three lines are in error");
    let lines: Vec<usize> = errors.iter().map(|error| error.line_number).collect();
    assert_eq!(lines, [1, 3, 4, 5]);
    for error in &errors {
        assert!(matches!(error.error, LineError::ParseError(_)));
    }
    match &errors[1].error {
        LineError::ParseError(message) => assert!(message.starts_with("3:"), "{message}"),
        _ => unreachable!(),
    }
}

#[test]
fn healing_is_chosen_by_magic_comments() {
    assert_eq!(heal_of_comment(&"; HEAL OFF".to_owned()), Some(HealStrategy::Off));
    assert_eq!(heal_of_comment(&";heal simple  ".to_owned()), Some(HealStrategy::Simple));
    assert_eq!(heal_of_comment(&"; heal".to_owned()), None);
    assert_eq!(heal_of_comment(&"; heal offline".to_owned()), None);
    assert_eq!(heal_of_comment(&"".to_owned()), None);
    let words = |src: &str| assemble(src).expect("assembles").instrs.len();
    assert_eq!(words("        mov r0, #0x101\n"), 3);
    assert_eq!(words("        mov r0, #0xFFFFFF00\n"), 2);
    assert_eq!(words("        mvn r0, #0xFF\n"), 1);
    assert_eq!(words("        mov r0, #0x3FC\n"), 1);
    assert_eq!(words("        ldr r0, [r1, #4096]\n"), 2);
    assert_eq!(words("        ldrh r0, [r1, #256]\n"), 2);
}

#[test]
fn filling_a_register_builds_the_value() {
    fn value_of(instrs: &[Instr]) -> u32 {
        let mut value = 0x5555_5555;
        for instr in instrs {
            match *instr {
                Instr::Data {
                    set_condition_codes: false,
                    op,
                    dest: Register::R12,
                    op2: armul::instr::DataOperand::Constant(constant),
                    ..
                } => {
                    assert!(instr.encode(Cond::AL).is_ok());
                    match op {
                        DataOp::Mov => value = constant.value().0,
                        DataOp::Mvn => value = !constant.value().0,
                        DataOp::Orr => value |= constant.value().0,
                        _ => panic!("{instr:?}"),
                    }
                }
                _ => panic!("{instr:?}"),
            }
        }
        value
    }
    let mut value: u32 = 0xDEAD_BEEF;
    for _ in 0..2_000 {
        let instrs = fill_register(value, Register::R12);
        assert!(!instrs.is_empty() && instrs.len() <= 4, "{value:08X}");
        assert_eq!(value_of(&instrs), value, "{value:08X}");
        value = value.wrapping_mul(1_664_525).wrapping_add(1_013_904_223);
    }
    assert_eq!(fill_register(0xFF, Register::R12).len(), 1);
    assert_eq!(fill_register(0xFFFF_FF00, Register::R12).len(), 1);
    assert_eq!(fill_register(0x101, Register::R12).len(), 2);
    assert_eq!(fill_register(0xDEAD_BEEF, Register::R12).len(), 4);
    assert_eq!(fill_register(0x8000_0001, Register::R12).len(), 1);
}

#[test]
fn lines_can_be_assembled_without_a_source() {
    let line = |contents| AsmLine { line_number: 1, contents, comment: String::new() };
    let branch = AsmInstr::Branch { link: false, target: Expression::Label("here".to_owned()) };
    let lines = vec![
        line(AsmLineContents::Instr(Cond::AL, branch)),
        line(AsmLineContents::Label("here".to_owned())),
        line(AsmLineContents::DefWord(Expression::Add(
            Box::new(Expression::Label("here".to_owned())),
            Box::new(Expression::Constant(1)),
        ))),
        line(AsmLineContents::Instr(
            Cond::NE,
            AsmInstr::Data {
                set_condition_codes: false,
                op: DataOp::Mov,
                dest: Register::R1,
                op1: Register::R0,
                op2: DataOperand::Register(Register::R2, Shift::default()),
            },
        )),
    ];
    let output = assemble_lines(lines, HealStrategy::Off).expect("assembles");
    assert_eq!(output.instrs, [0xEAFF_FFFF, 5, 0x11A0_1002]);
    assert_eq!(output.passes, 2);
    let expression = Expression::Sub(
        Box::new(Expression::Label("here".to_owned())),
        Box::new(Expression::Constant(8)),
    );
    assert_eq!(expression.evaluate(7, &output).ok(), Some(0xFFFF_FFFC));
    let missing = Expression::Label("there".to_owned()).evaluate(7, &output).expect_err("missing");
    assert_eq!(missing.line_number, 7);
    assert!(matches!(missing.error, LineError::LabelNotFound(name) if name == "there"));
    assert!(DataOperand::Register(Register::R2, Shift::default()).is_register_specified_shift());
    assert!(!DataOperand::Constant(Expression::Constant(0)).is_register_specified_shift());
}

#[test]
fn the_label_table_holds_each_name_once() {
    let mut table = LabelTable::new();
    assert_eq!(table.len(), 0);
    table.set(&"a".to_owned(), 1);
    table.set(&"b".to_owned(), 2);
    table.set(&"a".to_owned(), 3);
    assert_eq!(table.len(), 2);
    assert_eq!(table.get(&"a".to_owned()), Some(3));
    assert_eq!(table.get(&"b".to_owned()), Some(2));
    assert_eq!(table.get(&"c".to_owned()), None);
    assert!(table.contains(&"b".to_owned()));
    assert_eq!(table.entry(1), (&"b".to_owned(), 2));
}

#[test]
fn literal_loads_reach_their_data() {
    let src = "        ldr r0, value\n        ldr r1, far\n        swi #2\nvalue   defw 0x12345678\nfar     defw 0xCAFEBABE\n";
    let output = assemble(src).expect("assembles");
    assert_eq!(label(&output, "__generatedlabel_0"), Some(4));
    assert_eq!(label(&output, "__generatedlabel_1"), Some(8));
    assert_eq!(harness::test(&format!(";! HALTS 5\n;! R0 0x12345678\n;! r1 0xCAFEBABE\n;! pc 12\n{src}")).ok(), Some(()));
}

#[test]
fn tests_follow_their_directives() {
    let divide = ";! STEPS 48\n;! R0 0\n;! R1 1\n;! R2 6\n;! R3 6\n;! R15 60\n        mov r1, #37\n        mov r2, #6\n        mov r0, #1\ndiv1    cmp r2, #0x80000000\n        cmpcc r2, r1\n        movcc r2, r2, asl #1\n        movcc r0, r0, asl #1\n        bcc div1\n        mov r3, #0\ndiv2    cmp r1, r2\n        subcs r1, r1, r2\n        addcs r3, r3, r0\n        movs r0, r0, lsr #1\n        movne r2, r2, lsr #1\n        bne div2\n";
    assert!(harness::test(divide).is_ok());
    let program = "        mvn r13, #0\n        swi #2\n";
    assert!(harness::test(&format!(";! HALTS 2\n;! sp -1\n;! cpsr 0x90\n{program}")).is_ok());
    assert!(harness::test(&format!(";! MODE svc\n;! HALTS 2\n;! r13svc -1\n;! r13 0\n;! cpsr 0x93\n{program}")).is_ok());
    assert!(harness::test(&format!(";! mode Supervisor\n;! STEPS 1\n;! R13SVC 4294967295\n{program}")).is_ok());
    assert!(matches!(harness::test(program), Err(TestError::StepsNotGiven)));
    assert!(matches!(
        harness::test(&format!(";! STEPS 2\n{program}")),
        Err(TestError::HaltMismatch { expected: false, halted: true })
    ));
    assert!(matches!(
        harness::test(&format!(";! HALTS 1\n{program}")),
        Err(TestError::HaltMismatch { expected: true, halted: false })
    ));
    assert!(matches!(
        harness::test(&format!(";! HALTS 2\n;! SP 5\n{program}")),
        Err(TestError::RegisterMismatch {
            register: PhysicalRegister::R13,
            expected: 5,
            actual: 0xFFFF_FFFF
        })
    ));
    assert!(matches!(harness::test(&format!(";! STEPS 3\n{program}")), Err(TestError::HaltMismatch { .. })));
    assert!(matches!(
        harness::test(";! STEPS 1\n        swi #3\n"),
        Err(TestError::ProcessorError(ProcessorError::InvalidSwi))
    ));
    assert!(matches!(harness::test(";! STEPS\n"), Err(TestError::InvalidComment(1))));
    assert!(matches!(harness::test("\n;! FROB 1\n"), Err(TestError::InvalidComment(2))));
    assert!(matches!(harness::test(";! STEPS many\n"), Err(TestError::InvalidParams(1))));
    assert!(matches!(harness::test(";! STEPS -1\n"), Err(TestError::InvalidParams(1))));
    assert!(matches!(harness::test(";! MODE thumb\n"), Err(TestError::InvalidParams(1))));
    assert!(matches!(harness::test(";! R0 nowhere\n"), Err(TestError::InvalidParams(1))));
    assert!(matches!(harness::test("        mov\n"), Err(TestError::AssemblerError(_))));
    // A directive behind an instruction is a comment like any other.
    assert!(harness::test(";! STEPS 0\n        nop ;! FROB\n").is_ok());
}

#[test]
fn instructions_are_taken_apart_for_showing() {
    let register = |register| PrettyArgument::Register { register, negative: false, write_back: false };
    let (cond, instr) = Instr::decode(0xE092_1003).unwrap();
    let pretty = PrettyInstr::new(0, cond, instr);
    assert_eq!(
        pretty,
        PrettyInstr {
            opcode_prefix: "ADD".to_owned(),
            cond: "".to_owned(),
            opcode_suffix: "S".to_owned(),
            args: vec![register(Register::R1), register(Register::R2), register(Register::R3)],
        }
    );
    let info = LineInfo::new(0x100, 0x1AFF_FFFE, None, true);
    assert_eq!(info.value, 0x1AFF_FFFE);
    assert_eq!(
        info.instr,
        Some(PrettyInstr {
            opcode_prefix: "B".to_owned(),
            cond: "NE".to_owned(),
            opcode_suffix: "".to_owned(),
            args: vec![PrettyArgument::Constant { value: 0x100, style: ConstantStyle::Address }],
        })
    );
    assert_eq!(LineInfo::new(0, 0x1AFF_FFFE, None, false).instr, None);
    assert_eq!(LineInfo::new(0, 0xFFFF_FFFF, None, true).instr, None);
    let (cond, instr) = Instr::decode(0xE8BD_8011).unwrap();
    let pretty = PrettyInstr::new(0, cond, instr);
    assert_eq!(pretty.opcode_prefix, "LDM");
    assert_eq!(pretty.opcode_suffix, "FD");
    assert_eq!(
        pretty.args,
        vec![
            PrettyArgument::Register { register: Register::R13, negative: false, write_back: true },
            PrettyArgument::RegisterSet {
                registers: vec![Register::R0, Register::R4, Register::R15],
                caret: false
            },
        ]
    );
    let (cond, instr) = Instr::decode(0xE1A0_0251).unwrap();
    let pretty = PrettyInstr::new(0, cond, instr);
    assert_eq!(pretty.opcode_prefix, "MOV");
    assert_eq!(pretty.args.len(), 3);
    assert!(matches!(pretty.args[2], PrettyArgument::Shift(_)));
    let (cond, instr) = Instr::decode(0xE4F1_0004).unwrap();
    let pretty = PrettyInstr::new(0, cond, instr);
    assert_eq!((pretty.opcode_prefix.as_str(), pretty.opcode_suffix.as_str()), ("LDR", "BT"));
}

fn parse_messages(src: &str) -> Vec<(usize, String)> {
    let errors = assemble(src).expect_err("the source is in error");
    let mut messages = Vec::new();
    for error in errors {
        match error.error {
            LineError::ParseError(message) => messages.push((error.line_number, message)),
            other => panic!("not a parse error: {other:?}"),
        }
    }
    messages
}

#[test]
fn parse_errors_say_where_and_why() {
    assert_eq!(
        parse_messages("        mov r0\n        mov r0, r1\n  ldr r0, [r1\nx y z\n 7\n"),
        [
            (1, "1:9: syntax: <op> Rd,<Op2>".to_owned()),
            (3, "3:14: expected ']'".to_owned()),
            (4, "4:3: expected an opcode or the end of the line".to_owned()),
            (5, "5:2: expected an opcode or the end of the line".to_owned()),
        ]
    );
    assert_eq!(
        parse_messages("        mov r0, r1 r2\n"),
        [(1, "1:20: expected an opcode or the end of the line".to_owned())]
    );
    assert_eq!(
        parse_messages("        add r0, r0, #\n"),
        [(1, "1:22: expected a number after '#'".to_owned())]
    );
    assert_eq!(
        parse_messages("        add r0, r0, (1 + 2\n"),
        [(1, "1:27: expected ')'".to_owned())]
    );
    assert_eq!(
        parse_messages("        add r0, r0, +\n"),
        [(1, "1:21: expected signed register".to_owned())]
    );
    assert_eq!(
        parse_messages("        ldr r0, [, #4]\n"),
        [(1, "1:18: expected a base register after '['".to_owned())]
    );
    assert_eq!(
        parse_messages("        add r0, r0,\n"),
        [(1, "1:20: expected an argument".to_owned())]
    );
    assert_eq!(
        parse_messages("        add r0, r0, r1, lsl ]\n"),
        [(1, "1:29: expected an expression".to_owned())]
    );
}

#[test]
fn arguments_that_an_opcode_cannot_take_are_answered_with_its_usage() {
    let cases = [
        ("bx", "syntax: BX Rm"),
        ("bl", "syntax: B{L} <expression>"),
        ("adr r0", "syntax: ADR Rd,<expression>"),
        ("nop r0", "syntax: NOP"),
        ("cmp r0", "syntax: <op> Rn,<Op2>"),
        ("mvn r0", "syntax: <op> Rd,<Op2>"),
        ("add r0", "syntax: <op> Rd,Rn,<Op2>"),
        ("rrx", "syntax: RRX Rd{,Rm}"),
        ("lsl r0", "syntax: <shift> Rd{,Rm},<amount>"),
        ("mrs r0", "syntax: MRS Rd,<psr>"),
        ("msr cpsr", "syntax: MSR <psr>,Rm or MSR <psr>_flg,<expression>"),
        ("mla r0, r1, r2", "syntax: MLA Rd,Rm,Rs,Rn"),
        ("mul r0, r1", "syntax: MUL Rd,Rm,Rs"),
        ("umull r0, r1, r2", "syntax: <op> RdLo,RdHi,Rm,Rs"),
        ("ldr r0", "syntax: <op> Rd,<address>"),
        ("ldmfd r13!, r0", "block transfers have no syntax yet"),
        ("swp r0, r1, r2", "syntax: SWP Rd,Rm,[Rn]"),
        ("swi", "syntax: SWI <expression>"),
        ("defw r0", "syntax: DEFW <expression>,...,<expression>"),
    ];
    for (text, usage) in cases {
        assert_eq!(
            parse_messages(&format!("\nhere {text}\n")),
            [(2, format!("2:6: {usage}"))],
            "{text}"
        );
    }
    assert_eq!(parse_messages("        equ 5\n"), [(1, "1:9: 'equ' needs a label".to_owned())]);
    assert_eq!(parse_messages("x       equ\n"), [(1, "1:9: syntax: <label> EQU <expression>".to_owned())]);
}

#[test]
fn error_tokens_are_reported_first() {
    assert_eq!(
        parse_messages("        mov r0, @\n"),
        [(1, "1:17: invalid character".to_owned())]
    );
    assert_eq!(
        parse_messages("        mov $, 0x\n"),
        [(1, "1:13: invalid character".to_owned())]
    );
    assert_eq!(
        parse_messages("        mov r0, #0xFFFFFFFFF\n"),
        [(1, "1:18: overflow error".to_owned())]
    );
}
