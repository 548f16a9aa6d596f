use armul::instr::Cond;
use armul::instr::DataOp;
use armul::instr::DataOperand;
use armul::instr::Instr;
use armul::instr::Register;
use armul::instr::RotatedConstant;

#[test]
fn instr_test() {
    let instrs = [
        0xEAFFFFFE, 0xEA000004, 0xE3510000, 0x0A000002, 0xEB000008, 0xE2811001, 0x3BFFFFFF,
    ];
    let instrs = instrs.map(Instr::decode);
    for instr in instrs {
        if let Some((c, i)) = instr {
            println!("{}", i.display(c));
        } else {
            panic!("---")
        }
    }
}

#[test]
fn decode_test() {
    let instrs = [
        0xEAFFFFFE, 0xEA000004, 0xE3510000, 0x0A000002, 0xEB000008, 0xE2811001, 0x3BFFFFFF,
    ];
    let instrs = instrs.map(Instr::decode);
    for instr in instrs {
        if let Some((c, i)) = instr {
            println!("{}", i.display(c));
        } else {
            panic!("---")
        }
    }
}

#[test]
fn decode_gives_the_expected_instructions() {
    assert_eq!(
        Instr::decode(0xEAFFFFFE),
        Some((Cond::AL, Instr::Branch { link: false, offset: -8 }))
    );
    assert_eq!(
        Instr::decode(0x3BFFFFFF),
        Some((Cond::CC, Instr::Branch { link: true, offset: -4 }))
    );
    assert_eq!(
        Instr::decode(0xE2811001),
        Some((
            Cond::AL,
            Instr::Data {
                set_condition_codes: false,
                op: DataOp::Add,
                dest: Register::R1,
                op1: Register::R1,
                op2: DataOperand::Constant(RotatedConstant { immediate: 1, half_rotate: 0 }),
            }
        ))
    );
}

#[test]
fn display_gives_the_expected_text() {
    let text = |word: u32| Instr::decode(word).map(|(c, i)| i.display(c));
    assert_eq!(text(0xEAFFFFFE).as_deref(), Some("B PC+#-8"));
    assert_eq!(text(0xEA000004).as_deref(), Some("B PC+#16"));
    assert_eq!(text(0xE3510000).as_deref(), Some("CMP R1,#0"));
    assert_eq!(text(0x0A000002).as_deref(), Some("BEQ PC+#8"));
    assert_eq!(text(0xEB000008).as_deref(), Some("BL PC+#32"));
    assert_eq!(text(0xE2811001).as_deref(), Some("ADD R1,R1,#1"));
    assert_eq!(text(0x3BFFFFFF).as_deref(), Some("BLCC PC+#-4"));
}
