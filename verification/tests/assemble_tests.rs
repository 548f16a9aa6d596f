use armul::assemble::assemble;
use armul::assemble::LineError;
use armul::instr::Instr;
use armul::instr::Register;
use armul::memory::Memory;
use armul::processor::CycleCounter;
use armul::processor::Processor;
use armul::processor::ProcessorState;

const DIVIDE: &str = "; The division routine of the data sheet: R1 / R2.
;! STEPS 48
;! R0 0
;! R1 1
;! R2 6
;! R3 6
;! R15 60
        mov r1, #37         ; the dividend, later the remainder
        mov r2, #6          ; the divisor
        mov r0, #1          ; bit to control the division
div1    cmp r2, #0x80000000 ; move r2 until greater than r1
        cmpcc r2, r1
        movcc r2, r2, asl #1
        movcc r0, r0, asl #1
        bcc div1
        mov r3, #0
div2    cmp r1, r2          ; test for possible subtraction
        subcs r1, r1, r2    ; subtract if ok
        addcs r3, r3, r0    ; put relevant bit into result
        movs r0, r0, lsr #1 ; shift control bit
        movne r2, r2, lsr #1 ; halve unless finished
        bne div2
";

fn run(src: &str, steps: usize) -> Processor {
    let assembled = assemble(src).expect("the source assembles");
    let mut processor = Processor::default();
    processor.registers_mut().set_mode(armul::mode::Mode::Usr);
    processor.memory_mut().set_words_aligned(0, &assembled.instrs);
    let mut listener = CycleCounter::new();
    for _ in 0..steps {
        processor.try_execute(&mut listener).expect("the step succeeds");
        let pc = processor.registers().get(Register::R15);
        processor.registers_mut().set(Register::R15, pc.wrapping_add(4));
        if processor.state() == ProcessorState::Stopped {
            break;
        }
    }
    processor
}

#[test]
fn test_assemble() {
    let assembled = match assemble(DIVIDE) {
        Ok(assembled) => assembled,
        Err(errors) => panic!("{errors:?}"),
    };
    println!("{assembled:#?}");
    assert_eq!(assembled.instrs.len(), 15);
    for x in assembled.instrs {
        let instr = Instr::decode(x).map(|(cond, instr)| instr.display(cond));
        println!("{x:0>8X}: {}", instr.as_deref().unwrap_or("???"));
        assert!(instr.is_some());
    }
}

#[test]
fn divide_routine_divides() {
    let processor = run(DIVIDE, 48);
    let registers = processor.registers();
    assert_eq!(registers.get(Register::R0), 0);
    assert_eq!(registers.get(Register::R1), 1);
    assert_eq!(registers.get(Register::R2), 6);
    assert_eq!(registers.get(Register::R3), 6);
    assert_eq!(registers.get(Register::R15), 60);
}

#[test]
fn healing_builds_a_constant() {
    let src = "        mov r0, #0xDEADBEEF\n";
    let assembled = assemble(src).expect("healing is on");
    let processor = run(src, assembled.instrs.len());
    assert_eq!(processor.registers().get(Register::R0), 0xDEADBEEF);
    assert!(assembled.instrs.len() > 1);
}

#[test]
fn misaligned_branch_is_refused() {
    let src = "        defw 0\nhere    equ 6\n        b here\n";
    let errors = assemble(src).expect_err("the branch target is mid-word");
    assert_eq!(errors.len(), 1);
    assert_eq!(errors[0].line_number, 3);
    assert!(matches!(errors[0].error, LineError::MisalignedBranchOffset));
}

#[test]
fn unrepresentable_immediate_without_healing() {
    let src = "; HEAL OFF\n        add r0, r0, #0x101\n";
    let errors = assemble(src).expect_err("healing is off");
    assert_eq!(errors.len(), 1);
    assert_eq!(errors[0].line_number, 2);
    assert!(matches!(errors[0].error, LineError::ImmediateOutOfRange(0x101)));
}

#[test]
fn unaligned_word_load_rotates() {
    let src = "        ldr r0, [r1, #1]\n";
    let assembled = assemble(src).expect("the source assembles");
    let mut processor = Processor::default();
    processor.registers_mut().set_mode(armul::mode::Mode::Usr);
    processor.memory_mut().set_words_aligned(0, &assembled.instrs);
    processor.memory_mut().set_word_aligned(0x10, 0x44332211);
    processor.registers_mut().set(Register::R1, 0x10);
    let mut listener = CycleCounter::new();
    processor.try_execute(&mut listener).expect("the load succeeds");
    assert_eq!(processor.registers().get(Register::R0), 0x11443322);
    assert_eq!((listener.s_cycles, listener.n_cycles, listener.i_cycles), (1, 1, 1));
}

#[test]
fn swi_two_halts() {
    let processor = run("        swi #2\n", 10);
    assert_eq!(processor.state(), ProcessorState::Stopped);
    assert_eq!(processor.registers().get(Register::R15), 4);
}

#[test]
fn memory_reads_default_until_written() {
    let mut memory = Memory::new(&[1, 2, 128]);
    assert_eq!(memory.get_word_aligned(0), 1);
    assert_eq!(memory.get_word_aligned(8), 128);
    assert_eq!(memory.get_word_aligned(12), 0xAAAA_AAAA);
    assert_eq!(memory.count_pages(), 3);
    memory.set_byte(0x4000_0001, 0x12);
    assert_eq!(memory.get_word_aligned(0x4000_0000), 0xAAAA_12AA);
    assert_eq!(memory.get_byte(0x4000_0001), 0x12);
    assert_eq!(memory.count_pages(), 5);
}
