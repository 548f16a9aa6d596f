use armul::assemble::assemble;
use armul::instr::Cond;
use armul::instr::DataOp;
use armul::instr::Instr;
use armul::instr::Psr;
use armul::instr::Register;
use armul::instr::ShiftType;
use armul::memory::Memory;
use armul::mode::Mode;
use armul::processor::alu::compute_alu;
use armul::processor::multiply::compute_early_termination;
use armul::processor::multiply::compute_long_product;
use armul::processor::shifter::compute_barrel_shift;
use armul::processor::Cycle;
use armul::processor::CycleCounter;
use armul::processor::Processor;
use armul::processor::ProcessorError;
use armul::processor::ProcessorListener;
use armul::processor::ProcessorState;
use armul::processor::StepCost;
use armul::registers::PhysicalRegister;
use armul::registers::PhysicalRegister as P;
use armul::registers::Registers;

fn machine(src: &str, mode: Mode) -> Processor {
    let assembled = assemble(src).expect("the source assembles");
    let mut processor = Processor::default();
    processor.registers_mut().set_mode(mode);
    processor.memory_mut().set_words_aligned(0, &assembled.instrs);
    processor
}

fn step(processor: &mut Processor) -> Result<StepCost, ProcessorError> {
    let cost = processor.step()?;
    let pc = processor.registers().get(Register::R15);
    processor.registers_mut().set(Register::R15, pc.wrapping_add(4));
    Ok(cost)
}

fn run(src: &str, steps: usize) -> Processor {
    let mut processor = machine(src, Mode::Usr);
    for _ in 0..steps {
        step(&mut processor).expect("the step succeeds");
    }
    processor
}

const ALL_MODES: [Mode; 7] = [
    Mode::Usr,
    Mode::Fiq,
    Mode::Irq,
    Mode::Supervisor,
    Mode::Abort,
    Mode::System,
    Mode::Undefined,
];

const ALL_REGISTERS: [Register; 16] = [
    Register::R0,
    Register::R1,
    Register::R2,
    Register::R3,
    Register::R4,
    Register::R5,
    Register::R6,
    Register::R7,
    Register::R8,
    Register::R9,
    Register::R10,
    Register::R11,
    Register::R12,
    Register::R13,
    Register::R14,
    Register::R15,
];

#[test]
fn banking_follows_the_table() {
    let shared = [
        P::R0, P::R1, P::R2, P::R3, P::R4, P::R5, P::R6, P::R7, P::R8, P::R9, P::R10, P::R11,
        P::R12, P::R13, P::R14, P::R15,
    ];
    for mode in ALL_MODES {
        for (number, register) in ALL_REGISTERS.into_iter().enumerate() {
            let expected = match (number, mode) {
                (8, Mode::Fiq) => P::R8Fiq,
                (9, Mode::Fiq) => P::R9Fiq,
                (10, Mode::Fiq) => P::R10Fiq,
                (11, Mode::Fiq) => P::R11Fiq,
                (12, Mode::Fiq) => P::R12Fiq,
                (13, Mode::Fiq) => P::R13Fiq,
                (14, Mode::Fiq) => P::R14Fiq,
                (13, Mode::Supervisor) => P::R13Svc,
                (14, Mode::Supervisor) => P::R14Svc,
                (13, Mode::Abort) => P::R13Abt,
                (14, Mode::Abort) => P::R14Abt,
                (13, Mode::Irq) => P::R13Irq,
                (14, Mode::Irq) => P::R14Irq,
                (13, Mode::Undefined) => P::R13Und,
                (14, Mode::Undefined) => P::R14Und,
                _ => shared[number],
            };
            assert_eq!(register.physical(mode), expected, "{register:?} in {mode:?}");
        }
    }
    assert_eq!(Psr::Cpsr.physical(Mode::Usr), Some(P::Cpsr));
    assert_eq!(Psr::Spsr.physical(Mode::Usr), None);
    assert_eq!(Psr::Spsr.physical(Mode::System), None);
    assert_eq!(Psr::Spsr.physical(Mode::Fiq), Some(P::SpsrFiq));
    assert_eq!(Psr::Spsr.physical(Mode::Irq), Some(P::SpsrIrq));
    assert_eq!(Psr::Spsr.physical(Mode::Supervisor), Some(P::SpsrSvc));
    assert_eq!(Psr::Spsr.physical(Mode::Abort), Some(P::SpsrAbt));
    assert_eq!(Psr::Spsr.physical(Mode::Undefined), Some(P::SpsrUnd));
    assert_eq!(P::R0.index(), 0);
    assert_eq!(P::R8Fiq.index(), 16);
    assert_eq!(P::Cpsr.index(), 31);
    assert_eq!(P::SpsrUnd.index(), 36);
}

#[test]
fn registers_start_in_supervisor_mode() {
    let mut registers = Registers::default();
    assert_eq!(registers.cpsr(), 0b1001_0011);
    assert_eq!(registers.mode(), Some(Mode::Supervisor));
    assert!(registers.irq_disable());
    assert!(!registers.fiq_disable());
    assert!(!registers.thumb_state());
    registers.set(Register::R13, 7);
    assert_eq!(registers.get_physical(PhysicalRegister::R13Svc), 7);
    assert_eq!(registers.get_physical(PhysicalRegister::R13), 0);
    registers.set_mode(Mode::Usr);
    assert_eq!(registers.cpsr(), 0b1001_0000);
    assert_eq!(registers.get(Register::R13), 0);
    *registers.get_mut(Register::R13) = 9;
    assert_eq!(registers.get_physical(PhysicalRegister::R13), 9);
    *registers.get_physical_mut(PhysicalRegister::R14Fiq) = 11;
    registers.set_mode(Mode::Fiq);
    assert_eq!(registers.get(Register::R14), 11);
    *registers.cpsr_mut() = 0;
    assert_eq!(registers.mode(), None);
    assert_eq!(registers.get(Register::R13), 9);
    assert_eq!(registers.get_pc_offset(Register::R13, 8), 9);
    registers.set(Register::R15, 0xFFFF_FFFC);
    assert_eq!(registers.get_pc_offset(Register::R15, 8), 4);
}

#[test]
fn flags_are_bits_of_the_status_register() {
    let mut registers = Registers::default();
    registers.set_negative(true);
    assert_eq!(registers.cpsr(), 0x8000_0093);
    registers.set_zero(true);
    registers.set_carry(true);
    registers.set_overflow(true);
    assert_eq!(registers.cpsr(), 0xF000_0093);
    assert!(registers.negative() && registers.zero() && registers.carry() && registers.overflow());
    registers.set_zero(false);
    assert_eq!(registers.cpsr(), 0xB000_0093);
    registers.set_irq_disable(false);
    registers.set_fiq_disable(true);
    registers.set_thumb_state(true);
    assert_eq!(registers.cpsr(), 0xB000_0073);
    registers.set_flags(false, true, false, false);
    assert_eq!(registers.cpsr(), 0x4000_0073);
    assert_eq!(armul::registers::set_bit(0b1010, 0, true), 0b1011);
    assert_eq!(armul::registers::set_bit(0b1010, 3, false), 0b0010);
}

#[test]
fn conditions_follow_the_flags() {
    let mut registers = Registers::default();
    let conds = [
        Cond::EQ, Cond::NE, Cond::CS, Cond::CC, Cond::MI, Cond::PL, Cond::VS, Cond::VC, Cond::HI,
        Cond::LS, Cond::GE, Cond::LT, Cond::GT, Cond::LE, Cond::AL,
    ];
    for flags in 0..16u32 {
        let (n, z, c, v) = (flags & 8 != 0, flags & 4 != 0, flags & 2 != 0, flags & 1 != 0);
        registers.set_flags(n, z, c, v);
        let expected = [
            z,
            !z,
            c,
            !c,
            n,
            !n,
            v,
            !v,
            c && !z,
            !c || z,
            n == v,
            n != v,
            !z && n == v,
            z || n != v,
            true,
        ];
        for (cond, expected) in conds.into_iter().zip(expected) {
            assert_eq!(registers.test_condition(cond), expected, "{cond:?} under {flags:04b}");
        }
    }
}

#[test]
fn compare_sets_the_flags_by_the_order_of_its_operands() {
    let values = [0u32, 1, 2, 0x7FFF_FFFF, 0x8000_0000, 0x8000_0001, 0xFFFF_FFFE, 0xFFFF_FFFF];
    for a in values {
        for b in values {
            let result = compute_alu(DataOp::Cmp, a, b, false, false, false);
            assert_eq!(result.zero, a == b);
            assert_eq!(!result.carry, a < b);
            assert_eq!(result.negative != result.overflow, (a as i32) < (b as i32));
            assert_eq!(result.value, a.wrapping_sub(b));
        }
    }
    let after = run("        mov r0, #5\n        cmp r0, #7\n", 2);
    let registers = after.registers();
    assert!(!registers.zero());
    assert!(!registers.carry());
    assert!(registers.negative());
    assert!(!registers.overflow());
}

#[test]
fn arithmetic_gives_the_values_and_flags_of_the_data_sheet() {
    let alu = |op, a, b, c| compute_alu(op, a, b, false, c, false);
    let flags = |r: armul::processor::alu::AluResult| (r.negative, r.zero, r.carry, r.overflow);
    let add = alu(DataOp::Add, 0x7FFF_FFFF, 1, false);
    assert_eq!((add.value, flags(add)), (0x8000_0000, (true, false, false, true)));
    let add = alu(DataOp::Add, 0xFFFF_FFFF, 1, false);
    assert_eq!((add.value, flags(add)), (0, (false, true, true, false)));
    let adc = alu(DataOp::Adc, 0xFFFF_FFFF, 0, true);
    assert_eq!((adc.value, flags(adc)), (0, (false, true, true, false)));
    let sub = alu(DataOp::Sub, 0x8000_0000, 1, false);
    assert_eq!((sub.value, flags(sub)), (0x7FFF_FFFF, (false, false, true, true)));
    let sbc = alu(DataOp::Sbc, 5, 3, false);
    assert_eq!((sbc.value, flags(sbc)), (1, (false, false, true, false)));
    let rsb = alu(DataOp::Rsb, 3, 5, false);
    assert_eq!((rsb.value, flags(rsb)), (2, (false, false, true, false)));
    let rsc = alu(DataOp::Rsc, 5, 3, true);
    assert_eq!((rsc.value, flags(rsc)), (0xFFFF_FFFE, (true, false, false, false)));
    let cmn = alu(DataOp::Cmn, 1, 0xFFFF_FFFF, false);
    assert_eq!((cmn.value, flags(cmn)), (0, (false, true, true, false)));
    let and = compute_alu(DataOp::And, 0xF0F0, 0xFF00, true, false, true);
    assert_eq!((and.value, flags(and)), (0xF000, (false, false, true, true)));
    assert_eq!(alu(DataOp::Eor, 0xF0F0, 0xFF00, false).value, 0x0FF0);
    assert_eq!(alu(DataOp::Tst, 0xF0F0, 0x0F0F, false).zero, true);
    assert_eq!(alu(DataOp::Teq, 0xF0F0, 0xF0F0, false).zero, true);
    assert_eq!(alu(DataOp::Orr, 0xF0F0, 0xFF00, false).value, 0xFFF0);
    assert_eq!(alu(DataOp::Mov, 0xF0F0, 0xFF00, false).value, 0xFF00);
    assert_eq!(alu(DataOp::Bic, 0xF0F0, 0xFF00, false).value, 0x00F0);
    assert_eq!(alu(DataOp::Mvn, 0xF0F0, 0xFF00, false).value, 0xFFFF_00FF);
}

#[test]
fn the_barrel_shifter_follows_the_data_sheet() {
    let shift = compute_barrel_shift;
    let value = 0x8000_0003u32;
    // RRX: the carry comes in at the top, bit 0 goes out.
    assert_eq!(shift(value, ShiftType::RotateRightExtended, 1, false), (0x4000_0001, true));
    assert_eq!(shift(2, ShiftType::RotateRightExtended, 0, true), (0x8000_0001, false));
    // A shift by zero hands the carry flag on.
    assert_eq!(shift(value, ShiftType::LogicalLeft, 0, true), (value, true));
    assert_eq!(shift(value, ShiftType::LogicalRight, 0, false), (value, false));
    // LSL.
    assert_eq!(shift(value, ShiftType::LogicalLeft, 1, false), (6, true));
    assert_eq!(shift(value, ShiftType::LogicalLeft, 31, false), (0x8000_0000, true));
    assert_eq!(shift(value, ShiftType::LogicalLeft, 32, false), (0, true));
    assert_eq!(shift(value, ShiftType::LogicalLeft, 33, true), (0, false));
    assert_eq!(shift(2, ShiftType::LogicalLeft, 32, true), (0, false));
    // LSR.
    assert_eq!(shift(value, ShiftType::LogicalRight, 1, false), (0x4000_0001, true));
    assert_eq!(shift(value, ShiftType::LogicalRight, 2, false), (0x2000_0000, true));
    assert_eq!(shift(value, ShiftType::LogicalRight, 3, false), (0x1000_0000, false));
    assert_eq!(shift(value, ShiftType::LogicalRight, 32, false), (0, true));
    assert_eq!(shift(value, ShiftType::LogicalRight, 33, true), (0, false));
    // ASR keeps the sign.
    assert_eq!(shift(value, ShiftType::ArithmeticRight, 1, false), (0xC000_0001, true));
    assert_eq!(shift(value, ShiftType::ArithmeticRight, 31, false), (0xFFFF_FFFF, false));
    assert_eq!(shift(value, ShiftType::ArithmeticRight, 32, false), (0xFFFF_FFFF, true));
    assert_eq!(shift(value, ShiftType::ArithmeticRight, 200, false), (0xFFFF_FFFF, true));
    assert_eq!(shift(0x7000_0000, ShiftType::ArithmeticRight, 4, true), (0x0700_0000, false));
    assert_eq!(shift(0x7000_0000, ShiftType::ArithmeticRight, 32, true), (0, false));
    // ROR.
    assert_eq!(shift(value, ShiftType::RotateRight, 1, false), (0xC000_0001, true));
    assert_eq!(shift(value, ShiftType::RotateRight, 4, false), (0x3800_0000, false));
    assert_eq!(shift(value, ShiftType::RotateRight, 32, false), (value, true));
    assert_eq!(shift(value, ShiftType::RotateRight, 33, false), (0xC000_0001, true));
    assert_eq!(shift(0x7000_0000, ShiftType::RotateRight, 64, true), (0x7000_0000, false));
}

#[test]
fn the_program_counter_reads_ahead() {
    let after = run("        nop\n        mov r0, pc\n        add r1, pc, #0\n", 3);
    assert_eq!(after.registers().get(Register::R0), 4 + 8);
    assert_eq!(after.registers().get(Register::R1), 8 + 8);
    let after = run(
        "        mov r2, #0\n        mov r0, pc, lsl r2\n        add r1, pc, r2, lsl r2\n",
        3,
    );
    assert_eq!(after.registers().get(Register::R0), 4 + 12);
    assert_eq!(after.registers().get(Register::R1), 8 + 12);
}

#[test]
fn a_data_operation_costs_what_the_data_sheet_says() {
    let mut processor = machine(
        "        mov r0, #1\n        mov r1, r0, lsl r0\n        moveq r2, #1\n        mov pc, #16\n",
        Mode::Usr,
    );
    let cost = step(&mut processor).unwrap();
    assert_eq!(cost, StepCost { seq: 1, non_seq: 0, internal: 0, pipeline_flush: false });
    let cost = step(&mut processor).unwrap();
    assert_eq!(cost, StepCost { seq: 1, non_seq: 0, internal: 1, pipeline_flush: false });
    assert_eq!(processor.registers().get(Register::R1), 2);
    // The condition does not hold: one sequential cycle and no effect.
    let cost = step(&mut processor).unwrap();
    assert_eq!(cost, StepCost { seq: 1, non_seq: 0, internal: 0, pipeline_flush: false });
    assert_eq!(processor.registers().get(Register::R2), 0);
    let cost = step(&mut processor).unwrap();
    assert_eq!(cost, StepCost { seq: 1, non_seq: 0, internal: 0, pipeline_flush: true });
    assert_eq!(processor.registers().get(Register::R15), 16);
}

#[test]
fn the_listener_hears_the_cost_of_each_step() {
    let mut processor = machine(
        "        mov r1, #0x100\n        str r1, [r1]\n        ldr r2, [r1]\n        b 0\n",
        Mode::Usr,
    );
    let mut listener = CycleCounter::new();
    for _ in 0..4 {
        processor.try_execute(&mut listener).unwrap();
        let pc = processor.registers().get(Register::R15);
        processor.registers_mut().set(Register::R15, pc.wrapping_add(4));
    }
    // mov: 1S; str: 2N; ldr: 1S + 1N + 1I; b: 1S and a flush of 1S + 1N.
    assert_eq!(listener, CycleCounter { s_cycles: 4, n_cycles: 4, i_cycles: 1 });
    assert_eq!(processor.registers().get(Register::R2), 0x100);
    assert_eq!(processor.registers().get(Register::R15), 0);
    listener.cycle(Cycle::Coprocessor, 5, 0);
    listener.cycle(Cycle::Internal, usize::MAX, 0);
    listener.pipeline_flush(0);
    assert_eq!(listener, CycleCounter { s_cycles: 5, n_cycles: 5, i_cycles: usize::MAX });
    // A counter gives no input and drops the output.
    assert_eq!(listener.getc(), None);
    listener.putc(b'x');
    assert_eq!(listener, CycleCounter { s_cycles: 5, n_cycles: 5, i_cycles: usize::MAX });
}

#[test]
fn branches_link_and_exchange() {
    let src = "        bl target\n        nop\ntarget  mov r0, lr\n        bx lr\n";
    let after = run(src, 3);
    assert_eq!(after.registers().get(Register::R14), 4);
    assert_eq!(after.registers().get(Register::R0), 4);
    assert_eq!(after.registers().get(Register::R15), 4);
}

#[test]
fn multiplies_give_products_and_cycles() {
    assert_eq!(compute_early_termination(0, true), 3);
    assert_eq!(compute_early_termination(0xFF, true), 3);
    assert_eq!(compute_early_termination(0x100, true), 2);
    assert_eq!(compute_early_termination(0x0001_0000, true), 1);
    assert_eq!(compute_early_termination(0x0100_0000, true), 0);
    assert_eq!(compute_early_termination(0xFFFF_FFFF, true), 3);
    assert_eq!(compute_early_termination(0xFFFF_FF00, true), 3);
    assert_eq!(compute_early_termination(0xFFFF_FEFF, true), 2);
    assert_eq!(compute_early_termination(0xFFFF_FFFF, false), 0);
    assert_eq!(compute_long_product(false, 0xFFFF_FFFF, 0xFFFF_FFFF, 0), 0xFFFF_FFFE_0000_0001);
    assert_eq!(compute_long_product(true, 0xFFFF_FFFF, 0xFFFF_FFFF, 0), 1);
    assert_eq!(compute_long_product(true, 0xFFFF_FFFF, 2, 0), 0xFFFF_FFFF_FFFF_FFFE);
    assert_eq!(compute_long_product(true, 0xFFFF_FFFF, 2, 5), 3);
    assert_eq!(compute_long_product(false, 0xFFFF_FFFF, 0xFFFF_FFFF, u64::MAX), 0xFFFF_FFFE_0000_0000);
    let src = "        mov r1, #7\n        mov r2, #6\n        muls r0, r1, r2\n        mla r3, r1, r2, r0\n        umull r4, r5, r1, r2\n        mvn r6, #0\n        smlals r4, r5, r6, r2\n";
    let mut processor = machine(src, Mode::Usr);
    step(&mut processor).unwrap();
    step(&mut processor).unwrap();
    let cost = step(&mut processor).unwrap();
    assert_eq!(cost, StepCost { seq: 1, non_seq: 0, internal: 1, pipeline_flush: false });
    assert_eq!(processor.registers().get(Register::R0), 42);
    let cost = step(&mut processor).unwrap();
    assert_eq!(cost, StepCost { seq: 1, non_seq: 0, internal: 2, pipeline_flush: false });
    assert_eq!(processor.registers().get(Register::R3), 84);
    let cost = step(&mut processor).unwrap();
    assert_eq!(cost, StepCost { seq: 1, non_seq: 0, internal: 2, pipeline_flush: false });
    assert_eq!(processor.registers().get(Register::R4), 42);
    assert_eq!(processor.registers().get(Register::R5), 0);
    step(&mut processor).unwrap();
    let cost = step(&mut processor).unwrap();
    assert_eq!(cost, StepCost { seq: 1, non_seq: 0, internal: 3, pipeline_flush: false });
    // 42 + (-1 * 6) = 36.
    assert_eq!(processor.registers().get(Register::R4), 36);
    assert_eq!(processor.registers().get(Register::R5), 0);
    assert!(!processor.registers().zero());
}

#[test]
fn transfers_move_words_bytes_and_halfwords() {
    let src = "        mov r1, #0x100
        mvn r0, #0x7F           ; 0xFFFFFF80
        str r0, [r1]
        ldrb r2, [r1, #0]
        ldrsb r3, [r1, #0]
        ldrh r4, [r1, #2]
        ldrsh r5, [r1, #2]
        strb r1, [r1, #1]!
        ldr r6, [r1, -r2, lsr #7]
        strh r6, [r1, #1]
        ldr r7, [r1], #4
        ldr r8, [r1, -r2, lsr #7]
";
    let after = run(src, 12);
    let registers = after.registers();
    assert_eq!(registers.get(Register::R2), 0x80);
    assert_eq!(registers.get(Register::R3), 0xFFFF_FF80);
    assert_eq!(registers.get(Register::R4), 0xFFFF);
    assert_eq!(registers.get(Register::R5), 0xFFFF_FFFF);
    // The byte 0x00 of r1 = 0x100 went to address 0x101.
    assert_eq!(registers.get(Register::R6), 0xFFFF_0080);
    assert_eq!(after.memory().get_word_aligned(0x100), 0x0080_0080);
    // Address 0x101: the aligned word rotated right by eight bits.
    assert_eq!(registers.get(Register::R7), 0x8000_8000);
    assert_eq!(registers.get(Register::R1), 0x105);
    // 0x105 - (0x80 >> 7) = 0x104, which nothing has written.
    assert_eq!(registers.get(Register::R8), 0xAAAA_AAAA);
}

#[test]
fn status_registers_are_moved() {
    let src = "        mrs r0, cpsr\n        orr r1, r0, #0xF0000000\n        msr cpsr, r1\n        mrs r2, cpsr\n        msr cpsr_flg, #0x40000000\n        mrs r3, cpsr\n";
    let mut processor = machine(src, Mode::Usr);
    for _ in 0..6 {
        step(&mut processor).unwrap();
    }
    assert_eq!(processor.registers().get(Register::R0), 0x90);
    assert_eq!(processor.registers().get(Register::R2), 0xF000_0090);
    assert_eq!(processor.registers().get(Register::R3), 0x4000_0090);
    // In user mode only the flags can be written.
    let src = "        mov r0, #0x1F\n        msr cpsr, r0\n";
    let mut processor = machine(src, Mode::Usr);
    step(&mut processor).unwrap();
    step(&mut processor).unwrap();
    assert_eq!(processor.registers().cpsr(), 0x90);
    // In a privileged mode the whole register is written.
    let mut processor = machine(src, Mode::Supervisor);
    step(&mut processor).unwrap();
    step(&mut processor).unwrap();
    assert_eq!(processor.registers().cpsr(), 0x1F);
    assert_eq!(processor.registers().mode(), Some(Mode::System));
}

#[test]
fn each_processor_error_has_its_cause() {
    let fails = |src: &str, mode: Mode, steps: usize| {
        let mut processor = machine(src, mode);
        for _ in 0..steps {
            step(&mut processor).expect("the step succeeds");
        }
        let before = (processor.registers().clone(), processor.memory().get_word_aligned(0x100));
        let error = processor.step().expect_err("the step fails");
        // A failed step leaves the processor as it was.
        assert_eq!(processor.registers().regs, before.0.regs);
        assert_eq!(processor.memory().get_word_aligned(0x100), before.1);
        assert_eq!(processor.state(), ProcessorState::Running);
        error
    };
    assert_eq!(fails("        mov pc, #6\n", Mode::Usr, 1), ProcessorError::UnalignedPc);
    assert_eq!(fails("        mov r0, #2\n        bx r0\n", Mode::Usr, 1), ProcessorError::UnalignedPc);
    assert_eq!(fails("        bx pc\n", Mode::Usr, 0), ProcessorError::InvalidUseOfPc);
    assert_eq!(
        fails("        mov r1, #0x100\n        ldrh r0, [r1, #1]\n", Mode::Usr, 1),
        ProcessorError::UnalignedTransfer
    );
    assert_eq!(
        fails("        mov r1, #0x100\n        strh r0, [r1, #1]!\n", Mode::Usr, 1),
        ProcessorError::UnalignedTransfer
    );
    assert_eq!(fails("        defw 0xFFFFFFFF\n", Mode::Usr, 0), ProcessorError::UnrecognisedInstruction);
    assert_eq!(fails("        defw 0xEE000000\n", Mode::Usr, 0), ProcessorError::UnrecognisedInstruction);
    assert_eq!(fails("        swp r0, r1, [r2]\n", Mode::Usr, 0), ProcessorError::UnrecognisedInstruction);
    assert_eq!(fails("        ldr r0, [r1, pc]\n", Mode::Usr, 0), ProcessorError::InvalidUseOfPc);
    assert_eq!(fails("        ldr r0, [pc, #4]!\n", Mode::Usr, 0), ProcessorError::InvalidUseOfPc);
    assert_eq!(fails("        ldr r0, [pc], #4\n", Mode::Usr, 0), ProcessorError::InvalidUseOfPc);
    assert_eq!(fails("        ldrh r0, [r1, pc]\n", Mode::Usr, 0), ProcessorError::InvalidUseOfPc);
    assert_eq!(fails("        mov r0, r1, lsl pc\n", Mode::Usr, 0), ProcessorError::PcUsedInShift);
    assert_eq!(fails("        mrs r0, spsr\n", Mode::Usr, 0), ProcessorError::NoSpsr);
    assert_eq!(fails("        msr spsr, r0\n", Mode::System, 0), ProcessorError::NoSpsr);
    assert_eq!(fails("        movs pc, #8\n", Mode::Usr, 0), ProcessorError::NoSpsr);
    // LDR R0, [R1, R2, LSL R3] has no word of its own in the assembler.
    assert_eq!(fails("        defw 0xE7910312\n", Mode::Usr, 0), ProcessorError::AddressTooComplex);
    assert_eq!(fails("        swi #3\n", Mode::Usr, 0), ProcessorError::InvalidSwi);
}

#[test]
fn returning_from_an_exception_restores_the_status_register() {
    let mut processor = machine("        movs pc, #16\n", Mode::Supervisor);
    *processor.registers_mut().get_physical_mut(PhysicalRegister::SpsrSvc) = 0x6000_0010;
    let cost = step(&mut processor).unwrap();
    assert!(cost.pipeline_flush);
    assert_eq!(processor.registers().cpsr(), 0x6000_0010);
    assert_eq!(processor.registers().get(Register::R15), 16);
}

#[test]
fn polling_drives_the_processor() {
    let mut processor = machine("        mov r0, #1\n        swi #2\n        mov r0, #2\n", Mode::Usr);
    processor.poll().unwrap();
    assert_eq!(processor.registers().get(Register::R15), 4);
    assert_eq!(processor.state(), ProcessorState::Running);
    processor.poll().unwrap();
    assert_eq!(processor.state(), ProcessorState::Stopped);
    assert_eq!(processor.registers().get(Register::R15), 8);
    // A stopped processor stays as it is.
    processor.poll().unwrap();
    assert_eq!(processor.registers().get(Register::R0), 1);
    assert_eq!(processor.registers().get(Register::R15), 8);
}

#[test]
fn memory_is_little_endian() {
    let mut memory = Memory::default();
    assert_eq!(memory.default_word(), 0xAAAA_AAAA);
    assert_eq!(memory.count_pages(), 1);
    memory.set_word_aligned(0x10, 0x4433_2211);
    assert_eq!(memory.get_word_aligned(0x13), 0x4433_2211);
    assert_eq!(memory.get_byte(0x10), 0x11);
    assert_eq!(memory.get_byte(0x11), 0x22);
    assert_eq!(memory.get_byte(0x12), 0x33);
    assert_eq!(memory.get_byte(0x13), 0x44);
    assert_eq!(memory.get_word_aligned(0x14), 0xAAAA_AAAA);
    memory.set_byte(0x12, 0xFF);
    assert_eq!(memory.get_word_aligned(0x10), 0x44FF_2211);
    memory.set_word_aligned(0xFFFF_FFFF, 5);
    assert_eq!(memory.get_word_aligned(0xFFFF_FFFC), 5);
    assert_eq!(memory.count_pages(), 5);
    assert_eq!(memory.describe(), "<memory using 5 x 4KiB pages>");
    let zero = Memory::with_default_word(0);
    assert_eq!(zero.get_word_aligned(0x1234), 0);
    memory.set_words_aligned(0x400, &[7, 8, 9]);
    assert_eq!(memory.get_word_aligned(0x408), 9);
    assert_eq!(memory.get_word_aligned(0x40C), 0xAAAA_AAAA);
}

#[test]
fn registers_are_described() {
    let mut registers = Registers::default();
    registers.set(Register::R0, 0xDEAD_BEEF);
    registers.set(Register::R15, 0x40);
    registers.set_flags(true, false, true, false);
    assert_eq!(
        registers.describe(),
        "Mode svc  Flags NCI\n\
         R0  DEADBEEF  R1  00000000  R2  00000000  R3  00000000\n\
         R4  00000000  R5  00000000  R6  00000000  R7  00000000\n\
         R8  00000000  R9  00000000  R10 00000000  R11 00000000\n\
         R12 00000000  SP  00000000  LR  00000000  PC  00000040"
    );
    assert_eq!(Mode::Undefined.name(), "und");
    assert_eq!(Mode::Fiq.bits(), 0b10001);
}

#[test]
fn decoded_instructions_run_as_assembled() {
    // What the assembler writes is what the processor reads.
    let assembled = assemble("        adds r0, r1, r2, lsl #3\n").unwrap();
    let (cond, instr) = Instr::decode(assembled.instrs[0]).unwrap();
    assert_eq!(cond, Cond::AL);
    assert_eq!(instr.display(cond), "ADDS R0,R1,R2,LSL #3");
}

#[test]
fn a_failed_step_tells_the_listener_nothing() {
    let mut processor = machine("        mov r0, #1\n        swi #5\n", Mode::Usr);
    let mut listener = CycleCounter::new();
    processor.registers_mut().set(Register::R15, 2);
    assert_eq!(processor.try_execute(&mut listener), Err(ProcessorError::UnalignedPc));
    assert_eq!(listener, CycleCounter::new());
    assert_eq!(processor.registers().get(Register::R15), 2);
    processor.registers_mut().set(Register::R15, 4);
    assert_eq!(processor.try_execute(&mut listener), Err(ProcessorError::InvalidSwi));
    assert_eq!(listener, CycleCounter::new());
    assert_eq!(processor.state(), ProcessorState::Running);
}

#[test]
fn a_failed_run_leaves_the_processor_before_the_failed_step() {
    let mut processor = machine("        mov r0, #1\n        swi #5\n        mov r0, #2\n", Mode::Usr);
    assert_eq!(armul::harness::run(&mut processor, 5), Err(ProcessorError::InvalidSwi));
    assert_eq!(processor.registers().get(Register::R0), 1);
    assert_eq!(processor.registers().get(Register::R15), 4);
    assert_eq!(processor.state(), ProcessorState::Running);
    let mut halting = machine("        mov r0, #1\n        swi #2\n        mov r0, #2\n", Mode::Usr);
    assert_eq!(armul::harness::run(&mut halting, 5), Ok(true));
    assert_eq!(halting.registers().get(Register::R0), 1);
    assert_eq!(halting.registers().get(Register::R15), 8);
    let mut short = machine("        mov r0, #1\n        swi #2\n", Mode::Usr);
    assert_eq!(armul::harness::run(&mut short, 1), Ok(false));
    assert_eq!(short.registers().get(Register::R15), 4);
}
