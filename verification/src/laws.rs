//! What holds of the assembler and the processor together.

use vstd::prelude::*;
use crate::assemble::heal::constant_effect;
use crate::assemble::heal::filled_value;
use crate::assemble::heal::is_fill_instr;
use crate::assemble::heal::lemma_fill_register_sound;
use crate::assemble::heal::spec_fill_register;
use crate::harness::spec_run;
use crate::instr::laws::lemma_encode_decode_round_trip;
use crate::instr::ty::Cond;
use crate::instr::ty::DataOperand;
use crate::instr::ty::Instr;
use crate::instr::ty::Register;
use crate::memory::WORD_COUNT;
use crate::processor::advanced;
use crate::processor::data::lemma_constant_step;
use crate::processor::spec_step;
use crate::processor::MachineState;
use crate::processor::ProcessorState;
use crate::registers::banking_mode;
use crate::registers::cpsr_slot;
use crate::registers::read_register;

verus! {

/// Whether the memory holds the words of the instructions from `skip` on,
/// each under the condition `AL`, from the program counter on, and the
/// program counter can run over them without wrapping round.
pub open spec fn at_program(m: MachineState, instrs: Seq<Instr>, skip: int) -> bool {
    let pc = read_register(m.regs, Register::R15);
    &&& pc % 4 == 0
    &&& 0 <= skip <= instrs.len()
    &&& pc / 4 + (instrs.len() - skip) < WORD_COUNT
    &&& forall|i: int|
        skip <= i < instrs.len() ==> (#[trigger] instrs[i]).spec_encode(Cond::AL) == Ok::<
            u32,
            crate::assemble::LineError,
        >(m.mem[pc / 4 + (i - skip)])
}

/// One step over an instruction of healing, and the move of the program
/// counter after it: the register receives what the instruction builds,
/// the program counter points to the next word, and the memory, the
/// status register and the running of the processor stay as they are.
pub proof fn lemma_healing_step(m: MachineState, instr: Instr, register: Register, before: u32)
    requires
        m.wf(),
        register != Register::R15,
        is_fill_instr(instr, register),
        instr.spec_representable(),
        read_register(m.regs, Register::R15) % 4 == 0,
        read_register(m.regs, Register::R15) / 4 + 1 < WORD_COUNT,
        instr.spec_encode(Cond::AL) == Ok::<u32, crate::assemble::LineError>(
            m.mem[(read_register(m.regs, Register::R15) / 4) as int],
        ),
        read_register(m.regs, register) == before,
    ensures
        spec_step(m) is Ok,
        advanced(spec_step(m)->Ok_0.0).wf(),
        advanced(spec_step(m)->Ok_0.0).mem == m.mem,
        advanced(spec_step(m)->Ok_0.0).state == m.state,
        advanced(spec_step(m)->Ok_0.0).regs[cpsr_slot()] == m.regs[cpsr_slot()],
        read_register(advanced(spec_step(m)->Ok_0.0).regs, Register::R15) == read_register(
            m.regs,
            Register::R15,
        ) + 4,
        read_register(advanced(spec_step(m)->Ok_0.0).regs, register) == constant_effect(
            instr,
            before,
        ),
{
    let mode = banking_mode(m.regs[cpsr_slot()]);
    lemma_encode_decode_round_trip(instr, Cond::AL);
    register.lemma_banking(mode, Register::R15, mode);
    Register::R15.lemma_banking(mode, register, mode);
    match instr {
        Instr::Data { set_condition_codes, op, dest, op1, op2 } => {
            match op2 {
                DataOperand::Constant(constant) => {
                    lemma_constant_step(m, op, dest, op1, constant);
                },
                _ => {},
            }
        },
        _ => {},
    }
}

/// The run over the instructions from `skip` on builds the value that all
/// of them build, given that the register holds what those before `skip`
/// have built.
pub proof fn lemma_healing_run(
    m: MachineState,
    instrs: Seq<Instr>,
    register: Register,
    start: u32,
    skip: int,
)
    requires
        m.wf(),
        m.state == ProcessorState::Running,
        register != Register::R15,
        at_program(m, instrs, skip),
        forall|i: int|
            0 <= i < instrs.len() ==> is_fill_instr(#[trigger] instrs[i], register)
                && instrs[i].spec_representable(),
        read_register(m.regs, register) == filled_value(instrs.take(skip), start),
    ensures
        spec_run(m, (instrs.len() - skip) as nat) is Ok,
        !spec_run(m, (instrs.len() - skip) as nat)->Ok_0.1,
        spec_run(m, (instrs.len() - skip) as nat)->Ok_0.0.mem == m.mem,
        read_register(spec_run(m, (instrs.len() - skip) as nat)->Ok_0.0.regs, register)
            == filled_value(instrs, start),
        read_register(spec_run(m, (instrs.len() - skip) as nat)->Ok_0.0.regs, Register::R15)
            == read_register(m.regs, Register::R15) + 4 * (instrs.len() - skip),
    decreases instrs.len() - skip,
{
    if skip == instrs.len() {
        assert(instrs.take(skip) =~= instrs);
    } else {
        let instr = instrs[skip];
        let before = filled_value(instrs.take(skip), start);
        assert(instr.spec_encode(Cond::AL) == Ok::<u32, crate::assemble::LineError>(
            m.mem[read_register(m.regs, Register::R15) / 4 + (skip - skip)],
        ));
        lemma_healing_step(m, instr, register, before);
        let next = advanced(spec_step(m)->Ok_0.0);
        assert(instrs.take(skip + 1).drop_last() =~= instrs.take(skip));
        assert(filled_value(instrs.take(skip + 1), start) == constant_effect(instr, before));
        assert(at_program(next, instrs, skip + 1)) by {
            let pc = read_register(m.regs, Register::R15);
            assert forall|i: int| skip + 1 <= i < instrs.len() implies (
            #[trigger] instrs[i]).spec_encode(Cond::AL) == Ok::<u32, crate::assemble::LineError>(
                next.mem[(pc + 4) / 4 + (i - (skip + 1))],
            ) by {
                assert(pc / 4 + (i - skip) == (pc + 4) / 4 + (i - (skip + 1)));
            }
        }
        lemma_healing_run(next, instrs, register, start, skip + 1);
    }
}

/// Healing works on the processor: if the memory holds the words of the
/// instructions that fill a register with a value, a run over them leaves
/// the value in the register, whatever the register held before, and the
/// program counter behind them; the memory stays as it is.
pub proof fn lemma_healing_runs(m: MachineState, value: u32, register: Register)
    requires
        m.wf(),
        m.state == ProcessorState::Running,
        register != Register::R15,
        at_program(m, spec_fill_register(value, register), 0),
    ensures
        spec_run(m, spec_fill_register(value, register).len()) is Ok,
        !spec_run(m, spec_fill_register(value, register).len())->Ok_0.1,
        spec_run(m, spec_fill_register(value, register).len())->Ok_0.0.mem == m.mem,
        read_register(
            spec_run(m, spec_fill_register(value, register).len())->Ok_0.0.regs,
            register,
        ) == value,
        read_register(
            spec_run(m, spec_fill_register(value, register).len())->Ok_0.0.regs,
            Register::R15,
        ) == read_register(m.regs, Register::R15) + 4 * spec_fill_register(value, register).len(),
{
    let instrs = spec_fill_register(value, register);
    let start = read_register(m.regs, register);
    lemma_fill_register_sound(value, register, start);
    assert(instrs.take(0) =~= Seq::<Instr>::empty());
    lemma_healing_run(m, instrs, register, start, 0);
}

} // verus!
