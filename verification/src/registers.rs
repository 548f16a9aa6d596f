//! The physical registers in the processor's hardware, and the mapping from
//! the sixteen register names onto them under each processor mode.

use vstd::prelude::*;
use vstd::string::*;
use crate::instr::bits::bit_is_set;
use crate::instr::bits::field;
use crate::instr::bits::get_field;
use crate::instr::bits::test_bit;
use crate::instr::bits::with_bit;
use crate::instr::bits::with_nzcv;
use crate::instr::ty::Cond;
use crate::instr::ty::Psr;
use crate::instr::ty::Register;
use crate::mode::Mode;

verus! {

/// One of the 37 registers of the hardware: 31 general-purpose registers
/// and 6 status registers.
#[derive(Debug, Clone, Copy, PartialEq, Eq, PartialOrd, Ord, Hash, Structural)]
pub enum PhysicalRegister {
    R0,
    R1,
    R2,
    R3,
    R4,
    R5,
    R6,
    R7,
    R8,
    R9,
    R10,
    R11,
    R12,
    R13,
    R14,
    R15,
    R8Fiq,
    R9Fiq,
    R10Fiq,
    R11Fiq,
    R12Fiq,
    R13Fiq,
    R14Fiq,
    R13Svc,
    R14Svc,
    R13Abt,
    R14Abt,
    R13Irq,
    R14Irq,
    R13Und,
    R14Und,
    Cpsr,
    SpsrFiq,
    SpsrSvc,
    SpsrAbt,
    SpsrIrq,
    SpsrUnd,
}

impl PhysicalRegister {
    /// The slot of this register in the bank, from 0 to 36.
    pub open spec fn spec_index(self) -> int {
        match self {
            PhysicalRegister::R0 => 0,
            PhysicalRegister::R1 => 1,
            PhysicalRegister::R2 => 2,
            PhysicalRegister::R3 => 3,
            PhysicalRegister::R4 => 4,
            PhysicalRegister::R5 => 5,
            PhysicalRegister::R6 => 6,
            PhysicalRegister::R7 => 7,
            PhysicalRegister::R8 => 8,
            PhysicalRegister::R9 => 9,
            PhysicalRegister::R10 => 10,
            PhysicalRegister::R11 => 11,
            PhysicalRegister::R12 => 12,
            PhysicalRegister::R13 => 13,
            PhysicalRegister::R14 => 14,
            PhysicalRegister::R15 => 15,
            PhysicalRegister::R8Fiq => 16,
            PhysicalRegister::R9Fiq => 17,
            PhysicalRegister::R10Fiq => 18,
            PhysicalRegister::R11Fiq => 19,
            PhysicalRegister::R12Fiq => 20,
            PhysicalRegister::R13Fiq => 21,
            PhysicalRegister::R14Fiq => 22,
            PhysicalRegister::R13Svc => 23,
            PhysicalRegister::R14Svc => 24,
            PhysicalRegister::R13Abt => 25,
            PhysicalRegister::R14Abt => 26,
            PhysicalRegister::R13Irq => 27,
            PhysicalRegister::R14Irq => 28,
            PhysicalRegister::R13Und => 29,
            PhysicalRegister::R14Und => 30,
            PhysicalRegister::Cpsr => 31,
            PhysicalRegister::SpsrFiq => 32,
            PhysicalRegister::SpsrSvc => 33,
            PhysicalRegister::SpsrAbt => 34,
            PhysicalRegister::SpsrIrq => 35,
            PhysicalRegister::SpsrUnd => 36,
        }
    }

    /// The slot of this register in the bank, from 0 to 36.
    pub fn index(self) -> (r: usize)
        ensures
            r == self.spec_index(),
            r < 37,
    {
        match self {
            PhysicalRegister::R0 => 0,
            PhysicalRegister::R1 => 1,
            PhysicalRegister::R2 => 2,
            PhysicalRegister::R3 => 3,
            PhysicalRegister::R4 => 4,
            PhysicalRegister::R5 => 5,
            PhysicalRegister::R6 => 6,
            PhysicalRegister::R7 => 7,
            PhysicalRegister::R8 => 8,
            PhysicalRegister::R9 => 9,
            PhysicalRegister::R10 => 10,
            PhysicalRegister::R11 => 11,
            PhysicalRegister::R12 => 12,
            PhysicalRegister::R13 => 13,
            PhysicalRegister::R14 => 14,
            PhysicalRegister::R15 => 15,
            PhysicalRegister::R8Fiq => 16,
            PhysicalRegister::R9Fiq => 17,
            PhysicalRegister::R10Fiq => 18,
            PhysicalRegister::R11Fiq => 19,
            PhysicalRegister::R12Fiq => 20,
            PhysicalRegister::R13Fiq => 21,
            PhysicalRegister::R14Fiq => 22,
            PhysicalRegister::R13Svc => 23,
            PhysicalRegister::R14Svc => 24,
            PhysicalRegister::R13Abt => 25,
            PhysicalRegister::R14Abt => 26,
            PhysicalRegister::R13Irq => 27,
            PhysicalRegister::R14Irq => 28,
            PhysicalRegister::R13Und => 29,
            PhysicalRegister::R14Und => 30,
            PhysicalRegister::Cpsr => 31,
            PhysicalRegister::SpsrFiq => 32,
            PhysicalRegister::SpsrSvc => 33,
            PhysicalRegister::SpsrAbt => 34,
            PhysicalRegister::SpsrIrq => 35,
            PhysicalRegister::SpsrUnd => 36,
        }
    }

    /// Two physical registers in the same slot are the same register.
    pub proof fn lemma_index_injective(self, other: PhysicalRegister)
        ensures
            0 <= self.spec_index() < 37,
            self.spec_index() == other.spec_index() ==> self == other,
    {
    }
}

impl Register {
    /// The banking table: the physical register that this name refers to in
    /// the given mode.
    /// - `R0` to `R7` and `R15` are the same register in every mode.
    /// - `R8` to `R12` have a bank of their own in `Fiq`.
    /// - `R13` and `R14` have a bank of their own in every mode but `Usr`
    ///   and `System`, which share one.
    pub open spec fn spec_physical(self, mode: Mode) -> PhysicalRegister {
        match (self, mode) {
            (Register::R0, _) => PhysicalRegister::R0,
            (Register::R1, _) => PhysicalRegister::R1,
            (Register::R2, _) => PhysicalRegister::R2,
            (Register::R3, _) => PhysicalRegister::R3,
            (Register::R4, _) => PhysicalRegister::R4,
            (Register::R5, _) => PhysicalRegister::R5,
            (Register::R6, _) => PhysicalRegister::R6,
            (Register::R7, _) => PhysicalRegister::R7,
            (Register::R8, Mode::Fiq) => PhysicalRegister::R8Fiq,
            (Register::R9, Mode::Fiq) => PhysicalRegister::R9Fiq,
            (Register::R10, Mode::Fiq) => PhysicalRegister::R10Fiq,
            (Register::R11, Mode::Fiq) => PhysicalRegister::R11Fiq,
            (Register::R12, Mode::Fiq) => PhysicalRegister::R12Fiq,
            (Register::R8, _) => PhysicalRegister::R8,
            (Register::R9, _) => PhysicalRegister::R9,
            (Register::R10, _) => PhysicalRegister::R10,
            (Register::R11, _) => PhysicalRegister::R11,
            (Register::R12, _) => PhysicalRegister::R12,
            (Register::R13, Mode::Usr) => PhysicalRegister::R13,
            (Register::R13, Mode::System) => PhysicalRegister::R13,
            (Register::R13, Mode::Fiq) => PhysicalRegister::R13Fiq,
            (Register::R13, Mode::Supervisor) => PhysicalRegister::R13Svc,
            (Register::R13, Mode::Abort) => PhysicalRegister::R13Abt,
            (Register::R13, Mode::Irq) => PhysicalRegister::R13Irq,
            (Register::R13, Mode::Undefined) => PhysicalRegister::R13Und,
            (Register::R14, Mode::Usr) => PhysicalRegister::R14,
            (Register::R14, Mode::System) => PhysicalRegister::R14,
            (Register::R14, Mode::Fiq) => PhysicalRegister::R14Fiq,
            (Register::R14, Mode::Supervisor) => PhysicalRegister::R14Svc,
            (Register::R14, Mode::Abort) => PhysicalRegister::R14Abt,
            (Register::R14, Mode::Irq) => PhysicalRegister::R14Irq,
            (Register::R14, Mode::Undefined) => PhysicalRegister::R14Und,
            (Register::R15, _) => PhysicalRegister::R15,
        }
    }

    /// The physical register that this name refers to in the given mode.
    pub fn physical(self, mode: Mode) -> (r: PhysicalRegister)
        ensures
            r == self.spec_physical(mode),
    {
        match (self, mode) {
            (Register::R0, _) => PhysicalRegister::R0,
            (Register::R1, _) => PhysicalRegister::R1,
            (Register::R2, _) => PhysicalRegister::R2,
            (Register::R3, _) => PhysicalRegister::R3,
            (Register::R4, _) => PhysicalRegister::R4,
            (Register::R5, _) => PhysicalRegister::R5,
            (Register::R6, _) => PhysicalRegister::R6,
            (Register::R7, _) => PhysicalRegister::R7,
            (Register::R8, Mode::Fiq) => PhysicalRegister::R8Fiq,
            (Register::R9, Mode::Fiq) => PhysicalRegister::R9Fiq,
            (Register::R10, Mode::Fiq) => PhysicalRegister::R10Fiq,
            (Register::R11, Mode::Fiq) => PhysicalRegister::R11Fiq,
            (Register::R12, Mode::Fiq) => PhysicalRegister::R12Fiq,
            (Register::R8, _) => PhysicalRegister::R8,
            (Register::R9, _) => PhysicalRegister::R9,
            (Register::R10, _) => PhysicalRegister::R10,
            (Register::R11, _) => PhysicalRegister::R11,
            (Register::R12, _) => PhysicalRegister::R12,
            (Register::R13, Mode::Usr) => PhysicalRegister::R13,
            (Register::R13, Mode::System) => PhysicalRegister::R13,
            (Register::R13, Mode::Fiq) => PhysicalRegister::R13Fiq,
            (Register::R13, Mode::Supervisor) => PhysicalRegister::R13Svc,
            (Register::R13, Mode::Abort) => PhysicalRegister::R13Abt,
            (Register::R13, Mode::Irq) => PhysicalRegister::R13Irq,
            (Register::R13, Mode::Undefined) => PhysicalRegister::R13Und,
            (Register::R14, Mode::Usr) => PhysicalRegister::R14,
            (Register::R14, Mode::System) => PhysicalRegister::R14,
            (Register::R14, Mode::Fiq) => PhysicalRegister::R14Fiq,
            (Register::R14, Mode::Supervisor) => PhysicalRegister::R14Svc,
            (Register::R14, Mode::Abort) => PhysicalRegister::R14Abt,
            (Register::R14, Mode::Irq) => PhysicalRegister::R14Irq,
            (Register::R14, Mode::Undefined) => PhysicalRegister::R14Und,
            (Register::R15, _) => PhysicalRegister::R15,
        }
    }

    /// Whether this name has a bank of its own in the given mode.
    pub open spec fn spec_is_banked(self, mode: Mode) -> bool {
        let n = self.spec_index();
        (8 <= n <= 12 && mode == Mode::Fiq) || (13 <= n <= 14 && mode.spec_has_spsr())
    }

    /// The banking rules, stated of the table:
    /// - an unbanked name refers to the general register of its own number;
    /// - a banked name refers to a register beyond the first sixteen, and to
    ///   a different one than in any other mode;
    /// - within one mode, different names refer to different registers, and
    ///   none to a status register.
    pub proof fn lemma_banking(self, mode: Mode, other: Register, other_mode: Mode)
        ensures
            !self.spec_is_banked(mode) ==> self.spec_physical(mode).spec_index()
                == self.spec_index(),
            self.spec_is_banked(mode) ==> 16 <= self.spec_physical(mode).spec_index() < 31,
            self.spec_is_banked(mode) && mode != other_mode ==> self.spec_physical(mode)
                != other.spec_physical(other_mode),
            self != other ==> self.spec_physical(mode) != other.spec_physical(mode),
            self.spec_physical(mode).spec_index() < 31,
    {
    }
}

impl Psr {
    /// The physical register behind a status register in the given mode.
    /// The current status register is shared; there is no saved status
    /// register in `Usr` and `System` mode.
    pub open spec fn spec_physical(self, mode: Mode) -> Option<PhysicalRegister> {
        match (self, mode) {
            (Psr::Cpsr, _) => Some(PhysicalRegister::Cpsr),
            (Psr::Spsr, Mode::Usr) => None,
            (Psr::Spsr, Mode::System) => None,
            (Psr::Spsr, Mode::Fiq) => Some(PhysicalRegister::SpsrFiq),
            (Psr::Spsr, Mode::Irq) => Some(PhysicalRegister::SpsrIrq),
            (Psr::Spsr, Mode::Supervisor) => Some(PhysicalRegister::SpsrSvc),
            (Psr::Spsr, Mode::Abort) => Some(PhysicalRegister::SpsrAbt),
            (Psr::Spsr, Mode::Undefined) => Some(PhysicalRegister::SpsrUnd),
        }
    }

    /// Get the physical register corresponding to the given mode.
    /// Note that there is no SPSR in user or system mode.
    pub fn physical(self, mode: Mode) -> (r: Option<PhysicalRegister>)
        ensures
            r == self.spec_physical(mode),
    {
        match (self, mode) {
            (Psr::Cpsr, _) => Some(PhysicalRegister::Cpsr),
            (Psr::Spsr, Mode::Usr) => None,
            (Psr::Spsr, Mode::System) => None,
            (Psr::Spsr, Mode::Fiq) => Some(PhysicalRegister::SpsrFiq),
            (Psr::Spsr, Mode::Irq) => Some(PhysicalRegister::SpsrIrq),
            (Psr::Spsr, Mode::Supervisor) => Some(PhysicalRegister::SpsrSvc),
            (Psr::Spsr, Mode::Abort) => Some(PhysicalRegister::SpsrAbt),
            (Psr::Spsr, Mode::Undefined) => Some(PhysicalRegister::SpsrUnd),
        }
    }
}

/// The slot of the current program status register in the bank.
pub open spec fn cpsr_slot() -> int {
    31
}

/// The mode that the five mode bits of a status word select, if any.
pub open spec fn mode_of_word(cpsr: u32) -> Option<Mode> {
    match field(cpsr, 0, 5) {
        0b10000 => Some(Mode::Usr),
        0b10001 => Some(Mode::Fiq),
        0b10010 => Some(Mode::Irq),
        0b10011 => Some(Mode::Supervisor),
        0b10111 => Some(Mode::Abort),
        0b11011 => Some(Mode::Undefined),
        0b11111 => Some(Mode::System),
        _ => None,
    }
}

/// The mode under which register names are resolved: the mode of the status
/// word, or `Usr` where its mode bits are invalid.
pub open spec fn banking_mode(cpsr: u32) -> Mode {
    match mode_of_word(cpsr) {
        Some(mode) => mode,
        None => Mode::Usr,
    }
}

/// The slot that a register name refers to in a bank of 37 words.
pub open spec fn slot_of(regs: Seq<u32>, register: Register) -> int {
    register.spec_physical(banking_mode(regs[cpsr_slot()])).spec_index()
}

/// The value of a register name in a bank of 37 words.
pub open spec fn read_register(regs: Seq<u32>, register: Register) -> u32 {
    regs[slot_of(regs, register)]
}

/// The value of a register name, with `pc_offset` added if the name is `R15`.
pub open spec fn read_register_pc(regs: Seq<u32>, register: Register, pc_offset: u32) -> u32 {
    if register == Register::R15 {
        ((read_register(regs, register) + pc_offset) % 0x1_0000_0000) as u32
    } else {
        read_register(regs, register)
    }
}

/// The bank after a write to a register name.
pub open spec fn write_register(regs: Seq<u32>, register: Register, value: u32) -> Seq<u32> {
    regs.update(slot_of(regs, register), value)
}

/// Whether a condition holds under the flags of a status word.
pub open spec fn condition_holds(cpsr: u32, cond: Cond) -> bool {
    let n = bit_is_set(cpsr, 31);
    let z = bit_is_set(cpsr, 30);
    let c = bit_is_set(cpsr, 29);
    let v = bit_is_set(cpsr, 28);
    match cond {
        Cond::EQ => z,
        Cond::NE => !z,
        Cond::CS => c,
        Cond::CC => !c,
        Cond::MI => n,
        Cond::PL => !n,
        Cond::VS => v,
        Cond::VC => !v,
        Cond::HI => c && !z,
        Cond::LS => !c || z,
        Cond::GE => n == v,
        Cond::LT => n != v,
        Cond::GT => !z && n == v,
        Cond::LE => z || n != v,
        Cond::AL => true,
    }
}

/// The register bank: 31 general-purpose data registers and 6 status
/// registers, each in the slot of its `PhysicalRegister`.
#[derive(Debug, Clone)]
pub struct Registers {
    pub regs: [u32; 37],
}

impl View for Registers {
    type V = Seq<u32>;

    open spec fn view(&self) -> Seq<u32> {
        self.regs@
    }
}

impl Default for Registers {
    /// All registers zero, but for the CPSR: supervisor mode with IRQ
    /// disabled.
    fn default() -> (r: Self)
        ensures
            r@ == Registers::default_view(),
    {
        let mut this = Self { regs: [0u32;37] };
        this.regs[31] = 0b1001_0011;
        assert(this@ =~= Seq::new(
            37,
            |i: int| if i == cpsr_slot() { 0b1001_0011u32 } else { 0u32 },
        ));
        this
    }
}

impl Registers {
    /// The bank in its initial state: all registers zero, but for the CPSR,
    /// which selects supervisor mode with IRQ disabled (`0b10010011`).
    pub open spec fn default_view() -> Seq<u32> {
        Seq::new(37, |i: int| if i == cpsr_slot() { 0b1001_0011u32 } else { 0u32 })
    }

    /// Reads a physical register.
    pub fn get_physical(&self, register: PhysicalRegister) -> (r: u32)
        ensures
            r == self@[register.spec_index()],
    {
        self.regs[register.index()]
    }

    /// Mutably borrows a physical register.
    pub fn get_physical_mut(&mut self, register: PhysicalRegister) -> (r: &mut u32)
        ensures
            *r == old(self)@[register.spec_index()],
            final(self)@ == old(self)@.update(register.spec_index(), *final(r)),
    {
        &mut self.regs[register.index()]
    }

    /// Writes a physical register.
    pub fn set_physical(&mut self, register: PhysicalRegister, value: u32)
        ensures
            final(self)@ == old(self)@.update(register.spec_index(), value),
    {
        self.regs[register.index()] = value;
    }

    /// The mode under which register names are resolved: the current mode,
    /// or the user mode where the mode bits are invalid.
    pub fn banking_mode(&self) -> (r: Mode)
        ensures
            r == banking_mode(self@[cpsr_slot()]),
    {
        match self.mode() {
            Some(mode) => mode,
            None => Mode::Usr,
        }
    }

    /// Using the current mode of the processor, obtain the value of the given
    /// virtual register. In case of ill-defined mode, we default to the user mode.
    pub fn get(&self, register: Register) -> (r: u32)
        ensures
            r == read_register(self@, register),
    {
        self.get_physical(register.physical(self.banking_mode()))
    }

    /// Get the value of the given register as in `Self::get`.
    /// But if `register` is `R15`, additionally add the given offset.
    pub fn get_pc_offset(&self, register: Register, pc_offset: u32) -> (r: u32)
        ensures
            r == read_register_pc(self@, register, pc_offset),
    {
        let value = self.get(register);
        if register == Register::R15 {
            value.wrapping_add(pc_offset)
        } else {
            value
        }
    }

    /// Using the current mode of the processor, mutably borrow the given
    /// virtual register. In case of ill-defined mode, we default to the user mode.
    pub fn get_mut(&mut self, register: Register) -> (r: &mut u32)
        ensures
            *r == read_register(old(self)@, register),
            final(self)@ == write_register(old(self)@, register, *final(r)),
    {
        let physical = register.physical(self.banking_mode());
        self.get_physical_mut(physical)
    }

    /// Using the current mode of the processor, write the given virtual
    /// register.
    pub fn set(&mut self, register: Register, value: u32)
        ensures
            final(self)@ == write_register(old(self)@, register, value),
    {
        let physical = register.physical(self.banking_mode());
        self.set_physical(physical, value);
    }

    /// Return the current program status register.
    pub fn cpsr(&self) -> (r: u32)
        ensures
            r == self@[cpsr_slot()],
    {
        self.get_physical(PhysicalRegister::Cpsr)
    }

    /// Mutably borrows the current program status register.
    pub fn cpsr_mut(&mut self) -> (r: &mut u32)
        ensures
            *r == old(self)@[cpsr_slot()],
            final(self)@ == old(self)@.update(cpsr_slot(), *final(r)),
    {
        self.get_physical_mut(PhysicalRegister::Cpsr)
    }

    /// Get the current mode of the processor.
    /// If the CPSR had invalid mode bits, the processor has no definite mode.
    pub fn mode(&self) -> (r: Option<Mode>)
        ensures
            r == mode_of_word(self@[cpsr_slot()]),
    {
        match get_field(self.cpsr(), 0, 5) {
            0b10000 => Some(Mode::Usr),
            0b10001 => Some(Mode::Fiq),
            0b10010 => Some(Mode::Irq),
            0b10011 => Some(Mode::Supervisor),
            0b10111 => Some(Mode::Abort),
            0b11011 => Some(Mode::Undefined),
            0b11111 => Some(Mode::System),
            _ => None,
        }
    }

    /// Puts the processor into the given mode; the other bits of the CPSR
    /// stay as they are.
    pub fn set_mode(&mut self, mode: Mode)
        ensures
            final(self)@ == old(self)@.update(
                cpsr_slot(),
                (old(self)@[cpsr_slot()] - field(old(self)@[cpsr_slot()], 0, 5)
                    + mode.spec_bits()) as u32,
            ),
    {
        let cpsr = self.cpsr();
        self.set_physical(
            PhysicalRegister::Cpsr,
            cpsr - get_field(cpsr, 0, 5) + mode.bits(),
        );
    }

    /// Replaces the four condition flags; the other bits of the CPSR stay as
    /// they are.
    pub fn set_flags(&mut self, negative: bool, zero: bool, carry: bool, overflow: bool)
        ensures
            final(self)@ == old(self)@.update(
                cpsr_slot(),
                with_nzcv(old(self)@[cpsr_slot()], negative, zero, carry, overflow),
            ),
    {
        let cpsr = self.cpsr();
        let n: u32 = if negative { 0x8000_0000 } else { 0 };
        let z: u32 = if zero { 0x4000_0000 } else { 0 };
        let c: u32 = if carry { 0x2000_0000 } else { 0 };
        let v: u32 = if overflow { 0x1000_0000 } else { 0 };
        self.set_physical(PhysicalRegister::Cpsr, get_field(cpsr, 0, 28) + (n + z + c + v));
    }

    /// Test the N flag.
    pub fn negative(&self) -> (r: bool)
        ensures
            r == bit_is_set(self@[cpsr_slot()], 31),
    {
        test_bit(self.cpsr(), 31)
    }

    /// Sets or clears the N flag.
    pub fn set_negative(&mut self, set: bool)
        ensures
            final(self)@ == old(self)@.update(cpsr_slot(), with_bit(old(self)@[cpsr_slot()], 31, set)),
    {
        let cpsr = self.cpsr();
        self.set_physical(PhysicalRegister::Cpsr, set_bit(cpsr, 31, set));
    }

    /// Test the Z flag.
    pub fn zero(&self) -> (r: bool)
        ensures
            r == bit_is_set(self@[cpsr_slot()], 30),
    {
        test_bit(self.cpsr(), 30)
    }

    /// Sets or clears the Z flag.
    pub fn set_zero(&mut self, set: bool)
        ensures
            final(self)@ == old(self)@.update(cpsr_slot(), with_bit(old(self)@[cpsr_slot()], 30, set)),
    {
        let cpsr = self.cpsr();
        self.set_physical(PhysicalRegister::Cpsr, set_bit(cpsr, 30, set));
    }

    /// Test the C flag.
    pub fn carry(&self) -> (r: bool)
        ensures
            r == bit_is_set(self@[cpsr_slot()], 29),
    {
        test_bit(self.cpsr(), 29)
    }

    /// Sets or clears the C flag.
    pub fn set_carry(&mut self, set: bool)
        ensures
            final(self)@ == old(self)@.update(cpsr_slot(), with_bit(old(self)@[cpsr_slot()], 29, set)),
    {
        let cpsr = self.cpsr();
        self.set_physical(PhysicalRegister::Cpsr, set_bit(cpsr, 29, set));
    }

    /// Test the V flag.
    pub fn overflow(&self) -> (r: bool)
        ensures
            r == bit_is_set(self@[cpsr_slot()], 28),
    {
        test_bit(self.cpsr(), 28)
    }

    /// Sets or clears the V flag.
    pub fn set_overflow(&mut self, set: bool)
        ensures
            final(self)@ == old(self)@.update(cpsr_slot(), with_bit(old(self)@[cpsr_slot()], 28, set)),
    {
        let cpsr = self.cpsr();
        self.set_physical(PhysicalRegister::Cpsr, set_bit(cpsr, 28, set));
    }

    /// Test the I bit.
    pub fn irq_disable(&self) -> (r: bool)
        ensures
            r == bit_is_set(self@[cpsr_slot()], 7),
    {
        test_bit(self.cpsr(), 7)
    }

    /// Sets or clears the I bit.
    pub fn set_irq_disable(&mut self, set: bool)
        ensures
            final(self)@ == old(self)@.update(cpsr_slot(), with_bit(old(self)@[cpsr_slot()], 7, set)),
    {
        let cpsr = self.cpsr();
        self.set_physical(PhysicalRegister::Cpsr, set_bit(cpsr, 7, set));
    }

    /// Test the F bit.
    pub fn fiq_disable(&self) -> (r: bool)
        ensures
            r == bit_is_set(self@[cpsr_slot()], 6),
    {
        test_bit(self.cpsr(), 6)
    }

    /// Sets or clears the F bit.
    pub fn set_fiq_disable(&mut self, set: bool)
        ensures
            final(self)@ == old(self)@.update(cpsr_slot(), with_bit(old(self)@[cpsr_slot()], 6, set)),
    {
        let cpsr = self.cpsr();
        self.set_physical(PhysicalRegister::Cpsr, set_bit(cpsr, 6, set));
    }

    /// Test the T bit.
    pub fn thumb_state(&self) -> (r: bool)
        ensures
            r == bit_is_set(self@[cpsr_slot()], 5),
    {
        test_bit(self.cpsr(), 5)
    }

    /// Sets or clears the T bit.
    pub fn set_thumb_state(&mut self, set: bool)
        ensures
            final(self)@ == old(self)@.update(cpsr_slot(), with_bit(old(self)@[cpsr_slot()], 5, set)),
    {
        let cpsr = self.cpsr();
        self.set_physical(PhysicalRegister::Cpsr, set_bit(cpsr, 5, set));
    }

    /// Returns true if the given condition holds.
    pub fn test_condition(&self, cond: Cond) -> (r: bool)
        ensures
            r == condition_holds(self@[cpsr_slot()], cond),
    {
        match cond {
            Cond::EQ => self.zero(),
            Cond::NE => !self.zero(),
            Cond::CS => self.carry(),
            Cond::CC => !self.carry(),
            Cond::MI => self.negative(),
            Cond::PL => !self.negative(),
            Cond::VS => self.overflow(),
            Cond::VC => !self.overflow(),
            Cond::HI => self.carry() && !self.zero(),
            Cond::LS => !self.carry() || self.zero(),
            Cond::GE => self.negative() == self.overflow(),
            Cond::LT => self.negative() != self.overflow(),
            Cond::GT => !self.zero() && (self.negative() == self.overflow()),
            Cond::LE => self.zero() || (self.negative() != self.overflow()),
            Cond::AL => true,
        }
    }
}

/// `prefix` followed by the letter of a flag if the flag is set.
pub open spec fn flag_text(prefix: Seq<char>, cpsr: u32, bit: u32, letter: Seq<char>) -> Seq<
    char,
> {
    if bit_is_set(cpsr, bit) {
        prefix + letter
    } else {
        prefix
    }
}

/// `prefix` followed by a label and the value of a register in eight
/// hexadecimal digits.
pub open spec fn register_line_text(
    prefix: Seq<char>,
    label: Seq<char>,
    regs: Seq<u32>,
    register: Register,
) -> Seq<char> {
    crate::instr::display::hex_text(prefix + label, read_register(regs, register), 8)
}

/// The registers as text: the mode (`???` if the mode bits are invalid),
/// the letters of the flags that are set, and the sixteen registers of the
/// mode in hexadecimal, four to a line.
pub open spec fn describe_text(regs: Seq<u32>) -> Seq<char> {
    let cpsr = regs[cpsr_slot()];
    let mode = "Mode "@ + (match mode_of_word(cpsr) {
        Some(mode) => mode.spec_name(),
        None => "???"@,
    }) + "  Flags "@;
    let flags = flag_text(
        flag_text(
            flag_text(
                flag_text(
                    flag_text(flag_text(flag_text(mode, cpsr, 31, "N"@), cpsr, 30, "Z"@), cpsr, 29, "C"@),
                    cpsr,
                    28,
                    "V"@,
                ),
                cpsr,
                7,
                "I"@,
            ),
            cpsr,
            6,
            "F"@,
        ),
        cpsr,
        5,
        "T"@,
    );
    let row0 = register_line_text(
        register_line_text(
            register_line_text(
                register_line_text(flags, "\nR0  "@, regs, Register::R0),
                "  R1  "@,
                regs,
                Register::R1,
            ),
            "  R2  "@,
            regs,
            Register::R2,
        ),
        "  R3  "@,
        regs,
        Register::R3,
    );
    let row1 = register_line_text(
        register_line_text(
            register_line_text(
                register_line_text(row0, "\nR4  "@, regs, Register::R4),
                "  R5  "@,
                regs,
                Register::R5,
            ),
            "  R6  "@,
            regs,
            Register::R6,
        ),
        "  R7  "@,
        regs,
        Register::R7,
    );
    let row2 = register_line_text(
        register_line_text(
            register_line_text(
                register_line_text(row1, "\nR8  "@, regs, Register::R8),
                "  R9  "@,
                regs,
                Register::R9,
            ),
            "  R10 "@,
            regs,
            Register::R10,
        ),
        "  R11 "@,
        regs,
        Register::R11,
    );
    register_line_text(
        register_line_text(
            register_line_text(
                register_line_text(row2, "\nR12 "@, regs, Register::R12),
                "  SP  "@,
                regs,
                Register::R13,
            ),
            "  LR  "@,
            regs,
            Register::R14,
        ),
        "  PC  "@,
        regs,
        Register::R15,
    )
}

impl Registers {
    /// Appends the letter of a flag if the flag is set.
    fn write_flag(&self, f: &mut String, bit: u32, letter: &str)
        requires
            bit < 32,
        ensures
            final(f)@ == flag_text(old(f)@, self@[cpsr_slot()], bit, letter@),
    {
        if test_bit(self.cpsr(), bit) {
            f.append(letter);
        }
    }

    /// Appends a label and the value of a register.
    fn write_register_line(&self, f: &mut String, label: &str, register: Register)
        ensures
            final(f)@ == register_line_text(old(f)@, label@, self@, register),
    {
        f.append(label);
        crate::instr::display::write_hex(f, self.get(register), 8);
    }

    /// The registers as text, for a person to read.
    pub fn describe(&self) -> (r: String)
        ensures
            r@ == describe_text(self@),
    {
        let mut f = String::new();
        f.append("Mode ");
        match self.mode() {
            Some(mode) => f.append(mode.name()),
            None => f.append("???"),
        }
        f.append("  Flags ");
        assert(f@ =~= "Mode "@ + (match mode_of_word(self@[cpsr_slot()]) {
            Some(mode) => mode.spec_name(),
            None => "???"@,
        }) + "  Flags "@);
        self.write_flag(&mut f, 31, "N");
        self.write_flag(&mut f, 30, "Z");
        self.write_flag(&mut f, 29, "C");
        self.write_flag(&mut f, 28, "V");
        self.write_flag(&mut f, 7, "I");
        self.write_flag(&mut f, 6, "F");
        self.write_flag(&mut f, 5, "T");
        self.write_register_line(&mut f, "\nR0  ", Register::R0);
        self.write_register_line(&mut f, "  R1  ", Register::R1);
        self.write_register_line(&mut f, "  R2  ", Register::R2);
        self.write_register_line(&mut f, "  R3  ", Register::R3);
        self.write_register_line(&mut f, "\nR4  ", Register::R4);
        self.write_register_line(&mut f, "  R5  ", Register::R5);
        self.write_register_line(&mut f, "  R6  ", Register::R6);
        self.write_register_line(&mut f, "  R7  ", Register::R7);
        self.write_register_line(&mut f, "\nR8  ", Register::R8);
        self.write_register_line(&mut f, "  R9  ", Register::R9);
        self.write_register_line(&mut f, "  R10 ", Register::R10);
        self.write_register_line(&mut f, "  R11 ", Register::R11);
        self.write_register_line(&mut f, "\nR12 ", Register::R12);
        self.write_register_line(&mut f, "  SP  ", Register::R13);
        self.write_register_line(&mut f, "  LR  ", Register::R14);
        self.write_register_line(&mut f, "  PC  ", Register::R15);
        f
    }
}

/// `value` with bit `bit` set or cleared.
pub fn set_bit(value: u32, bit: u32, set: bool) -> (r: u32)
    requires
        bit < 32,
    ensures
        r == with_bit(value, bit, set),
{
    crate::instr::bits::set_bit(value, bit, set)
}

} // verus!
