//! The ARM7TDMI register file: sixteen general-purpose registers with
//! mode-banked shadows, the CPSR status register and the five saved SPSRs,
//! together with the operation modes, condition codes and flag operations.

use vstd::prelude::*;

verus! {

/// All of the operation modes that are available to the processor.
/// The CPSR encodes the mode in its low five bits.
#[allow(non_camel_case_types)]
#[derive(Copy, Clone, Debug, PartialEq, Eq, Structural)]
pub enum OperationModes {
    /// Normal execution (0b10000)
    USR,
    /// Fast interrupt (0b10001)
    FIQ,
    /// Interrupt (0b10010)
    IRQ,
    /// Service/supervisor (0b10011)
    SVC,
    /// System operation, entered only from another privileged mode (0b11111)
    SYS,
    /// Abort (0b10111)
    ABT,
    /// Undefined, entered from invalid opcodes (0b11011)
    UND,
}

/// The register names available to the processor. Reads and writes through
/// these names resolve to the banked shadow of the current operation mode
/// (`r14` maps to `r14_irq` while in IRQ mode, and so on).
#[allow(non_camel_case_types)]
#[derive(Copy, Clone, Debug, PartialEq, Eq, Structural)]
pub enum RegisterNames {
    r0,
    r1,
    r2,
    r3,
    r4,
    r5,
    r6,
    r7,
    r8,
    r9,
    r10,
    r11,
    r12,
    r13,
    r14,
    r15,
    cpsr,
    spsr,
}

/// The 4-bit condition code that prefixes every 32-bit ARM instruction and
/// gates its execution against the NZCV flags.
#[derive(Copy, Clone, Debug, PartialEq, Eq, Structural)]
pub enum ConditionCodes {
    /// Equal - executes if Z is set
    EQ,
    /// Not equal - executes if Z is clear
    NE,
    /// Carry set/unsigned higher or same - executes if C is set
    CS,
    /// Carry clear/unsigned lower - executes if C is clear
    CC,
    /// Minus/negative - executes if N is set
    MI,
    /// Plus/positive or zero - executes if N is clear
    PL,
    /// Overflow set - executes if V is set
    VS,
    /// Overflow clear - executes if V is clear
    VC,
    /// Unsigned higher - C set and Z clear
    HI,
    /// Unsigned lower or same - C clear or Z set
    LS,
    /// Signed greater than or equal - N equals V
    GE,
    /// Signed less than - N differs from V
    LT,
    /// Signed greater than - Z clear and N equals V
    GT,
    /// Signed less than or equal - Z set or N differs from V
    LE,
    /// Always
    AL,
    /// Architecturally unpredictable; treated as always for determinism
    NO,
}

/// The CPSR bit that masks interrupt requests.
pub const IRQ_DISABLE: u32 = 0x80;
/// The CPSR bit that masks fast interrupt requests.
pub const FIQ_DISABLE: u32 = 0x40;
/// The CPSR bit that selects the Thumb instruction set.
pub const THUMB_BIT: u32 = 0x20;

/// The five-bit encodings of the seven valid operation modes.
pub open spec fn spec_mode_bits(m: OperationModes) -> u32 {
    match m {
        OperationModes::USR => 0x10,
        OperationModes::FIQ => 0x11,
        OperationModes::IRQ => 0x12,
        OperationModes::SVC => 0x13,
        OperationModes::SYS => 0x1f,
        OperationModes::ABT => 0x17,
        OperationModes::UND => 0x1b,
    }
}

/// Whether a five-bit field holds one of the seven valid mode encodings.
pub open spec fn valid_mode_bits(b: u32) -> bool {
    b == 0x10 || b == 0x11 || b == 0x12 || b == 0x13 || b == 0x17 || b == 0x1b || b == 0x1f
}

/// The mode named by a five-bit field, if any.
pub open spec fn spec_mode_from_bits(b: u32) -> Option<OperationModes> {
    if b == 0x10 {
        Some(OperationModes::USR)
    } else if b == 0x11 {
        Some(OperationModes::FIQ)
    } else if b == 0x12 {
        Some(OperationModes::IRQ)
    } else if b == 0x13 {
        Some(OperationModes::SVC)
    } else if b == 0x17 {
        Some(OperationModes::ABT)
    } else if b == 0x1b {
        Some(OperationModes::UND)
    } else if b == 0x1f {
        Some(OperationModes::SYS)
    } else {
        None
    }
}

impl RegisterNames {
    /// Whether the name refers to one of the sixteen general-purpose
    /// registers, rather than a status register.
    pub open spec fn spec_is_gp(self) -> bool {
        self != RegisterNames::cpsr && self != RegisterNames::spsr
    }

    /// Whether the name refers to one of the sixteen general-purpose
    /// registers, rather than a status register.
    pub fn is_gp(&self) -> (r: bool)
        ensures
            r == self.spec_is_gp(),
    {
        *self != RegisterNames::cpsr && *self != RegisterNames::spsr
    }
}

/// The registers contained within the ARM7TDMI processor: the sixteen
/// general-purpose registers with their banked shadows, the current program
/// status register, and the saved program status registers of the five
/// privileged exception modes.
///
/// CPSR layout: N at bit 31, Z at 30, C at 29, V at 28, bits 27..8 reserved,
/// IRQ disable at 7, FIQ disable at 6, Thumb at 5, and the mode at 4..0.
pub struct RegisterSet {
    pub r0: u32,
    pub r1: u32,
    pub r2: u32,
    pub r3: u32,
    pub r4: u32,
    pub r5: u32,
    pub r6: u32,
    pub r7: u32,
    pub r8: u32,
    pub r8_fiq: u32,
    pub r9: u32,
    pub r9_fiq: u32,
    pub r10: u32,
    pub r10_fiq: u32,
    pub r11: u32,
    pub r11_fiq: u32,
    pub r12: u32,
    pub r12_fiq: u32,
    /// Stack pointer by convention (`sp` in Thumb), with one shadow per
    /// privileged mode.
    pub r13: u32,
    pub r13_fiq: u32,
    pub r13_svc: u32,
    pub r13_abt: u32,
    pub r13_irq: u32,
    pub r13_und: u32,
    /// Link register (`lr` in Thumb): the address to return to once a
    /// subroutine or exception handler completes.
    pub r14: u32,
    pub r14_fiq: u32,
    pub r14_svc: u32,
    pub r14_abt: u32,
    pub r14_irq: u32,
    pub r14_und: u32,
    /// Program counter (`pc` in Thumb).
    pub r15: u32,
    /// Current program status register.
    pub cpsr: u32,
    pub spsr_fiq: u32,
    pub spsr_svc: u32,
    pub spsr_abt: u32,
    pub spsr_irq: u32,
    pub spsr_und: u32,
}

impl RegisterSet {
    /// Well-formedness: the low five bits of CPSR always name one of the
    /// seven valid operation modes.
    pub open spec fn wf(self) -> bool {
        valid_mode_bits(self.cpsr & 0x1f)
    }

    /// The current operation mode, as an `Option` mirroring the five-bit
    /// decode.
    pub open spec fn spec_mode_opt(self) -> Option<OperationModes> {
        spec_mode_from_bits(self.cpsr & 0x1f)
    }

    /// The current operation mode. Meaningful under `wf`; defaults to SYS
    /// on an invalid encoding so that the function is total.
    pub open spec fn spec_mode(self) -> OperationModes {
        match spec_mode_from_bits(self.cpsr & 0x1f) {
            Some(m) => m,
            None => OperationModes::SYS,
        }
    }

    /// Whether the current mode has a saved program status register.
    /// USR and SYS do not.
    pub open spec fn spec_has_spsr(self) -> bool {
        self.spec_mode() != OperationModes::USR && self.spec_mode() != OperationModes::SYS
    }

    /// The value a read of `name` resolves to: banked shadows are selected
    /// by the current operation mode.
    pub open spec fn spec_reg(self, name: RegisterNames) -> u32 {
        let mode = self.spec_mode();
        match name {
            RegisterNames::r0 => self.r0,
            RegisterNames::r1 => self.r1,
            RegisterNames::r2 => self.r2,
            RegisterNames::r3 => self.r3,
            RegisterNames::r4 => self.r4,
            RegisterNames::r5 => self.r5,
            RegisterNames::r6 => self.r6,
            RegisterNames::r7 => self.r7,
            RegisterNames::r8 => if mode == OperationModes::FIQ { self.r8_fiq } else { self.r8 },
            RegisterNames::r9 => if mode == OperationModes::FIQ { self.r9_fiq } else { self.r9 },
            RegisterNames::r10 => if mode == OperationModes::FIQ { self.r10_fiq } else { self.r10 },
            RegisterNames::r11 => if mode == OperationModes::FIQ { self.r11_fiq } else { self.r11 },
            RegisterNames::r12 => if mode == OperationModes::FIQ { self.r12_fiq } else { self.r12 },
            RegisterNames::r13 => match mode {
                OperationModes::FIQ => self.r13_fiq,
                OperationModes::SVC => self.r13_svc,
                OperationModes::ABT => self.r13_abt,
                OperationModes::IRQ => self.r13_irq,
                OperationModes::UND => self.r13_und,
                _ => self.r13,
            },
            RegisterNames::r14 => match mode {
                OperationModes::FIQ => self.r14_fiq,
                OperationModes::SVC => self.r14_svc,
                OperationModes::ABT => self.r14_abt,
                OperationModes::IRQ => self.r14_irq,
                OperationModes::UND => self.r14_und,
                _ => self.r14,
            },
            RegisterNames::r15 => self.r15,
            RegisterNames::cpsr => self.cpsr,
            RegisterNames::spsr => match mode {
                OperationModes::FIQ => self.spsr_fiq,
                OperationModes::SVC => self.spsr_svc,
                OperationModes::ABT => self.spsr_abt,
                OperationModes::IRQ => self.spsr_irq,
                OperationModes::UND => self.spsr_und,
                _ => 0,
            },
        }
    }

    /// The register file after a write of `value` to `name`, resolved
    /// through the banking of the current operation mode.
    pub open spec fn spec_set(self, name: RegisterNames, value: u32) -> RegisterSet {
        let mode = self.spec_mode();
        match name {
            RegisterNames::r0 => RegisterSet { r0: value, ..self },
            RegisterNames::r1 => RegisterSet { r1: value, ..self },
            RegisterNames::r2 => RegisterSet { r2: value, ..self },
            RegisterNames::r3 => RegisterSet { r3: value, ..self },
            RegisterNames::r4 => RegisterSet { r4: value, ..self },
            RegisterNames::r5 => RegisterSet { r5: value, ..self },
            RegisterNames::r6 => RegisterSet { r6: value, ..self },
            RegisterNames::r7 => RegisterSet { r7: value, ..self },
            RegisterNames::r8 => if mode == OperationModes::FIQ {
                RegisterSet { r8_fiq: value, ..self }
            } else {
                RegisterSet { r8: value, ..self }
            },
            RegisterNames::r9 => if mode == OperationModes::FIQ {
                RegisterSet { r9_fiq: value, ..self }
            } else {
                RegisterSet { r9: value, ..self }
            },
            RegisterNames::r10 => if mode == OperationModes::FIQ {
                RegisterSet { r10_fiq: value, ..self }
            } else {
                RegisterSet { r10: value, ..self }
            },
            RegisterNames::r11 => if mode == OperationModes::FIQ {
                RegisterSet { r11_fiq: value, ..self }
            } else {
                RegisterSet { r11: value, ..self }
            },
            RegisterNames::r12 => if mode == OperationModes::FIQ {
                RegisterSet { r12_fiq: value, ..self }
            } else {
                RegisterSet { r12: value, ..self }
            },
            RegisterNames::r13 => match mode {
                OperationModes::FIQ => RegisterSet { r13_fiq: value, ..self },
                OperationModes::SVC => RegisterSet { r13_svc: value, ..self },
                OperationModes::ABT => RegisterSet { r13_abt: value, ..self },
                OperationModes::IRQ => RegisterSet { r13_irq: value, ..self },
                OperationModes::UND => RegisterSet { r13_und: value, ..self },
                _ => RegisterSet { r13: value, ..self },
            },
            RegisterNames::r14 => match mode {
                OperationModes::FIQ => RegisterSet { r14_fiq: value, ..self },
                OperationModes::SVC => RegisterSet { r14_svc: value, ..self },
                OperationModes::ABT => RegisterSet { r14_abt: value, ..self },
                OperationModes::IRQ => RegisterSet { r14_irq: value, ..self },
                OperationModes::UND => RegisterSet { r14_und: value, ..self },
                _ => RegisterSet { r14: value, ..self },
            },
            RegisterNames::r15 => RegisterSet { r15: value, ..self },
            RegisterNames::cpsr => RegisterSet { cpsr: value, ..self },
            RegisterNames::spsr => match mode {
                OperationModes::FIQ => RegisterSet { spsr_fiq: value, ..self },
                OperationModes::SVC => RegisterSet { spsr_svc: value, ..self },
                OperationModes::ABT => RegisterSet { spsr_abt: value, ..self },
                OperationModes::IRQ => RegisterSet { spsr_irq: value, ..self },
                OperationModes::UND => RegisterSet { spsr_und: value, ..self },
                _ => self,
            },
        }
    }

    /// The N (negative) flag: CPSR bit 31.
    pub open spec fn spec_n(self) -> bool {
        (self.cpsr >> 31) & 1 > 0
    }

    /// The Z (zero) flag: CPSR bit 30.
    pub open spec fn spec_z(self) -> bool {
        (self.cpsr >> 30) & 1 > 0
    }

    /// The C (carry) flag: CPSR bit 29.
    pub open spec fn spec_c(self) -> bool {
        (self.cpsr >> 29) & 1 > 0
    }

    /// The V (overflow) flag: CPSR bit 28.
    pub open spec fn spec_v(self) -> bool {
        (self.cpsr >> 28) & 1 > 0
    }

    /// The predicate a condition code evaluates to over the NZCV flags.
    pub open spec fn spec_check_condition(self, cond: ConditionCodes) -> bool {
        match cond {
            ConditionCodes::EQ => self.spec_z(),
            ConditionCodes::NE => !self.spec_z(),
            ConditionCodes::CS => self.spec_c(),
            ConditionCodes::CC => !self.spec_c(),
            ConditionCodes::MI => self.spec_n(),
            ConditionCodes::PL => !self.spec_n(),
            ConditionCodes::VS => self.spec_v(),
            ConditionCodes::VC => !self.spec_v(),
            ConditionCodes::HI => self.spec_c() && !self.spec_z(),
            ConditionCodes::LS => !self.spec_c() || self.spec_z(),
            ConditionCodes::GE => self.spec_n() == self.spec_v(),
            ConditionCodes::LT => self.spec_n() != self.spec_v(),
            ConditionCodes::GT => !self.spec_z() && (self.spec_n() == self.spec_v()),
            ConditionCodes::LE => self.spec_z() || (self.spec_n() != self.spec_v()),
            ConditionCodes::AL => true,
            ConditionCodes::NO => true,
        }
    }

    /// The register file with the CPSR replaced and every other slot kept.
    pub open spec fn spec_with_cpsr(self, value: u32) -> RegisterSet {
        RegisterSet { cpsr: value, ..self }
    }

    /// A register file in the state reached by reset: every slot zero, the
    /// mode SYS, both interrupt classes masked, and the Thumb bit clear.
    pub fn new() -> (r: RegisterSet)
        ensures
            r.cpsr == 0xdfu32,
            r.r0 == 0 && r.r1 == 0 && r.r2 == 0 && r.r3 == 0,
            r.r4 == 0 && r.r5 == 0 && r.r6 == 0 && r.r7 == 0,
            r.r8 == 0 && r.r9 == 0 && r.r10 == 0 && r.r11 == 0 && r.r12 == 0,
            r.r8_fiq == 0 && r.r9_fiq == 0 && r.r10_fiq == 0 && r.r11_fiq == 0 && r.r12_fiq == 0,
            r.r13 == 0 && r.r13_fiq == 0 && r.r13_svc == 0 && r.r13_abt == 0 && r.r13_irq == 0
                && r.r13_und == 0,
            r.r14 == 0 && r.r14_fiq == 0 && r.r14_svc == 0 && r.r14_abt == 0 && r.r14_irq == 0
                && r.r14_und == 0,
            r.r15 == 0,
            r.spsr_fiq == 0 && r.spsr_svc == 0 && r.spsr_abt == 0 && r.spsr_irq == 0
                && r.spsr_und == 0,
            r.wf(),
            r.spec_mode() == OperationModes::SYS,
    {
        let r = RegisterSet {
            r0: 0,
            r1: 0,
            r2: 0,
            r3: 0,
            r4: 0,
            r5: 0,
            r6: 0,
            r7: 0,
            r8: 0,
            r8_fiq: 0,
            r9: 0,
            r9_fiq: 0,
            r10: 0,
            r10_fiq: 0,
            r11: 0,
            r11_fiq: 0,
            r12: 0,
            r12_fiq: 0,
            r13: 0,
            r13_fiq: 0,
            r13_svc: 0,
            r13_abt: 0,
            r13_irq: 0,
            r13_und: 0,
            r14: 0,
            r14_fiq: 0,
            r14_svc: 0,
            r14_abt: 0,
            r14_irq: 0,
            r14_und: 0,
            r15: 0,
            cpsr: 0xdf,
            spsr_fiq: 0,
            spsr_svc: 0,
            spsr_abt: 0,
            spsr_irq: 0,
            spsr_und: 0,
        };
        proof {
            assert(0xdfu32 & 0x1f == 0x1f) by (bit_vector);
        }
        r
    }

    /// Read a register, resolving banking by the current mode. Reading the
    /// SPSR is only allowed in a mode that has one.
    pub fn get_value(&self, name: RegisterNames) -> (r: u32)
        requires
            self.wf(),
            name == RegisterNames::spsr ==> self.spec_has_spsr(),
        ensures
            r == self.spec_reg(name),
    {
        let mode = match self.get_operation_mode() {
            Some(m) => m,
            None => OperationModes::SYS,
        };

        match (name, mode) {
            (RegisterNames::r0, _) => self.r0,
            (RegisterNames::r1, _) => self.r1,
            (RegisterNames::r2, _) => self.r2,
            (RegisterNames::r3, _) => self.r3,
            (RegisterNames::r4, _) => self.r4,
            (RegisterNames::r5, _) => self.r5,
            (RegisterNames::r6, _) => self.r6,
            (RegisterNames::r7, _) => self.r7,
            (RegisterNames::r8, OperationModes::FIQ) => self.r8_fiq,
            (RegisterNames::r8, _) => self.r8,
            (RegisterNames::r9, OperationModes::FIQ) => self.r9_fiq,
            (RegisterNames::r9, _) => self.r9,
            (RegisterNames::r10, OperationModes::FIQ) => self.r10_fiq,
            (RegisterNames::r10, _) => self.r10,
            (RegisterNames::r11, OperationModes::FIQ) => self.r11_fiq,
            (RegisterNames::r11, _) => self.r11,
            (RegisterNames::r12, OperationModes::FIQ) => self.r12_fiq,
            (RegisterNames::r12, _) => self.r12,
            (RegisterNames::r13, OperationModes::FIQ) => self.r13_fiq,
            (RegisterNames::r13, OperationModes::SVC) => self.r13_svc,
            (RegisterNames::r13, OperationModes::ABT) => self.r13_abt,
            (RegisterNames::r13, OperationModes::IRQ) => self.r13_irq,
            (RegisterNames::r13, OperationModes::UND) => self.r13_und,
            (RegisterNames::r13, _) => self.r13,
            (RegisterNames::r14, OperationModes::FIQ) => self.r14_fiq,
            (RegisterNames::r14, OperationModes::SVC) => self.r14_svc,
            (RegisterNames::r14, OperationModes::ABT) => self.r14_abt,
            (RegisterNames::r14, OperationModes::IRQ) => self.r14_irq,
            (RegisterNames::r14, OperationModes::UND) => self.r14_und,
            (RegisterNames::r14, _) => self.r14,
            (RegisterNames::r15, _) => self.r15,
            (RegisterNames::cpsr, _) => self.cpsr,
            (RegisterNames::spsr, OperationModes::FIQ) => self.spsr_fiq,
            (RegisterNames::spsr, OperationModes::SVC) => self.spsr_svc,
            (RegisterNames::spsr, OperationModes::ABT) => self.spsr_abt,
            (RegisterNames::spsr, OperationModes::IRQ) => self.spsr_irq,
            (RegisterNames::spsr, OperationModes::UND) => self.spsr_und,
            (RegisterNames::spsr, _) => 0,
        }
    }

    /// Write a register, resolving banking by the current mode. Writing the
    /// SPSR is only allowed in a mode that has one; a CPSR write must carry
    /// a valid mode in its low five bits.
    pub fn set_value(&mut self, name: RegisterNames, value: u32)
        requires
            old(self).wf(),
            name == RegisterNames::spsr ==> old(self).spec_has_spsr(),
            name == RegisterNames::cpsr ==> valid_mode_bits(value & 0x1f),
        ensures
            *final(self) == old(self).spec_set(name, value),
            final(self).wf(),
    {
        let mode = match self.get_operation_mode() {
            Some(m) => m,
            None => OperationModes::SYS,
        };

        match (name, mode) {
            (RegisterNames::r0, _) => self.r0 = value,
            (RegisterNames::r1, _) => self.r1 = value,
            (RegisterNames::r2, _) => self.r2 = value,
            (RegisterNames::r3, _) => self.r3 = value,
            (RegisterNames::r4, _) => self.r4 = value,
            (RegisterNames::r5, _) => self.r5 = value,
            (RegisterNames::r6, _) => self.r6 = value,
            (RegisterNames::r7, _) => self.r7 = value,
            (RegisterNames::r8, OperationModes::FIQ) => self.r8_fiq = value,
            (RegisterNames::r8, _) => self.r8 = value,
            (RegisterNames::r9, OperationModes::FIQ) => self.r9_fiq = value,
            (RegisterNames::r9, _) => self.r9 = value,
            (RegisterNames::r10, OperationModes::FIQ) => self.r10_fiq = value,
            (RegisterNames::r10, _) => self.r10 = value,
            (RegisterNames::r11, OperationModes::FIQ) => self.r11_fiq = value,
            (RegisterNames::r11, _) => self.r11 = value,
            (RegisterNames::r12, OperationModes::FIQ) => self.r12_fiq = value,
            (RegisterNames::r12, _) => self.r12 = value,
            (RegisterNames::r13, OperationModes::FIQ) => self.r13_fiq = value,
            (RegisterNames::r13, OperationModes::SVC) => self.r13_svc = value,
            (RegisterNames::r13, OperationModes::ABT) => self.r13_abt = value,
            (RegisterNames::r13, OperationModes::IRQ) => self.r13_irq = value,
            (RegisterNames::r13, OperationModes::UND) => self.r13_und = value,
            (RegisterNames::r13, _) => self.r13 = value,
            (RegisterNames::r14, OperationModes::FIQ) => self.r14_fiq = value,
            (RegisterNames::r14, OperationModes::SVC) => self.r14_svc = value,
            (RegisterNames::r14, OperationModes::ABT) => self.r14_abt = value,
            (RegisterNames::r14, OperationModes::IRQ) => self.r14_irq = value,
            (RegisterNames::r14, OperationModes::UND) => self.r14_und = value,
            (RegisterNames::r14, _) => self.r14 = value,
            (RegisterNames::r15, _) => self.r15 = value,
            (RegisterNames::cpsr, _) => self.cpsr = value,
            (RegisterNames::spsr, OperationModes::FIQ) => self.spsr_fiq = value,
            (RegisterNames::spsr, OperationModes::SVC) => self.spsr_svc = value,
            (RegisterNames::spsr, OperationModes::ABT) => self.spsr_abt = value,
            (RegisterNames::spsr, OperationModes::IRQ) => self.spsr_irq = value,
            (RegisterNames::spsr, OperationModes::UND) => self.spsr_und = value,
            (RegisterNames::spsr, _) => (),
        }
    }

    /// The value a read of `name` resolves to in the user bank: the
    /// unbanked slots, regardless of the current operation mode. This is
    /// the view the `^` variants of the multiple transfers use.
    pub open spec fn spec_reg_user(self, name: RegisterNames) -> u32 {
        match name {
            RegisterNames::r0 => self.r0,
            RegisterNames::r1 => self.r1,
            RegisterNames::r2 => self.r2,
            RegisterNames::r3 => self.r3,
            RegisterNames::r4 => self.r4,
            RegisterNames::r5 => self.r5,
            RegisterNames::r6 => self.r6,
            RegisterNames::r7 => self.r7,
            RegisterNames::r8 => self.r8,
            RegisterNames::r9 => self.r9,
            RegisterNames::r10 => self.r10,
            RegisterNames::r11 => self.r11,
            RegisterNames::r12 => self.r12,
            RegisterNames::r13 => self.r13,
            RegisterNames::r14 => self.r14,
            RegisterNames::r15 => self.r15,
            RegisterNames::cpsr => self.cpsr,
            RegisterNames::spsr => 0,
        }
    }

    /// The register file after a write of `value` to the user bank of
    /// `name`: the unbanked slot, regardless of the current mode.
    pub open spec fn spec_set_user(self, name: RegisterNames, value: u32) -> RegisterSet {
        match name {
            RegisterNames::r0 => RegisterSet { r0: value, ..self },
            RegisterNames::r1 => RegisterSet { r1: value, ..self },
            RegisterNames::r2 => RegisterSet { r2: value, ..self },
            RegisterNames::r3 => RegisterSet { r3: value, ..self },
            RegisterNames::r4 => RegisterSet { r4: value, ..self },
            RegisterNames::r5 => RegisterSet { r5: value, ..self },
            RegisterNames::r6 => RegisterSet { r6: value, ..self },
            RegisterNames::r7 => RegisterSet { r7: value, ..self },
            RegisterNames::r8 => RegisterSet { r8: value, ..self },
            RegisterNames::r9 => RegisterSet { r9: value, ..self },
            RegisterNames::r10 => RegisterSet { r10: value, ..self },
            RegisterNames::r11 => RegisterSet { r11: value, ..self },
            RegisterNames::r12 => RegisterSet { r12: value, ..self },
            RegisterNames::r13 => RegisterSet { r13: value, ..self },
            RegisterNames::r14 => RegisterSet { r14: value, ..self },
            RegisterNames::r15 => RegisterSet { r15: value, ..self },
            RegisterNames::cpsr => self,
            RegisterNames::spsr => self,
        }
    }

    /// Read a general-purpose register from the user bank, regardless of
    /// the current operation mode.
    pub fn get_user_value(&self, name: RegisterNames) -> (r: u32)
        requires
            name.spec_is_gp(),
        ensures
            r == self.spec_reg_user(name),
    {
        match name {
            RegisterNames::r0 => self.r0,
            RegisterNames::r1 => self.r1,
            RegisterNames::r2 => self.r2,
            RegisterNames::r3 => self.r3,
            RegisterNames::r4 => self.r4,
            RegisterNames::r5 => self.r5,
            RegisterNames::r6 => self.r6,
            RegisterNames::r7 => self.r7,
            RegisterNames::r8 => self.r8,
            RegisterNames::r9 => self.r9,
            RegisterNames::r10 => self.r10,
            RegisterNames::r11 => self.r11,
            RegisterNames::r12 => self.r12,
            RegisterNames::r13 => self.r13,
            RegisterNames::r14 => self.r14,
            RegisterNames::r15 => self.r15,
            RegisterNames::cpsr => self.cpsr,
            RegisterNames::spsr => 0,
        }
    }

    /// Write a general-purpose register in the user bank, regardless of
    /// the current operation mode.
    pub fn set_user_value(&mut self, name: RegisterNames, value: u32)
        requires
            name.spec_is_gp(),
        ensures
            *final(self) == old(self).spec_set_user(name, value),
            final(self).cpsr == old(self).cpsr,
    {
        match name {
            RegisterNames::r0 => self.r0 = value,
            RegisterNames::r1 => self.r1 = value,
            RegisterNames::r2 => self.r2 = value,
            RegisterNames::r3 => self.r3 = value,
            RegisterNames::r4 => self.r4 = value,
            RegisterNames::r5 => self.r5 = value,
            RegisterNames::r6 => self.r6 = value,
            RegisterNames::r7 => self.r7 = value,
            RegisterNames::r8 => self.r8 = value,
            RegisterNames::r9 => self.r9 = value,
            RegisterNames::r10 => self.r10 = value,
            RegisterNames::r11 => self.r11 = value,
            RegisterNames::r12 => self.r12 = value,
            RegisterNames::r13 => self.r13 = value,
            RegisterNames::r14 => self.r14 = value,
            RegisterNames::r15 => self.r15 = value,
            RegisterNames::cpsr => (),
            RegisterNames::spsr => (),
        }
    }

    /// Replace a general-purpose register with a function of its value.
    pub fn map_value<F: FnOnce(u32) -> u32>(&mut self, name: RegisterNames, map: F)
        requires
            old(self).wf(),
            name.spec_is_gp(),
            call_requires(map, (old(self).spec_reg(name),)),
        ensures
            final(self).wf(),
            exists|mapped: u32|
                #[trigger] call_ensures(map, (old(self).spec_reg(name),), mapped) && *final(self)
                    == old(self).spec_set(name, mapped),
    {
        let prev = self.get_value(name);
        let next = map(prev);
        self.set_value(name, next);
    }

    /// The N (negative) flag.
    pub fn get_n(&self) -> (r: bool)
        ensures
            r == self.spec_n(),
    {
        (self.cpsr >> 31) & 1 > 0
    }

    /// The Z (zero) flag.
    pub fn get_z(&self) -> (r: bool)
        ensures
            r == self.spec_z(),
    {
        (self.cpsr >> 30) & 1 > 0
    }

    /// The C (carry) flag.
    pub fn get_c(&self) -> (r: bool)
        ensures
            r == self.spec_c(),
    {
        (self.cpsr >> 29) & 1 > 0
    }

    /// The V (overflow) flag.
    pub fn get_v(&self) -> (r: bool)
        ensures
            r == self.spec_v(),
    {
        (self.cpsr >> 28) & 1 > 0
    }

    /// Set the four NZCV flags at once. Only CPSR bits 31..28 change; every
    /// other CPSR bit and every other register is untouched.
    pub fn set_nzcv(&mut self, n: bool, z: bool, c: bool, v: bool)
        requires
            old(self).wf(),
        ensures
            *final(self) == old(self).spec_with_cpsr(
                (old(self).cpsr & 0x0fff_ffff) | (spec_nzcv_bits(n, z, c, v) << 28),
            ),
            final(self).cpsr & 0x0fff_ffff == old(self).cpsr & 0x0fff_ffff,
            final(self).spec_n() == n,
            final(self).spec_z() == z,
            final(self).spec_c() == c,
            final(self).spec_v() == v,
            final(self).spec_mode() == old(self).spec_mode(),
            final(self).wf(),
    {
        let mut flags: u32 = 0;

        if n {
            flags += 0x8;
        }
        if z {
            flags += 0x4;
        }
        if c {
            flags += 0x2;
        }
        if v {
            flags += 0x1;
        }

        proof {
            lemma_nzcv_update(self.cpsr, n, z, c, v);
        }

        self.cpsr = (self.cpsr & 0x0fff_ffff) | (flags << 28);
    }

    /// Mask or unmask fast interrupts (CPSR bit 6).
    pub fn set_fiq_disable(&mut self, disabled: bool)
        requires
            old(self).wf(),
        ensures
            *final(self) == old(self).spec_with_cpsr(
                if disabled {
                    old(self).cpsr | FIQ_DISABLE
                } else {
                    old(self).cpsr & !FIQ_DISABLE
                },
            ),
            final(self).spec_mode() == old(self).spec_mode(),
            final(self).wf(),
    {
        proof {
            lemma_bit_update_preserves_mode(self.cpsr, FIQ_DISABLE);
        }
        if disabled {
            self.cpsr |= FIQ_DISABLE;
        } else {
            self.cpsr &= !FIQ_DISABLE;
        }
    }

    /// Whether fast interrupts are masked.
    pub fn is_fiq_disabled(&self) -> (r: bool)
        ensures
            r == ((self.cpsr & FIQ_DISABLE) > 0),
    {
        (self.cpsr & FIQ_DISABLE) > 0
    }

    /// Mask or unmask interrupts (CPSR bit 7).
    pub fn set_irq_disable(&mut self, disabled: bool)
        requires
            old(self).wf(),
        ensures
            *final(self) == old(self).spec_with_cpsr(
                if disabled {
                    old(self).cpsr | IRQ_DISABLE
                } else {
                    old(self).cpsr & !IRQ_DISABLE
                },
            ),
            final(self).spec_mode() == old(self).spec_mode(),
            final(self).wf(),
    {
        proof {
            lemma_bit_update_preserves_mode(self.cpsr, IRQ_DISABLE);
        }
        if disabled {
            self.cpsr |= IRQ_DISABLE;
        } else {
            self.cpsr &= !IRQ_DISABLE;
        }
    }

    /// Whether interrupts are masked.
    pub fn is_irq_disabled(&self) -> (r: bool)
        ensures
            r == ((self.cpsr & IRQ_DISABLE) > 0),
    {
        (self.cpsr & IRQ_DISABLE) > 0
    }

    /// Select the Thumb (16-bit) or ARM (32-bit) instruction set
    /// (CPSR bit 5).
    pub fn set_thumb_bit(&mut self, thumb: bool)
        requires
            old(self).wf(),
        ensures
            *final(self) == old(self).spec_with_cpsr(
                if thumb {
                    old(self).cpsr | THUMB_BIT
                } else {
                    old(self).cpsr & !THUMB_BIT
                },
            ),
            final(self).spec_mode() == old(self).spec_mode(),
            final(self).wf(),
    {
        proof {
            lemma_bit_update_preserves_mode(self.cpsr, THUMB_BIT);
        }
        if thumb {
            self.cpsr |= THUMB_BIT;
        } else {
            self.cpsr &= !THUMB_BIT;
        }
    }

    /// Whether the Thumb instruction set is selected.
    pub fn get_thumb_bit(&self) -> (r: bool)
        ensures
            r == ((self.cpsr & THUMB_BIT) > 0),
    {
        (self.cpsr & THUMB_BIT) > 0
    }

    /// Switch the operation mode: only the low five bits of CPSR change.
    pub fn set_operation_mode(&mut self, mode: OperationModes)
        ensures
            *final(self) == old(self).spec_with_mode(mode),
            final(self).spec_mode() == mode,
            final(self).wf(),
    {
        let mode_flags: u32 = match mode {
            OperationModes::USR => 0x10,
            OperationModes::FIQ => 0x11,
            OperationModes::IRQ => 0x12,
            OperationModes::SVC => 0x13,
            OperationModes::SYS => 0x1f,
            OperationModes::ABT => 0x17,
            OperationModes::UND => 0x1b,
        };
        proof {
            lemma_mode_field_update(self.cpsr, mode_flags);
        }
        self.cpsr = (self.cpsr & 0xffff_ffe0) | mode_flags;
    }

    /// The register file after a switch to `mode`: the low five bits of
    /// CPSR replaced by the mode's encoding, everything else kept.
    pub open spec fn spec_with_mode(self, mode: OperationModes) -> RegisterSet {
        RegisterSet { cpsr: (self.cpsr & 0xffff_ffe0) | spec_mode_bits(mode), ..self }
    }

    /// The current operation mode, or `None` if the five-bit field of CPSR
    /// holds none of the seven valid encodings.
    pub fn get_operation_mode(&self) -> (r: Option<OperationModes>)
        ensures
            r == self.spec_mode_opt(),
            self.wf() ==> r == Some(self.spec_mode()),
    {
        let bits: u32 = self.cpsr & 0x1f;
        if bits == 0x10 {
            Some(OperationModes::USR)
        } else if bits == 0x11 {
            Some(OperationModes::FIQ)
        } else if bits == 0x12 {
            Some(OperationModes::IRQ)
        } else if bits == 0x13 {
            Some(OperationModes::SVC)
        } else if bits == 0x17 {
            Some(OperationModes::ABT)
        } else if bits == 0x1b {
            Some(OperationModes::UND)
        } else if bits == 0x1f {
            Some(OperationModes::SYS)
        } else {
            None
        }
    }

    /// Evaluate a condition code against the NZCV flags.
    pub fn check_condition(&self, cond: ConditionCodes) -> (r: bool)
        ensures
            r == self.spec_check_condition(cond),
    {
        match cond {
            ConditionCodes::EQ => self.get_z(),
            ConditionCodes::NE => !self.get_z(),
            ConditionCodes::CS => self.get_c(),
            ConditionCodes::CC => !self.get_c(),
            ConditionCodes::MI => self.get_n(),
            ConditionCodes::PL => !self.get_n(),
            ConditionCodes::VS => self.get_v(),
            ConditionCodes::VC => !self.get_v(),
            ConditionCodes::HI => self.get_c() && !self.get_z(),
            ConditionCodes::LS => !self.get_c() || self.get_z(),
            ConditionCodes::GE => self.get_n() == self.get_v(),
            ConditionCodes::LT => self.get_n() != self.get_v(),
            ConditionCodes::GT => !self.get_z() && (self.get_n() == self.get_v()),
            ConditionCodes::LE => self.get_z() || (self.get_n() != self.get_v()),
            ConditionCodes::AL => true,
            ConditionCodes::NO => true,
        }
    }
}

/// The four NZCV flags packed into the low nibble: N at bit 3 down to V at
/// bit 0.
pub open spec fn spec_nzcv_bits(n: bool, z: bool, c: bool, v: bool) -> u32 {
    ((if n { 0x8u32 } else { 0u32 }) + (if z { 0x4u32 } else { 0u32 }) + (if c {
        0x2u32
    } else {
        0u32
    }) + (if v { 0x1u32 } else { 0u32 })) as u32
}

/// Replacing CPSR bits 31..28 with the packed flag nibble leaves the low 28
/// bits untouched and makes the four flags read back as given.
proof fn lemma_nzcv_update(x: u32, n: bool, z: bool, c: bool, v: bool)
    by (bit_vector)
    ensures
        ((x & 0x0fff_ffff) | (spec_nzcv_bits(n, z, c, v) << 28)) & 0x0fff_ffff == x & 0x0fff_ffff,
        ((x & 0x0fff_ffff) | (spec_nzcv_bits(n, z, c, v) << 28)) & 0x1f == x & 0x1f,
        ((((x & 0x0fff_ffff) | (spec_nzcv_bits(n, z, c, v) << 28)) >> 31) & 1 > 0) == n,
        ((((x & 0x0fff_ffff) | (spec_nzcv_bits(n, z, c, v) << 28)) >> 30) & 1 > 0) == z,
        ((((x & 0x0fff_ffff) | (spec_nzcv_bits(n, z, c, v) << 28)) >> 29) & 1 > 0) == c,
        ((((x & 0x0fff_ffff) | (spec_nzcv_bits(n, z, c, v) << 28)) >> 28) & 1 > 0) == v,
{
}

/// Setting or clearing one of the three control bits (7..5) leaves the mode
/// field untouched.
proof fn lemma_bit_update_preserves_mode(x: u32, b: u32)
    by (bit_vector)
    requires
        b == 0x80 || b == 0x40 || b == 0x20,
    ensures
        (x | b) & 0x1f == x & 0x1f,
        (x & !b) & 0x1f == x & 0x1f,
{
}

/// Replacing the low five bits of CPSR installs exactly the new mode field.
proof fn lemma_mode_field_update(x: u32, m: u32)
    by (bit_vector)
    requires
        m < 32,
    ensures
        ((x & 0xffff_ffe0) | m) & 0x1f == m,
{
}

/// Law: in a well-formed register file the low five bits of CPSR always name
/// one of the seven valid operation modes; every mutating operation of this
/// module keeps it so.
pub proof fn lemma_cpsr_mode_always_valid(rs: RegisterSet)
    requires
        rs.wf(),
    ensures
        valid_mode_bits(rs.cpsr & 0x1f),
        rs.spec_mode_opt() == Some(rs.spec_mode()),
{
}

/// The storage bank that a read or write of `r13`/`r14` resolves to in a
/// given mode. USR and SYS share the unbanked slot; each privileged
/// exception mode has a shadow of its own.
pub open spec fn spec_bank(mode: OperationModes) -> int {
    match mode {
        OperationModes::USR => 0,
        OperationModes::SYS => 0,
        OperationModes::FIQ => 1,
        OperationModes::SVC => 2,
        OperationModes::ABT => 3,
        OperationModes::IRQ => 4,
        OperationModes::UND => 5,
    }
}

/// The primary processor of the Game Boy Advance: the CPU used to run Game
/// Boy Advance games.
pub struct Arm7Tdmi {
    pub halt: bool,
    pub registers: RegisterSet,
}

/// The register file after a reset: the prior `r14` and CPSR are saved into
/// the SVC bank, the mode becomes SYS with both interrupt classes masked and
/// the Thumb bit clear, and the program counter is cleared.
pub open spec fn spec_reset(rs: RegisterSet) -> RegisterSet {
    RegisterSet {
        r14_svc: rs.r14,
        spsr_svc: rs.cpsr,
        cpsr: ((((rs.cpsr & 0xffff_ffe0) | 0x1f) | FIQ_DISABLE) | IRQ_DISABLE) & !THUMB_BIT,
        r15: 0,
        ..rs
    }
}

impl Arm7Tdmi {
    /// A freshly reset processor: not running, registers in the reset state.
    pub fn init() -> (r: Arm7Tdmi)
        ensures
            r.halt == true,
            r.registers.cpsr == 0xdfu32,
            r.registers.spsr_svc == 0xdfu32,
            r.registers.r0 == 0 && r.registers.r1 == 0 && r.registers.r2 == 0 && r.registers.r3
                == 0,
            r.registers.r4 == 0 && r.registers.r5 == 0 && r.registers.r6 == 0 && r.registers.r7
                == 0,
            r.registers.r8 == 0 && r.registers.r9 == 0 && r.registers.r10 == 0 && r.registers.r11
                == 0 && r.registers.r12 == 0,
            r.registers.r13 == 0 && r.registers.r13_svc == 0 && r.registers.r13_fiq == 0,
            r.registers.r14 == 0 && r.registers.r14_svc == 0,
            r.registers.r15 == 0,
            r.registers.wf(),
            r.registers.spec_mode() == OperationModes::SYS,
    {
        let mut cpu = Arm7Tdmi { halt: true, registers: RegisterSet::new() };

        cpu.reset();
        proof {
            assert(((((0xdfu32 & 0xffff_ffe0) | 0x1f) | 0x40u32) | 0x80u32) & !0x20u32 == 0xdfu32)
                by (bit_vector);
        }
        cpu
    }

    /// Reset the processor: save the prior `r14` and CPSR into the SVC bank,
    /// enter SYS mode with interrupts masked and the Thumb bit clear, and
    /// load the program counter with the reset vector.
    pub fn reset(&mut self)
        ensures
            final(self).halt == old(self).halt,
            final(self).registers == spec_reset(old(self).registers),
            final(self).registers.wf(),
            final(self).registers.spec_mode() == OperationModes::SYS,
    {
        // Strictly, the saved SVC-bank values are undefined after power-on;
        // saving the outgoing state is an operational convenience.
        self.registers.r14_svc = self.registers.r14;
        self.registers.spsr_svc = self.registers.cpsr;

        // Into SYS mode, with interrupts disabled and Thumb instruction
        // mode off.
        self.registers.set_operation_mode(OperationModes::SYS);
        self.registers.set_fiq_disable(true);
        self.registers.set_irq_disable(true);
        self.registers.set_thumb_bit(false);

        // Load the program counter from the reset vector.
        self.registers.set_value(RegisterNames::r15, 0);
    }

    /// Read a register, resolving banking by the current mode.
    pub fn get_register_value(&self, name: RegisterNames) -> (r: u32)
        requires
            self.registers.wf(),
            name == RegisterNames::spsr ==> self.registers.spec_has_spsr(),
        ensures
            r == self.registers.spec_reg(name),
    {
        self.registers.get_value(name)
    }

    /// Write a register, resolving banking by the current mode.
    pub fn set_register_value(&mut self, name: RegisterNames, value: u32)
        requires
            old(self).registers.wf(),
            name == RegisterNames::spsr ==> old(self).registers.spec_has_spsr(),
            name == RegisterNames::cpsr ==> valid_mode_bits(value & 0x1f),
        ensures
            final(self).halt == old(self).halt,
            final(self).registers == old(self).registers.spec_set(name, value),
            final(self).registers.wf(),
    {
        self.registers.set_value(name, value);
    }

    /// The N (negative) flag.
    pub fn get_n(&self) -> (r: bool)
        ensures
            r == self.registers.spec_n(),
    {
        self.registers.get_n()
    }

    /// The Z (zero) flag.
    pub fn get_z(&self) -> (r: bool)
        ensures
            r == self.registers.spec_z(),
    {
        self.registers.get_z()
    }

    /// The C (carry) flag.
    pub fn get_c(&self) -> (r: bool)
        ensures
            r == self.registers.spec_c(),
    {
        self.registers.get_c()
    }

    /// The V (overflow) flag.
    pub fn get_v(&self) -> (r: bool)
        ensures
            r == self.registers.spec_v(),
    {
        self.registers.get_v()
    }

    /// Set the four NZCV flags at once; only CPSR bits 31..28 change.
    pub fn set_nzcv(&mut self, n: bool, z: bool, c: bool, v: bool)
        requires
            old(self).registers.wf(),
        ensures
            final(self).halt == old(self).halt,
            final(self).registers == old(self).registers.spec_with_cpsr(
                (old(self).registers.cpsr & 0x0fff_ffff) | (spec_nzcv_bits(n, z, c, v) << 28),
            ),
            final(self).registers.cpsr & 0x0fff_ffff == old(self).registers.cpsr & 0x0fff_ffff,
            final(self).registers.spec_n() == n,
            final(self).registers.spec_z() == z,
            final(self).registers.spec_c() == c,
            final(self).registers.spec_v() == v,
            final(self).registers.spec_mode() == old(self).registers.spec_mode(),
            final(self).registers.wf(),
    {
        self.registers.set_nzcv(n, z, c, v);
    }

    /// Mask or unmask fast interrupts.
    pub fn set_fiq_disable(&mut self, disabled: bool)
        requires
            old(self).registers.wf(),
        ensures
            final(self).halt == old(self).halt,
            final(self).registers == old(self).registers.spec_with_cpsr(
                if disabled {
                    old(self).registers.cpsr | FIQ_DISABLE
                } else {
                    old(self).registers.cpsr & !FIQ_DISABLE
                },
            ),
            final(self).registers.spec_mode() == old(self).registers.spec_mode(),
            final(self).registers.wf(),
    {
        self.registers.set_fiq_disable(disabled);
    }

    /// Whether fast interrupts are masked.
    pub fn is_fiq_disabled(&self) -> (r: bool)
        ensures
            r == ((self.registers.cpsr & FIQ_DISABLE) > 0),
    {
        self.registers.is_fiq_disabled()
    }

    /// Mask or unmask interrupts.
    pub fn set_irq_disable(&mut self, disabled: bool)
        requires
            old(self).registers.wf(),
        ensures
            final(self).halt == old(self).halt,
            final(self).registers == old(self).registers.spec_with_cpsr(
                if disabled {
                    old(self).registers.cpsr | IRQ_DISABLE
                } else {
                    old(self).registers.cpsr & !IRQ_DISABLE
                },
            ),
            final(self).registers.spec_mode() == old(self).registers.spec_mode(),
            final(self).registers.wf(),
    {
        self.registers.set_irq_disable(disabled);
    }

    /// Whether interrupts are masked.
    pub fn is_irq_disabled(&self) -> (r: bool)
        ensures
            r == ((self.registers.cpsr & IRQ_DISABLE) > 0),
    {
        self.registers.is_irq_disabled()
    }

    /// Select the Thumb or ARM instruction set.
    pub fn set_thumb_bit(&mut self, thumb: bool)
        requires
            old(self).registers.wf(),
        ensures
            final(self).halt == old(self).halt,
            final(self).registers == old(self).registers.spec_with_cpsr(
                if thumb {
                    old(self).registers.cpsr | THUMB_BIT
                } else {
                    old(self).registers.cpsr & !THUMB_BIT
                },
            ),
            final(self).registers.spec_mode() == old(self).registers.spec_mode(),
            final(self).registers.wf(),
    {
        self.registers.set_thumb_bit(thumb);
    }

    /// Whether the Thumb instruction set is selected.
    pub fn get_thumb_bit(&self) -> (r: bool)
        ensures
            r == ((self.registers.cpsr & THUMB_BIT) > 0),
    {
        self.registers.get_thumb_bit()
    }

    /// Switch the operation mode: only the low five bits of CPSR change.
    pub fn set_operation_mode(&mut self, mode: OperationModes)
        ensures
            final(self).halt == old(self).halt,
            final(self).registers == old(self).registers.spec_with_mode(mode),
            final(self).registers.spec_mode() == mode,
            final(self).registers.wf(),
    {
        self.registers.set_operation_mode(mode);
    }

    /// The current operation mode, or `None` on an invalid encoding.
    pub fn get_operation_mode(&self) -> (r: Option<OperationModes>)
        ensures
            r == self.registers.spec_mode_opt(),
            self.registers.wf() ==> r == Some(self.registers.spec_mode()),
    {
        self.registers.get_operation_mode()
    }

    /// Whether the current mode has a saved program status register.
    pub fn current_mode_has_spsr(&self) -> (r: bool)
        requires
            self.registers.wf(),
        ensures
            r == self.registers.spec_has_spsr(),
    {
        let current_mode = match self.get_operation_mode() {
            Some(m) => m,
            None => OperationModes::SYS,
        };

        current_mode != OperationModes::USR && current_mode != OperationModes::SYS
    }

    /// Entry point for hardware exceptions; nothing is raised yet.
    pub fn exception() {
    }

    /// Evaluate a condition code against the NZCV flags.
    pub fn check_condition(&self, cond: ConditionCodes) -> (r: bool)
        ensures
            r == self.registers.spec_check_condition(cond),
    {
        self.registers.check_condition(cond)
    }
}

impl ConditionCodes {
    /// Evaluate this condition code against the flags of a register file.
    pub fn check_condition(&self, rs: &RegisterSet) -> (r: bool)
        ensures
            r == rs.spec_check_condition(*self),
    {
        rs.check_condition(*self)
    }
}

/// Law: a write to `r13` or `r14` is visible only in the mode that performed
/// it. Reading the same name back in the writing mode yields the written
/// value; switching to any mode whose bank differs (USR and SYS share one
/// bank) yields that mode's own shadow, exactly as it was before the write.
pub proof fn lemma_banked_write_isolation(
    rs: RegisterSet,
    name: RegisterNames,
    value: u32,
    other: OperationModes,
)
    requires
        rs.wf(),
        name == RegisterNames::r13 || name == RegisterNames::r14,
        spec_bank(other) != spec_bank(rs.spec_mode()),
    ensures
        rs.spec_set(name, value).spec_reg(name) == value,
        rs.spec_set(name, value).spec_with_mode(other).spec_reg(name) == rs.spec_with_mode(
            other,
        ).spec_reg(name),
{
    let written = rs.spec_set(name, value);
    lemma_mode_field_update(rs.cpsr, spec_mode_bits(other));
    assert(written.spec_with_mode(other).spec_mode() == other);
    assert(rs.spec_with_mode(other).spec_mode() == other);
}

/// The general-purpose register named by a four-bit instruction field.
pub open spec fn spec_register_from_bits(bits: u32) -> RegisterNames {
    if bits == 0 {
        RegisterNames::r0
    } else if bits == 1 {
        RegisterNames::r1
    } else if bits == 2 {
        RegisterNames::r2
    } else if bits == 3 {
        RegisterNames::r3
    } else if bits == 4 {
        RegisterNames::r4
    } else if bits == 5 {
        RegisterNames::r5
    } else if bits == 6 {
        RegisterNames::r6
    } else if bits == 7 {
        RegisterNames::r7
    } else if bits == 8 {
        RegisterNames::r8
    } else if bits == 9 {
        RegisterNames::r9
    } else if bits == 10 {
        RegisterNames::r10
    } else if bits == 11 {
        RegisterNames::r11
    } else if bits == 12 {
        RegisterNames::r12
    } else if bits == 13 {
        RegisterNames::r13
    } else if bits == 14 {
        RegisterNames::r14
    } else {
        RegisterNames::r15
    }
}

/// Decode a four-bit register field to its register name.
pub fn register_from_bits(bits: u32) -> (r: RegisterNames)
    requires
        bits < 16,
    ensures
        r == spec_register_from_bits(bits),
        r.spec_is_gp(),
{
    if bits == 0 {
        RegisterNames::r0
    } else if bits == 1 {
        RegisterNames::r1
    } else if bits == 2 {
        RegisterNames::r2
    } else if bits == 3 {
        RegisterNames::r3
    } else if bits == 4 {
        RegisterNames::r4
    } else if bits == 5 {
        RegisterNames::r5
    } else if bits == 6 {
        RegisterNames::r6
    } else if bits == 7 {
        RegisterNames::r7
    } else if bits == 8 {
        RegisterNames::r8
    } else if bits == 9 {
        RegisterNames::r9
    } else if bits == 10 {
        RegisterNames::r10
    } else if bits == 11 {
        RegisterNames::r11
    } else if bits == 12 {
        RegisterNames::r12
    } else if bits == 13 {
        RegisterNames::r13
    } else if bits == 14 {
        RegisterNames::r14
    } else {
        RegisterNames::r15
    }
}

/// The condition code in the top four bits of an ARM instruction.
pub open spec fn spec_condition_from_bits(bits: u32) -> ConditionCodes {
    if bits == 0 {
        ConditionCodes::EQ
    } else if bits == 1 {
        ConditionCodes::NE
    } else if bits == 2 {
        ConditionCodes::CS
    } else if bits == 3 {
        ConditionCodes::CC
    } else if bits == 4 {
        ConditionCodes::MI
    } else if bits == 5 {
        ConditionCodes::PL
    } else if bits == 6 {
        ConditionCodes::VS
    } else if bits == 7 {
        ConditionCodes::VC
    } else if bits == 8 {
        ConditionCodes::HI
    } else if bits == 9 {
        ConditionCodes::LS
    } else if bits == 10 {
        ConditionCodes::GE
    } else if bits == 11 {
        ConditionCodes::LT
    } else if bits == 12 {
        ConditionCodes::GT
    } else if bits == 13 {
        ConditionCodes::LE
    } else if bits == 14 {
        ConditionCodes::AL
    } else {
        ConditionCodes::NO
    }
}

/// Decode a four-bit condition field to its condition code.
pub fn condition_from_bits(bits: u32) -> (r: ConditionCodes)
    requires
        bits < 16,
    ensures
        r == spec_condition_from_bits(bits),
{
    if bits == 0 {
        ConditionCodes::EQ
    } else if bits == 1 {
        ConditionCodes::NE
    } else if bits == 2 {
        ConditionCodes::CS
    } else if bits == 3 {
        ConditionCodes::CC
    } else if bits == 4 {
        ConditionCodes::MI
    } else if bits == 5 {
        ConditionCodes::PL
    } else if bits == 6 {
        ConditionCodes::VS
    } else if bits == 7 {
        ConditionCodes::VC
    } else if bits == 8 {
        ConditionCodes::HI
    } else if bits == 9 {
        ConditionCodes::LS
    } else if bits == 10 {
        ConditionCodes::GE
    } else if bits == 11 {
        ConditionCodes::LT
    } else if bits == 12 {
        ConditionCodes::GT
    } else if bits == 13 {
        ConditionCodes::LE
    } else if bits == 14 {
        ConditionCodes::AL
    } else {
        ConditionCodes::NO
    }
}

/// Whether a word carries a valid operation mode in its low five bits,
/// as a CPSR write must.
pub fn is_valid_mode_field(value: u32) -> (r: bool)
    ensures
        r == valid_mode_bits(value & 0x1f),
{
    let b = value & 0x1f;
    b == 0x10 || b == 0x11 || b == 0x12 || b == 0x13 || b == 0x17 || b == 0x1b || b == 0x1f
}

} // verus!
