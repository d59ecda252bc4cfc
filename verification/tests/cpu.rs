//! Tests for the register file, the operation modes, the flags and the
//! condition codes, both through the raw `RegisterSet` and through the
//! `Arm7Tdmi` wrapper.

use lavender::cpu::ConditionCodes::{AL, CC, CS, EQ, GE, HI, LS, LT, MI, NE, PL, VC, VS};
use lavender::cpu::OperationModes::{SVC, SYS, UND, USR};
use lavender::cpu::RegisterNames::{r13, r14};
use lavender::cpu::{Arm7Tdmi, RegisterSet};

#[test]
fn arm7tdmi_empty() {}

#[test]
fn cpu_empty() {}

#[test]
fn register_set_set_operation_mode() {
    let mut rs = RegisterSet::new();

    // SYS by default
    assert_eq!(rs.get_operation_mode(), Some(SYS));

    // Change into UND mode
    rs.set_operation_mode(UND);
    assert_eq!(rs.get_operation_mode(), Some(UND));

    // Change into USR mode
    rs.set_operation_mode(USR);
    assert_eq!(rs.get_operation_mode(), Some(USR));
}

#[test]
fn register_set_thumb_bit() {
    let mut rs = RegisterSet::new();

    // Off by default
    assert_eq!(rs.get_thumb_bit(), false);
    rs.set_thumb_bit(true);
    assert_eq!(rs.get_thumb_bit(), true);
    rs.set_thumb_bit(false);
    assert_eq!(rs.get_thumb_bit(), false);
}

#[test]
fn register_set_register_mapping() {
    let mut rs = RegisterSet::new();

    rs.set_operation_mode(SVC);
    rs.set_value(r13, 0xdeadbeef);
    assert_eq!(rs.get_value(r13), 0xdeadbeef);

    rs.set_operation_mode(USR);
    assert_eq!(rs.get_value(r13), 0);
}

#[test]
fn register_set_interupts() {
    let mut rs = RegisterSet::new();

    // Disabled by default
    assert!(rs.is_fiq_disabled());
    assert!(rs.is_irq_disabled());

    // Enable them
    rs.set_fiq_disable(false);
    rs.set_irq_disable(false);
    assert!(!rs.is_fiq_disabled());
    assert!(!rs.is_irq_disabled());
}

#[test]
fn register_set_condition_bits() {
    let mut rs = RegisterSet::new();

    // Should all be off by default
    assert!(!rs.get_n());
    assert!(!rs.get_z());
    assert!(!rs.get_c());
    assert!(!rs.get_v());

    // Make sure they stay off
    rs.set_nzcv(false, false, false, false);

    // Should still all be off
    assert!(!rs.get_n());
    assert!(!rs.get_z());
    assert!(!rs.get_c());
    assert!(!rs.get_v());

    // Set all of the flag bits
    rs.set_nzcv(true, true, true, true);

    // Should now all be on
    assert!(rs.get_n());
    assert!(rs.get_z());
    assert!(rs.get_c());
    assert!(rs.get_v());

    // Set all of the flag bits
    rs.set_nzcv(true, true, true, true);

    // Should still all be on
    assert!(rs.get_n());
    assert!(rs.get_z());
    assert!(rs.get_c());
    assert!(rs.get_v());
}

#[test]
fn register_set_conditions() {
    let mut rs = RegisterSet::new();

    // All bits should be zero by default, so these conditions should pass.
    assert!(rs.check_condition(PL));
    assert!(rs.check_condition(NE));
    assert!(rs.check_condition(CC));
    assert!(rs.check_condition(VC));
    assert!(rs.check_condition(GE));
    assert!(rs.check_condition(AL));

    // Turn on the negative bit. MI should pass, PL should not.
    rs.set_nzcv(true, false, false, false);
    assert!(rs.check_condition(MI));
    assert!(!rs.check_condition(PL));

    // N bit is set and V is not.
    assert!(rs.check_condition(LT));

    // Turn on the zero bit. EQ should pass, NE should not.
    rs.set_nzcv(false, true, false, false);
    assert!(rs.check_condition(EQ));
    assert!(!rs.check_condition(NE));

    // Z bit is set and C is not.
    assert!(rs.check_condition(LS));

    // Turn on the carry bit. CS should pass, CC should not.
    rs.set_nzcv(false, false, true, false);
    assert!(rs.check_condition(CS));
    assert!(!rs.check_condition(CC));

    // C bit is set and Z is not.
    assert!(rs.check_condition(HI));

    // Turn on the overflow bit. VS should pass, VC should not.
    rs.set_nzcv(false, false, false, true);
    assert!(rs.check_condition(VS));
    assert!(!rs.check_condition(VC));
}

#[test]
fn cpu_set_operation_mode() {
    let mut cpu = Arm7Tdmi::init();

    // SYS by default
    assert_eq!(cpu.get_operation_mode(), Some(SYS));

    // Change into UND mode
    cpu.set_operation_mode(UND);
    assert_eq!(cpu.get_operation_mode(), Some(UND));

    // Change into USR mode
    cpu.set_operation_mode(USR);
    assert_eq!(cpu.get_operation_mode(), Some(USR));
}

#[test]
fn cpu_thumb_bit() {
    let mut cpu = Arm7Tdmi::init();

    // Off by default
    assert_eq!(cpu.get_thumb_bit(), false);
    cpu.set_thumb_bit(true);
    assert_eq!(cpu.get_thumb_bit(), true);
    cpu.set_thumb_bit(false);
    assert_eq!(cpu.get_thumb_bit(), false);
}

#[test]
fn cpu_register_mapping() {
    let mut cpu = Arm7Tdmi::init();

    cpu.set_operation_mode(SVC);
    cpu.set_register_value(r13, 0xdeadbeef);
    assert_eq!(cpu.get_register_value(r13), 0xdeadbeef);

    cpu.set_operation_mode(USR);
    assert_eq!(cpu.get_register_value(r13), 0);
}

#[test]
fn cpu_interupts() {
    let mut cpu = Arm7Tdmi::init();

    // Disabled by default
    assert!(cpu.is_fiq_disabled());
    assert!(cpu.is_irq_disabled());

    // Enable them
    cpu.set_fiq_disable(false);
    cpu.set_irq_disable(false);
    assert!(!cpu.is_fiq_disabled());
    assert!(!cpu.is_irq_disabled());
}

#[test]
fn cpu_condition_bits() {
    let mut cpu = Arm7Tdmi::init();

    // Should all be off by default
    assert!(!cpu.get_n());
    assert!(!cpu.get_z());
    assert!(!cpu.get_c());
    assert!(!cpu.get_v());

    // Make sure they stay off
    cpu.set_nzcv(false, false, false, false);

    // Should still all be off
    assert!(!cpu.get_n());
    assert!(!cpu.get_z());
    assert!(!cpu.get_c());
    assert!(!cpu.get_v());

    // Set all of the flag bits
    cpu.set_nzcv(true, true, true, true);

    // Should now all be on
    assert!(cpu.get_n());
    assert!(cpu.get_z());
    assert!(cpu.get_c());
    assert!(cpu.get_v());

    // Set all of the flag bits
    cpu.set_nzcv(true, true, true, true);

    // Should still all be on
    assert!(cpu.get_n());
    assert!(cpu.get_z());
    assert!(cpu.get_c());
    assert!(cpu.get_v());
}

#[test]
fn cpu_conditions() {
    let mut cpu = Arm7Tdmi::init();

    // All bits should be zero by default, so these conditions should pass.
    assert!(cpu.check_condition(PL));
    assert!(cpu.check_condition(NE));
    assert!(cpu.check_condition(CC));
    assert!(cpu.check_condition(VC));
    assert!(cpu.check_condition(GE));
    assert!(cpu.check_condition(AL));

    // Turn on the negative bit. MI should pass, PL should not.
    cpu.set_nzcv(true, false, false, false);
    assert!(cpu.check_condition(MI));
    assert!(!cpu.check_condition(PL));

    // N bit is set and V is not.
    assert!(cpu.check_condition(LT));

    // Turn on the zero bit. EQ should pass, NE should not.
    cpu.set_nzcv(false, true, false, false);
    assert!(cpu.check_condition(EQ));
    assert!(!cpu.check_condition(NE));

    // Z bit is set and C is not.
    assert!(cpu.check_condition(LS));

    // Turn on the carry bit. CS should pass, CC should not.
    cpu.set_nzcv(false, false, true, false);
    assert!(cpu.check_condition(CS));
    assert!(!cpu.check_condition(CC));

    // C bit is set and Z is not.
    assert!(cpu.check_condition(HI));

    // Turn on the overflow bit. VS should pass, VC should not.
    cpu.set_nzcv(false, false, false, true);
    assert!(cpu.check_condition(VS));
    assert!(!cpu.check_condition(VC));
}

#[test]
fn conditions_conditions() {
    let mut rs = RegisterSet::new();

    // All bits should be zero by default, so these conditions should pass.
    assert!(PL.check_condition(&rs));
    assert!(NE.check_condition(&rs));
    assert!(CC.check_condition(&rs));
    assert!(VC.check_condition(&rs));
    assert!(GE.check_condition(&rs));
    assert!(AL.check_condition(&rs));

    // Turn on the negative bit. MI should pass, PL should not.
    rs.set_nzcv(true, false, false, false);
    assert!(MI.check_condition(&rs));
    assert!(!PL.check_condition(&rs));

    // N bit is set and V is not.
    assert!(LT.check_condition(&rs));

    // Turn on the zero bit. EQ should pass, NE should not.
    rs.set_nzcv(false, true, false, false);
    assert!(EQ.check_condition(&rs));
    assert!(!NE.check_condition(&rs));

    // Z bit is set and C is not.
    assert!(LS.check_condition(&rs));

    // Turn on the carry bit. CS should pass, CC should not.
    rs.set_nzcv(false, false, true, false);
    assert!(CS.check_condition(&rs));
    assert!(!CC.check_condition(&rs));

    // C bit is set and Z is not.
    assert!(HI.check_condition(&rs));

    // Turn on the overflow bit. VS should pass, VC should not.
    rs.set_nzcv(false, false, false, true);
    assert!(VS.check_condition(&rs));
    assert!(!VC.check_condition(&rs));
}

#[test]
fn mode_field_always_names_a_valid_mode() {
    // The low five bits of CPSR name one of the seven valid modes, in the
    // reset state and across every mode switch and flag operation.
    let valid = [0x10u32, 0x11, 0x12, 0x13, 0x17, 0x1b, 0x1f];
    let mut cpu = Arm7Tdmi::init();
    assert!(valid.contains(&(cpu.registers.cpsr & 0x1f)));

    for mode in [
        USR,
        SVC,
        UND,
        SYS,
        lavender::cpu::OperationModes::FIQ,
        lavender::cpu::OperationModes::IRQ,
        lavender::cpu::OperationModes::ABT,
    ] {
        cpu.set_operation_mode(mode);
        cpu.set_nzcv(true, false, true, false);
        cpu.set_thumb_bit(true);
        cpu.set_thumb_bit(false);
        assert!(valid.contains(&(cpu.registers.cpsr & 0x1f)));
    }
}

#[test]
fn set_nzcv_changes_only_the_top_nibble() {
    let mut rs = RegisterSet::new();
    rs.set_operation_mode(SVC);
    let before = rs.cpsr;

    rs.set_nzcv(true, false, true, true);

    assert_eq!(rs.cpsr & 0x0fff_ffff, before & 0x0fff_ffff);
    assert_eq!(rs.cpsr >> 28, 0b1011);
}

#[test]
fn banked_r14_is_isolated_per_mode() {
    let mut rs = RegisterSet::new();

    rs.set_operation_mode(lavender::cpu::OperationModes::IRQ);
    rs.set_value(r14, 0x1111_1111);

    rs.set_operation_mode(lavender::cpu::OperationModes::FIQ);
    assert_eq!(rs.get_value(r14), 0);
    rs.set_value(r14, 0x2222_2222);

    rs.set_operation_mode(lavender::cpu::OperationModes::IRQ);
    assert_eq!(rs.get_value(r14), 0x1111_1111);

    // USR and SYS share the unbanked slot.
    rs.set_operation_mode(USR);
    rs.set_value(r14, 0x3333_3333);
    rs.set_operation_mode(SYS);
    assert_eq!(rs.get_value(r14), 0x3333_3333);
}

#[test]
fn is_gp_tells_status_registers_apart() {
    assert!(r13.is_gp());
    assert!(!lavender::cpu::RegisterNames::cpsr.is_gp());
    assert!(!lavender::cpu::RegisterNames::spsr.is_gp());
}

#[test]
fn map_value_applies_the_function() {
    let mut rs = RegisterSet::new();

    rs.set_value(r13, 20);
    rs.map_value(r13, |value| value + 1);
    assert_eq!(rs.get_value(r13), 21);

    rs.map_value(r13, |value| value * 2);
    assert_eq!(rs.get_value(r13), 42);
}
