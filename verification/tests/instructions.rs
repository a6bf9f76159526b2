//! Per-instruction behavior: memory, control flow and interrupts.

use fantasy_vm::address_bus::AddressBus;
use fantasy_vm::cpu::machine::{
    CpuFlag, OPCODE_AND, OPCODE_CALL, OPCODE_CLI, OPCODE_HLT, OPCODE_INT, OPCODE_LDR, OPCODE_LEA,
    OPCODE_LIDT, OPCODE_MOV, OPCODE_MUL, OPCODE_NEG, OPCODE_NOT, OPCODE_RET, OPCODE_RETI,
    OPCODE_STI, OPCODE_STR, OPCODE_XOR,
};
use fantasy_vm::cpu::register_id::RegisterId;
use fantasy_vm::cpu::Cpu;
use fantasy_vm::memory::Memory;
use fantasy_vm::port_bus::PortBus;
use fantasy_vm::port_bus_device::Latch;

const MEMORY_SIZE: u64 = 0x20000;

fn boot_image(image: Vec<u8>) -> Cpu<Memory, Latch> {
    let mut address_bus: AddressBus<Memory> = AddressBus::new();
    address_bus
        .add_entry(0, MEMORY_SIZE, Memory::new(MEMORY_SIZE))
        .unwrap();
    address_bus.write(&image, 0);
    Cpu::new(address_bus, PortBus::new())
}

fn boot(program: &[u8]) -> Cpu<Memory, Latch> {
    let mut image: Vec<u8> = vec![8, 0, 0, 0, 0, 0, 0, 0];
    image.extend_from_slice(program);
    boot_image(image)
}

fn rm(src: u8, dst: u8, size_selector: u8) -> u8 {
    src | (dst << 3) | (size_selector << 6)
}

/// An effective-address operand: selector byte, then the 64-bit
/// displacement.
fn ea(base: u8, index: u8, displacement: u64, out: &mut Vec<u8>) {
    out.push(base | (index << 3));
    out.extend_from_slice(&displacement.to_le_bytes());
}

#[test]
fn str_and_ldr_round_trip_through_memory() {
    // MOV X0, imm64; STR X0 at 0x1000 (width 4); LDR X1 from 0x1000
    // (width 4): only the low four bytes travel.
    let mut program: Vec<u8> = vec![OPCODE_MOV, rm(0, 1, 3)];
    program.extend_from_slice(&[0x78, 0x56, 0x34, 0x12, 0xdd, 0xcc, 0xbb, 0xaa]);
    program.push(OPCODE_STR);
    program.push(rm(1, 0, 2));
    ea(0, 0, 0x1000, &mut program);
    program.push(OPCODE_LDR);
    program.push(rm(2, 0, 2));
    ea(0, 0, 0x1000, &mut program);
    program.push(OPCODE_HLT);
    let mut cpu = boot(&program);
    cpu.clock();
    cpu.clock();
    cpu.clock();
    assert_eq!(cpu.register(RegisterId::X1), 0x1234_5678);
}

#[test]
fn lea_computes_base_plus_index_plus_displacement() {
    // X0 = 0x30, X1 = 4; LEA X2, [X0 + X1 + 8] (width 8) = 0x3c.
    let mut program: Vec<u8> = vec![OPCODE_MOV, rm(0, 1, 3)];
    program.extend_from_slice(&0x30u64.to_le_bytes());
    program.push(OPCODE_MOV);
    program.push(rm(0, 2, 3));
    program.extend_from_slice(&4u64.to_le_bytes());
    program.push(OPCODE_LEA);
    program.push(rm(3, 0, 3));
    ea(1, 2, 8, &mut program);
    program.push(OPCODE_HLT);
    let mut cpu = boot(&program);
    cpu.clock();
    cpu.clock();
    cpu.clock();
    assert_eq!(cpu.register(RegisterId::X2), 0x3c);
}

#[test]
fn call_pushes_return_address_and_ret_comes_back() {
    // CALL 0x40; the callee is RET; execution resumes at the HLT.
    let mut image: Vec<u8> = vec![8, 0, 0, 0, 0, 0, 0, 0];
    image.push(OPCODE_CALL);
    ea(0, 0, 0x40, &mut image);
    let return_address = image.len() as u64;
    image.push(OPCODE_HLT);
    while image.len() < 0x40 {
        image.push(0);
    }
    image.push(OPCODE_RET);
    let mut cpu = boot_image(image);
    cpu.clock(); // CALL
    assert_eq!(cpu.register(RegisterId::Ip), 0x40);
    assert_eq!(cpu.register(RegisterId::Sp), 0xffff - 8);
    cpu.clock(); // RET
    assert_eq!(cpu.register(RegisterId::Ip), return_address);
    assert_eq!(cpu.register(RegisterId::Sp), 0xffff);
    cpu.clock();
    assert!(cpu.halted());
}

#[test]
fn software_interrupt_honors_the_enable_flag() {
    // With interrupts enabled, INT 1 enters the handler; RETI returns
    // with the flags restored. A second INT after CLI is ignored.
    let mut image: Vec<u8> = vec![8, 0, 0, 0, 0, 0, 0, 0];
    image.push(OPCODE_LIDT);
    ea(0, 0, 0x100, &mut image);
    image.push(OPCODE_STI);
    image.push(OPCODE_INT);
    image.push(0x01);
    let after_first_int = image.len() as u64;
    image.push(OPCODE_CLI);
    image.push(OPCODE_INT);
    image.push(0x01);
    let after_second_int = image.len() as u64;
    image.push(OPCODE_HLT);
    while image.len() < 0x100 {
        image.push(0);
    }
    // Vector 0 empty, vector 1 points at 0x200.
    image.extend_from_slice(&0u64.to_le_bytes());
    image.extend_from_slice(&0x200u64.to_le_bytes());
    while image.len() < 0x200 {
        image.push(0);
    }
    image.push(OPCODE_RETI);
    let mut cpu = boot_image(image);
    cpu.clock(); // LIDT
    cpu.clock(); // STI
    let flags_before = cpu.flags();
    cpu.clock(); // INT 1: dispatched
    assert_eq!(cpu.register(RegisterId::Ip), 0x200);
    assert_eq!(cpu.register(RegisterId::Sp), 0xffff - 16);
    cpu.clock(); // RETI
    assert_eq!(cpu.register(RegisterId::Ip), after_first_int);
    assert_eq!(cpu.register(RegisterId::Sp), 0xffff);
    assert_eq!(cpu.flags(), flags_before);
    cpu.clock(); // CLI
    cpu.clock(); // INT 1: masked, falls through
    assert_eq!(cpu.register(RegisterId::Ip), after_second_int);
    cpu.clock();
    assert!(cpu.halted());
}

#[test]
fn mul_sets_carry_on_unsigned_lane_overflow() {
    // 0x80 * 2 at width 1 overflows the unsigned lane.
    let mut program: Vec<u8> = vec![OPCODE_MOV, rm(0, 1, 0), 0x80];
    program.push(OPCODE_MUL);
    program.push(rm(0, 1, 0));
    program.push(0x02);
    program.push(OPCODE_HLT);
    let mut cpu = boot(&program);
    cpu.clock();
    cpu.clock();
    assert_eq!(cpu.register(RegisterId::X0) & 0xff, 0x00);
    assert!(cpu.get_flag(CpuFlag::Carry));
    assert!(cpu.get_flag(CpuFlag::Zero));
}

#[test]
fn xor_and_and_set_zero_and_negative_from_the_lane() {
    // X0 = 0xff; XOR X0, 0xff at width 1 gives zero; AND X0, 0x80 after
    // a reload gives the sign bit.
    let mut program: Vec<u8> = vec![OPCODE_MOV, rm(0, 1, 0), 0xff];
    program.push(OPCODE_XOR);
    program.push(rm(0, 1, 0));
    program.push(0xff);
    program.push(OPCODE_MOV);
    program.push(rm(0, 1, 0));
    program.push(0xff);
    program.push(OPCODE_AND);
    program.push(rm(0, 1, 0));
    program.push(0x80);
    program.push(OPCODE_HLT);
    let mut cpu = boot(&program);
    cpu.clock();
    cpu.clock();
    assert!(cpu.get_flag(CpuFlag::Zero));
    assert_eq!(cpu.register(RegisterId::X0) & 0xff, 0);
    cpu.clock();
    cpu.clock();
    assert!(!cpu.get_flag(CpuFlag::Zero));
    assert!(cpu.get_flag(CpuFlag::Negative));
    assert_eq!(cpu.register(RegisterId::X0) & 0xff, 0x80);
}

#[test]
fn not_and_neg_write_the_lane_only() {
    // X0 = 1; NEG X0 at width 1 gives 0xff in the low byte; NOT X0 at
    // width 1 flips it back to 0x00 and sets Zero.
    let mut program: Vec<u8> = vec![OPCODE_MOV, rm(0, 1, 0), 0x01];
    program.push(OPCODE_NEG);
    program.push(rm(1, 0, 0));
    program.push(OPCODE_NOT);
    program.push(rm(1, 0, 0));
    program.push(OPCODE_HLT);
    let mut cpu = boot(&program);
    cpu.clock();
    cpu.clock();
    assert_eq!(cpu.register(RegisterId::X0) & 0xff, 0xff);
    assert!(cpu.get_flag(CpuFlag::Negative));
    cpu.clock();
    assert_eq!(cpu.register(RegisterId::X0) & 0xff, 0x00);
    assert!(cpu.get_flag(CpuFlag::Zero));
}

#[test]
fn div_faults_on_a_zero_divisor_lane() {
    // X0 = 0x100; at width 1 its divisor lane is zero even though the
    // full register is not, so DIV X1, X0 raises DIVIDE_BY_ZERO. With no
    // IDT the CPU fail-stops into a reset; the destination keeps its
    // value.
    let mut program: Vec<u8> = vec![OPCODE_MOV, rm(0, 1, 1), 0x00, 0x01];
    program.push(OPCODE_MOV);
    program.push(rm(0, 2, 0));
    program.push(0x05);
    program.push(fantasy_vm::cpu::machine::OPCODE_DIV);
    program.push(rm(1, 2, 0));
    program.push(OPCODE_HLT);
    let mut cpu = boot(&program);
    cpu.clock();
    cpu.clock();
    cpu.clock();
    assert_eq!(cpu.register(RegisterId::Ip), 8);
    assert_eq!(cpu.register(RegisterId::Sp), 0xffff);
    assert_eq!(cpu.register(RegisterId::X1), 5);
    assert!(!cpu.halted());
}

#[test]
fn div_divides_the_lanes_not_the_full_registers() {
    // X1 = 0x1ff, X0 = 0x101, width 1: the lanes are 0xff / 1 = 0xff, so
    // the destination's low byte stays 0xff; full-width division would
    // have written 1 there. Carry never sets on a completed DIV.
    let mut program: Vec<u8> = vec![OPCODE_MOV, rm(0, 2, 1), 0xff, 0x01];
    program.push(OPCODE_MOV);
    program.push(rm(0, 1, 1));
    program.push(0x01);
    program.push(0x01);
    program.push(fantasy_vm::cpu::machine::OPCODE_DIV);
    program.push(rm(1, 2, 0));
    program.push(OPCODE_HLT);
    let mut cpu = boot(&program);
    cpu.clock();
    cpu.clock();
    cpu.clock();
    assert_eq!(cpu.register(RegisterId::X1), 0x1ff);
    assert!(!cpu.get_flag(CpuFlag::Carry));
    assert!(!cpu.get_flag(CpuFlag::Zero));
    assert!(cpu.get_flag(CpuFlag::Negative));
}

#[test]
fn invalid_destination_field_raises_invalid_instruction() {
    // MOV with destination field 0 is ill-formed; with no IDT the CPU
    // fail-stops into a reset.
    let mut cpu = boot(&[OPCODE_MOV, rm(1, 0, 0), OPCODE_HLT]);
    cpu.clock();
    assert_eq!(cpu.register(RegisterId::Ip), 8);
    assert_eq!(cpu.register(RegisterId::Sp), 0xffff);
    assert!(!cpu.halted());
}
