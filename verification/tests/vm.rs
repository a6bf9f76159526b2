//! Whole-machine scenarios: images executed clock by clock.

use fantasy_vm::address_bus::AddressBus;
use fantasy_vm::cpu::machine::{
    CpuFlag, OPCODE_ADD, OPCODE_CLI, OPCODE_CMP, OPCODE_DIV, OPCODE_HLT, OPCODE_IN, OPCODE_JZ,
    OPCODE_LIDT, OPCODE_MOV, OPCODE_OUT, OPCODE_POP, OPCODE_POPF, OPCODE_PUSH, OPCODE_PUSHF,
    OPCODE_SUB,
};
use fantasy_vm::cpu::register_id::RegisterId;
use fantasy_vm::cpu::Cpu;
use fantasy_vm::memory::Memory;
use fantasy_vm::port_bus::PortBus;
use fantasy_vm::port_bus_device::Latch;

const MEMORY_SIZE: u64 = 0x20000;

/// A machine whose memory holds `program` from address 8 on, with the
/// entry point 8 at address 0.
fn boot(program: &[u8]) -> Cpu<Memory, Latch> {
    boot_with_ports(program, PortBus::new())
}

fn boot_with_ports(program: &[u8], port_bus: PortBus<Latch>) -> Cpu<Memory, Latch> {
    let mut image: Vec<u8> = vec![8, 0, 0, 0, 0, 0, 0, 0];
    image.extend_from_slice(program);
    let mut address_bus: AddressBus<Memory> = AddressBus::new();
    address_bus
        .add_entry(0, MEMORY_SIZE, Memory::new(MEMORY_SIZE))
        .unwrap();
    address_bus.write(&image, 0);
    Cpu::new(address_bus, port_bus)
}

/// An RM byte: source register id, destination register id, width selector.
fn rm(src: u8, dst: u8, size_selector: u8) -> u8 {
    src | (dst << 3) | (size_selector << 6)
}

#[test]
fn boot_halt() {
    // Image = entry point 8, then HLT. One tick halts with IP just past it.
    let mut cpu = boot(&[OPCODE_HLT]);
    assert!(!cpu.halted());
    assert_eq!(cpu.register(RegisterId::Ip), 8);
    assert_eq!(cpu.register(RegisterId::Sp), 0xffff);
    cpu.clock();
    assert!(cpu.halted());
    assert_eq!(cpu.register(RegisterId::Ip), 9);
    // Once halted, further ticks change nothing.
    cpu.clock();
    assert_eq!(cpu.register(RegisterId::Ip), 9);
}

#[test]
fn eight_bit_add_with_carry() {
    // MOV X0, 0xff (width 1); ADD X0, 1 (width 1).
    let mut cpu = boot(&[
        OPCODE_MOV,
        rm(0, 1, 0),
        0xff,
        OPCODE_ADD,
        rm(0, 1, 0),
        0x01,
        OPCODE_HLT,
    ]);
    cpu.clock();
    assert_eq!(cpu.register(RegisterId::X0), 0xff);
    cpu.clock();
    assert_eq!(cpu.register(RegisterId::X0) & 0xff, 0x00);
    assert!(cpu.get_flag(CpuFlag::Zero));
    assert!(cpu.get_flag(CpuFlag::Carry));
    assert!(!cpu.get_flag(CpuFlag::Overflow));
    assert!(!cpu.get_flag(CpuFlag::Negative));
}

#[test]
fn signed_overflow_on_sub() {
    // MOV X0, 0x80 (width 1); SUB X0, 1 (width 1).
    let mut cpu = boot(&[
        OPCODE_MOV,
        rm(0, 1, 0),
        0x80,
        OPCODE_SUB,
        rm(0, 1, 0),
        0x01,
        OPCODE_HLT,
    ]);
    cpu.clock();
    cpu.clock();
    assert_eq!(cpu.register(RegisterId::X0) & 0xff, 0x7f);
    assert!(cpu.get_flag(CpuFlag::Overflow));
    assert!(!cpu.get_flag(CpuFlag::Negative));
    assert!(!cpu.get_flag(CpuFlag::Zero));
    assert!(!cpu.get_flag(CpuFlag::Carry));
}

#[test]
fn divide_by_zero_dispatches_vector_zero() {
    // LIDT 0x100; the divide-by-zero slot (vector 0) points at 0x200.
    // CLI first: the dispatch is non-maskable and must fire anyway.
    let mut image: Vec<u8> = vec![8, 0, 0, 0, 0, 0, 0, 0];
    image.push(OPCODE_CLI);
    image.push(OPCODE_LIDT);
    image.push(0x00);
    image.extend_from_slice(&[0x00, 0x01, 0, 0, 0, 0, 0, 0]);
    image.push(OPCODE_DIV);
    image.push(rm(0, 1, 0));
    image.push(0x00);
    while image.len() < 0x100 {
        image.push(0);
    }
    image.extend_from_slice(&[0x00, 0x02, 0, 0, 0, 0, 0, 0]);
    let mut address_bus: AddressBus<Memory> = AddressBus::new();
    address_bus
        .add_entry(0, MEMORY_SIZE, Memory::new(MEMORY_SIZE))
        .unwrap();
    address_bus.write(&image, 0);
    let mut cpu: Cpu<Memory, Latch> = Cpu::new(address_bus, PortBus::new());
    cpu.clock(); // CLI
    cpu.clock(); // LIDT
    cpu.clock(); // DIV by zero -> non-maskable dispatch through slot 0
    assert_eq!(cpu.register(RegisterId::Ip), 0x200);
    // Flags, then the return address, were pushed.
    assert_eq!(cpu.register(RegisterId::Sp), 0xffff - 16);
}

#[test]
fn unmapped_port_reads_all_ones() {
    // IN X0, 0x1234 with nothing behind the port.
    let mut cpu = boot(&[OPCODE_IN, 0x01, 0x34, 0x12, OPCODE_HLT]);
    cpu.clock();
    assert_eq!(cpu.register(RegisterId::X0), 0xffff_ffff_ffff_ffff);
}

#[test]
fn latch_round_trip_through_ports() {
    // A latch at port 5 presenting 42: IN X0 reads it; OUT writes X1;
    // a second IN observes the written word.
    let mut port_bus: PortBus<Latch> = PortBus::new();
    port_bus.add_device(5, Latch::new(42)).unwrap();
    let mut cpu = boot_with_ports(
        &[
            OPCODE_IN,
            0x01,
            0x05,
            0x00,
            OPCODE_MOV,
            rm(0, 2, 3),
            0x99,
            0,
            0,
            0,
            0,
            0,
            0,
            0,
            OPCODE_OUT,
            0x02,
            0x05,
            0x00,
            OPCODE_IN,
            0x03,
            0x05,
            0x00,
            OPCODE_HLT,
        ],
        port_bus,
    );
    cpu.clock();
    assert_eq!(cpu.register(RegisterId::X0), 42);
    cpu.clock();
    cpu.clock();
    cpu.clock();
    assert_eq!(cpu.register(RegisterId::X2), 0x99);
}

#[test]
fn push_pop_round_trip() {
    // MOV X0, imm64; PUSH X0; POP X1: the word survives and SP is back.
    let mut program: Vec<u8> = vec![OPCODE_MOV, rm(0, 1, 3)];
    program.extend_from_slice(&[0x88, 0x77, 0x66, 0x55, 0x44, 0x33, 0x22, 0x11]);
    program.push(OPCODE_PUSH);
    program.push(0x01);
    program.push(OPCODE_POP);
    program.push(0x02);
    program.push(OPCODE_HLT);
    let mut cpu = boot(&program);
    cpu.clock();
    let sp_before = cpu.register(RegisterId::Sp);
    cpu.clock();
    assert_eq!(cpu.register(RegisterId::Sp), sp_before - 8);
    cpu.clock();
    assert_eq!(cpu.register(RegisterId::X1), 0x1122_3344_5566_7788);
    assert_eq!(cpu.register(RegisterId::Sp), sp_before);
}

#[test]
fn pushf_popf_round_trip() {
    // Set some flags with an 8-bit ADD, then PUSHF; POPF: the whole
    // flags word comes back and SP is net-unchanged.
    let mut cpu = boot(&[
        OPCODE_MOV,
        rm(0, 1, 0),
        0xff,
        OPCODE_ADD,
        rm(0, 1, 0),
        0x01,
        OPCODE_PUSHF,
        OPCODE_POPF,
        OPCODE_HLT,
    ]);
    cpu.clock();
    cpu.clock();
    let flags_before = cpu.flags();
    let sp_before = cpu.register(RegisterId::Sp);
    cpu.clock();
    cpu.clock();
    assert_eq!(cpu.flags(), flags_before);
    assert_eq!(cpu.register(RegisterId::Sp), sp_before);
}

#[test]
fn cmp_sets_flags_like_sub_but_writes_nothing() {
    // Identical machines run SUB and CMP on the same operands: the flags
    // agree; CMP leaves the destination register alone.
    let sub_program = [
        OPCODE_MOV,
        rm(0, 1, 0),
        0x80,
        OPCODE_SUB,
        rm(0, 1, 0),
        0x01,
        OPCODE_HLT,
    ];
    let cmp_program = [
        OPCODE_MOV,
        rm(0, 1, 0),
        0x80,
        OPCODE_CMP,
        rm(0, 1, 0),
        0x01,
        OPCODE_HLT,
    ];
    let mut sub_cpu = boot(&sub_program);
    let mut cmp_cpu = boot(&cmp_program);
    for _ in 0..2 {
        sub_cpu.clock();
        cmp_cpu.clock();
    }
    assert_eq!(cmp_cpu.flags(), sub_cpu.flags());
    assert_eq!(cmp_cpu.register(RegisterId::X0), 0x80);
    assert_eq!(sub_cpu.register(RegisterId::X0), 0x7f);
    assert_eq!(cmp_cpu.register(RegisterId::Sp), 0xffff);
}

#[test]
fn conditional_jump_taken_and_not_taken() {
    // SUB X0, 0 sets Zero; JZ to 0x40 is taken. There a MOV runs and the
    // following JZ is not taken (Zero cleared by the MOV's ADD? no: MOV
    // keeps flags), so clear Zero with an 8-bit ADD first.
    let mut program: Vec<u8> = Vec::new();
    program.push(OPCODE_SUB);
    program.push(rm(0, 1, 3));
    program.extend_from_slice(&[0, 0, 0, 0, 0, 0, 0, 0]);
    program.push(OPCODE_JZ);
    program.push(0x00);
    program.extend_from_slice(&[0x40, 0, 0, 0, 0, 0, 0, 0]);
    let mut image: Vec<u8> = vec![8, 0, 0, 0, 0, 0, 0, 0];
    image.extend_from_slice(&program);
    while image.len() < 0x40 {
        image.push(0);
    }
    // At 0x40: ADD X0, 1 (width 1, clears Zero), then JZ 0x60, then HLT.
    image.push(OPCODE_ADD);
    image.push(rm(0, 1, 0));
    image.push(0x01);
    image.push(OPCODE_JZ);
    image.push(0x00);
    image.extend_from_slice(&[0x60, 0, 0, 0, 0, 0, 0, 0]);
    image.push(OPCODE_HLT);
    let mut address_bus: AddressBus<Memory> = AddressBus::new();
    address_bus
        .add_entry(0, MEMORY_SIZE, Memory::new(MEMORY_SIZE))
        .unwrap();
    address_bus.write(&image, 0);
    let mut cpu: Cpu<Memory, Latch> = Cpu::new(address_bus, PortBus::new());
    cpu.clock(); // SUB: Zero set
    cpu.clock(); // JZ taken
    assert_eq!(cpu.register(RegisterId::Ip), 0x40);
    cpu.clock(); // ADD: Zero cleared
    cpu.clock(); // JZ not taken: falls through to the HLT
    assert_eq!(cpu.register(RegisterId::Ip), 0x40 + 3 + 10);
    cpu.clock();
    assert!(cpu.halted());
}

#[test]
fn unknown_opcode_without_idt_resets() {
    // 0xee is no instruction; with no IDT installed the CPU fail-stops
    // into a full reset: IP reloads from address 0, SP returns to 0xffff.
    let mut cpu = boot(&[0xee, OPCODE_HLT]);
    cpu.clock();
    assert!(!cpu.halted());
    assert_eq!(cpu.register(RegisterId::Ip), 8);
    assert_eq!(cpu.register(RegisterId::Sp), 0xffff);
}

#[test]
fn sized_write_preserves_upper_bytes() {
    // MOV X0, imm64 then MOV X0, 0xaa at width 1: only the low byte moves.
    let mut program: Vec<u8> = vec![OPCODE_MOV, rm(0, 1, 3)];
    program.extend_from_slice(&[0x11, 0x22, 0x33, 0x44, 0x55, 0x66, 0x77, 0x88]);
    program.push(OPCODE_MOV);
    program.push(rm(0, 1, 0));
    program.push(0xaa);
    program.push(OPCODE_HLT);
    let mut cpu = boot(&program);
    cpu.clock();
    cpu.clock();
    assert_eq!(cpu.register(RegisterId::X0), 0x8877_6655_4433_22aa);
}
