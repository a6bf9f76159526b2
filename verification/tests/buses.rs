//! The two buses and the memory device, exercised directly.

use fantasy_vm::address_bus::AddressBus;
use fantasy_vm::memory::Memory;
use fantasy_vm::port_bus::{PortBus, FLOATING_PORT, PORT_COUNT};
use fantasy_vm::port_bus_device::Latch;

#[test]
fn add_entry_rejects_overlap() {
    let mut bus: AddressBus<Memory> = AddressBus::new();
    assert!(bus.add_entry(0x100, 0x100, Memory::new(0x100)).is_ok());
    // Any intersection fails and mutates nothing.
    assert!(bus.add_entry(0x180, 0x100, Memory::new(0x100)).is_err());
    assert!(bus.add_entry(0x0, 0x101, Memory::new(0x101)).is_err());
    assert!(bus.add_entry(0x100, 0x100, Memory::new(0x100)).is_err());
    // Touching intervals are disjoint and fine.
    assert!(bus.add_entry(0x200, 0x100, Memory::new(0x100)).is_ok());
    assert!(bus.add_entry(0x0, 0x100, Memory::new(0x100)).is_ok());
}

#[test]
fn write_then_read_round_trips() {
    let mut bus: AddressBus<Memory> = AddressBus::new();
    bus.add_entry(0, 64, Memory::new(64)).unwrap();
    let src: Vec<u8> = (1..=16).collect();
    bus.write(&src, 8);
    let mut dst: Vec<u8> = vec![0; 16];
    bus.read(&mut dst, 8);
    assert_eq!(dst, src);
}

#[test]
fn split_write_lands_on_both_devices() {
    // Device A backs [0, 16), device B backs [16, 32). A write of 8
    // bytes at address 12 puts 4 bytes at the end of A and 4 at the
    // start of B.
    let mut bus: AddressBus<Memory> = AddressBus::new();
    bus.add_entry(0, 16, Memory::new(16)).unwrap();
    bus.add_entry(16, 16, Memory::new(16)).unwrap();
    let src: Vec<u8> = vec![10, 20, 30, 40, 50, 60, 70, 80];
    bus.write(&src, 12);
    let mut tail_of_a: Vec<u8> = vec![0; 4];
    bus.read(&mut tail_of_a, 12);
    assert_eq!(tail_of_a, vec![10, 20, 30, 40]);
    let mut head_of_b: Vec<u8> = vec![0; 4];
    bus.read(&mut head_of_b, 16);
    assert_eq!(head_of_b, vec![50, 60, 70, 80]);
    let mut all: Vec<u8> = vec![0; 8];
    bus.read(&mut all, 12);
    assert_eq!(all, src);
}

#[test]
fn unmapped_addresses_drop_writes_and_keep_read_buffers() {
    // One device at [0, 8); the rest of the space floats.
    let mut bus: AddressBus<Memory> = AddressBus::new();
    bus.add_entry(0, 8, Memory::new(8)).unwrap();
    // A write straddling the hole delivers only its mapped head.
    let src: Vec<u8> = vec![1, 2, 3, 4, 5, 6, 7, 8];
    bus.write(&src, 4);
    // Reads over the hole leave the buffer's bytes exactly as they were.
    let mut dst: Vec<u8> = vec![0xaa; 8];
    bus.read(&mut dst, 4);
    assert_eq!(dst, vec![1, 2, 3, 4, 0xaa, 0xaa, 0xaa, 0xaa]);
}

#[test]
fn memory_starts_zeroed() {
    let mut bus: AddressBus<Memory> = AddressBus::new();
    bus.add_entry(0, 32, Memory::new(32)).unwrap();
    let mut dst: Vec<u8> = vec![0xff; 32];
    bus.read(&mut dst, 0);
    assert_eq!(dst, vec![0; 32]);
}

#[test]
fn port_bus_maps_and_unmaps_slots() {
    let mut bus: PortBus<Latch> = PortBus::new();
    assert_eq!(bus.read(7), FLOATING_PORT);
    bus.add_device(7, Latch::new(3)).unwrap();
    assert_eq!(bus.read(7), 3);
    // The slot is taken now.
    assert!(bus.add_device(7, Latch::new(9)).is_err());
    bus.write(7, 11);
    assert_eq!(bus.read(7), 11);
    // Writes to unmapped ports are dropped.
    bus.write(8, 99);
    assert_eq!(bus.read(8), FLOATING_PORT);
    bus.remove_device(7);
    assert_eq!(bus.read(7), FLOATING_PORT);
}

#[test]
fn port_space_has_no_top_slot() {
    // Ports run from 0 up to, not including, 0xffff: the top index has
    // no slot, floats on reads and drops writes.
    let mut bus: PortBus<Latch> = PortBus::new();
    assert!(bus.add_device(PORT_COUNT, Latch::new(1)).is_err());
    assert_eq!(bus.read(PORT_COUNT), FLOATING_PORT);
    bus.write(PORT_COUNT, 5);
    assert_eq!(bus.read(PORT_COUNT), FLOATING_PORT);
    assert!(bus.add_device(PORT_COUNT - 1, Latch::new(1)).is_ok());
}
