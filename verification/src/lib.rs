//! A 64-bit fantasy-architecture machine: a CPU with seven general
//! registers, a flags word and an in-memory interrupt descriptor table,
//! driven against an interval-mapped address bus and a 16-bit port bus.

pub mod address_bus;
pub mod address_bus_device;
pub mod config_file_parse;
pub mod cpu;
pub mod interval_map;
pub mod memory;
pub mod port_bus;
pub mod port_bus_device;
