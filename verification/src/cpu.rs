//! The CPU: seven 64-bit registers, a flags word, an interrupt descriptor
//! table base and a halt latch, driven against an address bus and a port
//! bus it owns. `clock` runs exactly one instruction; everything it does
//! is pinned down by `machine::spec_clock`.

pub mod instructions;
pub mod laws;
pub mod machine;
pub mod register_id;
pub mod size;

use vstd::prelude::*;

use crate::address_bus::{write_bytes, AddressBus};
use crate::address_bus_device::AddressBusDevice;
use crate::port_bus::PortBus;
use crate::port_bus_device::PortBusDevice;
use machine::{
    fetch_advance, flag_get, flag_set, mem_byte, mem_bytes, mem_sized, reg, sized_assign,
    spec_interrupt, spec_pop_state, spec_pop_value, spec_push, spec_reset, with_reg, CpuFlag,
    MachineView,
};
use register_id::RegisterId;
use size::Size;

verus! {

/// What one instruction hands back: done, or the vector of the fault it
/// raised, which the CPU then delivers as a non-maskable interrupt.
pub type InstructionResult = Result<(), u8>;

impl CpuFlag {
    /// The bit position of this flag in the flags word.
    pub fn bit(self) -> (r: u64)
        ensures
            r == machine::flag_bit(self),
    {
        match self {
            CpuFlag::Negative => 0,
            CpuFlag::Overflow => 1,
            CpuFlag::Zero => 2,
            CpuFlag::Carry => 3,
            CpuFlag::InterruptEnable => 4,
        }
    }
}

/// The machine's core, built around the two buses it drives.
pub struct Cpu<D: AddressBusDevice, P: PortBusDevice> {
    address_bus: AddressBus<D>,
    port_bus: PortBus<P>,
    x0: u64,
    x1: u64,
    x2: u64,
    x3: u64,
    x4: u64,
    sp: u64,
    ip: u64,
    idt: u64,
    flags: u64,
    halted: bool,
}

impl<D: AddressBusDevice, P: PortBusDevice> View for Cpu<D, P> {
    type V = MachineView;

    /// The whole machine as the model sees it.
    closed spec fn view(&self) -> MachineView {
        MachineView {
            x0: self.x0,
            x1: self.x1,
            x2: self.x2,
            x3: self.x3,
            x4: self.x4,
            sp: self.sp,
            ip: self.ip,
            flags: self.flags,
            idt: self.idt,
            halted: self.halted,
            mem: self.address_bus@,
            ports: self.port_bus@,
        }
    }
}

impl<D: AddressBusDevice, P: PortBusDevice> Cpu<D, P> {
    /// A CPU around the given buses, reset once: registers X0 through X4
    /// start at zero and reset loads the entry point from address 0.
    pub fn new(address_bus: AddressBus<D>, port_bus: PortBus<P>) -> (r: Cpu<D, P>)
        ensures
            r@ == spec_reset(
                MachineView {
                    x0: 0,
                    x1: 0,
                    x2: 0,
                    x3: 0,
                    x4: 0,
                    sp: 0,
                    ip: 0,
                    flags: 0,
                    idt: 0,
                    halted: false,
                    mem: address_bus@,
                    ports: port_bus@,
                },
            ),
    {
        let mut cpu = Cpu {
            address_bus,
            port_bus,
            x0: 0,
            x1: 0,
            x2: 0,
            x3: 0,
            x4: 0,
            sp: 0,
            ip: 0,
            idt: 0,
            flags: 0,
            halted: false,
        };
        cpu.reset();
        cpu
    }

    /// A full reset: clear the halt latch, enable interrupts, load the
    /// instruction pointer from the eight little-endian bytes at address 0
    /// and set the stack pointer to `0xffff`. X0 through X4 keep their
    /// values.
    pub fn reset(&mut self)
        ensures
            final(self)@ == spec_reset(old(self)@),
    {
        let start_bytes = self.read_bytes(0, 8);
        let execution_start = vstd::bytes::u64_from_le_bytes(start_bytes.as_slice());
        self.set_flag(CpuFlag::InterruptEnable, true);
        self.register_assign(RegisterId::Ip, execution_start);
        self.register_assign(RegisterId::Sp, 0xffff);
        self.halted = false;
    }

    /// Whether the CPU has executed HLT since the last reset.
    pub fn halted(&self) -> (r: bool)
        ensures
            r == self@.halted,
    {
        self.halted
    }

    /// The value of one register.
    pub fn register(&self, id: RegisterId) -> (r: u64)
        ensures
            r == reg(self@, id),
    {
        match id {
            RegisterId::X0 => self.x0,
            RegisterId::X1 => self.x1,
            RegisterId::X2 => self.x2,
            RegisterId::X3 => self.x3,
            RegisterId::X4 => self.x4,
            RegisterId::Sp => self.sp,
            RegisterId::Ip => self.ip,
        }
    }

    /// Whether one flag is set.
    pub fn get_flag(&self, flag: CpuFlag) -> (r: bool)
        ensures
            r == flag_get(self@.flags, flag),
    {
        (self.flags >> flag.bit()) & 1 == 1
    }

    /// The full 64-bit flags word.
    pub fn flags(&self) -> (r: u64)
        ensures
            r == self@.flags,
    {
        self.flags
    }

    /// The interrupt descriptor table base; 0 means none is installed.
    pub fn idt(&self) -> (r: u64)
        ensures
            r == self@.idt,
    {
        self.idt
    }
}

impl<D: AddressBusDevice, P: PortBusDevice> Cpu<D, P> {
    /// `count` bytes as the CPU sees them from `address` on: mapped bytes
    /// from the bus, zero everywhere else.
    fn read_bytes(&mut self, address: u64, count: usize) -> (r: Vec<u8>)
        ensures
            final(self)@ == old(self)@,
            r@ == mem_bytes(old(self)@.mem, address, count as nat),
    {
        let mut buf: Vec<u8> = Vec::new();
        while buf.len() < count
            invariant
                buf@.len() <= count,
                forall|i: int| 0 <= i < buf@.len() ==> buf@[i] == 0u8,
            decreases count - buf@.len(),
        {
            buf.push(0);
        }
        self.address_bus.read(&mut buf, address);
        proof {
            assert(buf@ =~= mem_bytes(old(self)@.mem, address, count as nat));
        }
        buf
    }

    /// Hand `src` to the address bus at `address`.
    fn write(&mut self, src: &[u8], address: u64)
        ensures
            final(self)@ == (MachineView {
                mem: write_bytes(old(self)@.mem, address, src@),
                ..old(self)@
            }),
    {
        self.address_bus.write(src, address);
    }

    /// Write a port of the port bus.
    fn port_bus_write(&mut self, port: u16, value: u64)
        ensures
            final(self)@ == (MachineView {
                ports: if old(self)@.ports.dom().contains(port) {
                    old(self)@.ports.insert(port, value)
                } else {
                    old(self)@.ports
                },
                ..old(self)@
            }),
    {
        self.port_bus.write(port, value)
    }

    /// Read a port of the port bus.
    fn port_bus_read(&mut self, port: u16) -> (r: u64)
        ensures
            final(self)@ == old(self)@,
            r == (if old(self)@.ports.dom().contains(port) {
                old(self)@.ports[port]
            } else {
                crate::port_bus::FLOATING_PORT
            }),
    {
        self.port_bus.read(port)
    }

    /// Replace one register.
    fn register_assign(&mut self, id: RegisterId, value: u64)
        ensures
            final(self)@ == with_reg(old(self)@, id, value),
    {
        match id {
            RegisterId::X0 => self.x0 = value,
            RegisterId::X1 => self.x1 = value,
            RegisterId::X2 => self.x2 = value,
            RegisterId::X3 => self.x3 = value,
            RegisterId::X4 => self.x4 = value,
            RegisterId::Sp => self.sp = value,
            RegisterId::Ip => self.ip = value,
        }
    }

    /// Replace only the low `size` bytes of one register; the bytes above
    /// keep their values.
    fn register_assign_sized(&mut self, id: RegisterId, value: u64, size: Size)
        ensures
            final(self)@ == with_reg(old(self)@, id, sized_assign(reg(old(self)@, id), value, size)),
    {
        let current = self.register(id);
        let merged: u64 = match size {
            Size::One => (current & 0xffff_ffff_ffff_ff00) | (value & 0x0000_0000_0000_00ff),
            Size::Two => (current & 0xffff_ffff_ffff_0000) | (value & 0x0000_0000_0000_ffff),
            Size::Four => (current & 0xffff_ffff_0000_0000) | (value & 0x0000_0000_ffff_ffff),
            Size::Eight => value,
        };
        self.register_assign(id, merged);
    }

    /// Add to one register, wrapping.
    fn register_add_assign(&mut self, id: RegisterId, value: u64)
        ensures
            final(self)@ == with_reg(old(self)@, id, reg(old(self)@, id).wrapping_add(value)),
    {
        let register_value = self.register(id);
        self.register_assign(id, register_value.wrapping_add(value));
    }

    /// Subtract from one register, wrapping.
    fn register_sub_assign(&mut self, id: RegisterId, value: u64)
        ensures
            final(self)@ == with_reg(old(self)@, id, reg(old(self)@, id).wrapping_sub(value)),
    {
        let register_value = self.register(id);
        self.register_assign(id, register_value.wrapping_sub(value));
    }

    /// Latch the halt state; only `reset` clears it.
    fn halt(&mut self)
        ensures
            final(self)@ == machine::spec_hlt(old(self)@),
    {
        self.halted = true;
    }

    /// Install a new descriptor table base.
    fn set_idt(&mut self, address: u64)
        ensures
            final(self)@ == (MachineView { idt: address, ..old(self)@ }),
    {
        self.idt = address;
    }

    /// Force one flag.
    fn set_flag(&mut self, flag: CpuFlag, value: bool)
        ensures
            final(self)@ == (MachineView {
                flags: flag_set(old(self)@.flags, flag, value),
                ..old(self)@
            }),
    {
        let bit = flag.bit();
        if value {
            self.flags = self.flags | (1u64 << bit);
        } else {
            self.flags = self.flags & !(1u64 << bit);
        }
    }
}

impl<D: AddressBusDevice, P: PortBusDevice> Cpu<D, P> {
    /// One instruction byte: the byte at the instruction pointer, which
    /// then moves past it.
    fn fetch_byte(&mut self) -> (r: u8)
        ensures
            final(self)@ == fetch_advance(old(self)@, 1),
            r == mem_byte(old(self)@.mem, old(self)@.ip),
    {
        let ip = self.ip;
        let buf = self.read_bytes(ip, 1);
        self.register_add_assign(RegisterId::Ip, 1);
        let r = buf[0];
        proof {
            assert(mem_bytes(old(self)@.mem, ip, 1)[0] == mem_byte(old(self)@.mem, ip));
        }
        r
    }

    /// Two little-endian instruction bytes.
    fn fetch_word(&mut self) -> (r: u16)
        ensures
            final(self)@ == fetch_advance(old(self)@, 2),
            r == vstd::bytes::spec_u16_from_le_bytes(mem_bytes(old(self)@.mem, old(self)@.ip, 2)),
    {
        let ip = self.ip;
        let buf = self.read_bytes(ip, 2);
        self.register_add_assign(RegisterId::Ip, 2);
        vstd::bytes::u16_from_le_bytes(buf.as_slice())
    }

    /// Four little-endian instruction bytes.
    fn fetch_dword(&mut self) -> (r: u32)
        ensures
            final(self)@ == fetch_advance(old(self)@, 4),
            r == vstd::bytes::spec_u32_from_le_bytes(mem_bytes(old(self)@.mem, old(self)@.ip, 4)),
    {
        let ip = self.ip;
        let buf = self.read_bytes(ip, 4);
        self.register_add_assign(RegisterId::Ip, 4);
        vstd::bytes::u32_from_le_bytes(buf.as_slice())
    }

    /// Eight little-endian instruction bytes.
    fn fetch_qword(&mut self) -> (r: u64)
        ensures
            final(self)@ == fetch_advance(old(self)@, 8),
            r == vstd::bytes::spec_u64_from_le_bytes(mem_bytes(old(self)@.mem, old(self)@.ip, 8)),
    {
        let ip = self.ip;
        let buf = self.read_bytes(ip, 8);
        self.register_add_assign(RegisterId::Ip, 8);
        vstd::bytes::u64_from_le_bytes(buf.as_slice())
    }

    /// An instruction immediate of the chosen width, zero-extended.
    fn fetch_sized(&mut self, size: Size) -> (r: u64)
        ensures
            final(self)@ == fetch_advance(old(self)@, size.spec_bytes() as u64),
            r == mem_sized(old(self)@.mem, old(self)@.ip, size),
    {
        match size {
            Size::One => self.fetch_byte() as u64,
            Size::Two => self.fetch_word() as u64,
            Size::Four => self.fetch_dword() as u64,
            Size::Eight => self.fetch_qword(),
        }
    }

    /// Push one byte: the stack pointer drops by one, the byte lands there.
    fn push_byte(&mut self, value: u8)
        ensures
            final(self)@ == spec_push(old(self)@, value as u64, Size::One),
    {
        self.register_sub_assign(RegisterId::Sp, 1);
        let address = self.sp;
        let mut bytes: Vec<u8> = Vec::new();
        bytes.push(value);
        proof {
            assert(bytes@ =~= machine::le_bytes_sized(value as u64, Size::One));
        }
        self.write(bytes.as_slice(), address);
    }

    /// Push two bytes, little-endian.
    fn push_word(&mut self, value: u16)
        ensures
            final(self)@ == spec_push(old(self)@, value as u64, Size::Two),
    {
        self.register_sub_assign(RegisterId::Sp, 2);
        let address = self.sp;
        let bytes = vstd::bytes::u16_to_le_bytes(value);
        self.write(bytes.as_slice(), address);
    }

    /// Push four bytes, little-endian.
    fn push_dword(&mut self, value: u32)
        ensures
            final(self)@ == spec_push(old(self)@, value as u64, Size::Four),
    {
        self.register_sub_assign(RegisterId::Sp, 4);
        let address = self.sp;
        let bytes = vstd::bytes::u32_to_le_bytes(value);
        self.write(bytes.as_slice(), address);
    }

    /// Push eight bytes, little-endian.
    fn push_qword(&mut self, value: u64)
        ensures
            final(self)@ == spec_push(old(self)@, value, Size::Eight),
    {
        self.register_sub_assign(RegisterId::Sp, 8);
        let address = self.sp;
        let bytes = vstd::bytes::u64_to_le_bytes(value);
        self.write(bytes.as_slice(), address);
    }

    /// Pop one byte: read it at the stack pointer, which then rises by one.
    fn pop_byte(&mut self) -> (r: u8)
        ensures
            final(self)@ == spec_pop_state(old(self)@, Size::One),
            r as u64 == spec_pop_value(old(self)@, Size::One),
    {
        let address = self.sp;
        let buf = self.read_bytes(address, 1);
        self.register_add_assign(RegisterId::Sp, 1);
        let r = buf[0];
        proof {
            assert(mem_bytes(old(self)@.mem, address, 1)[0] == mem_byte(old(self)@.mem, address));
        }
        r
    }

    /// Pop two bytes, little-endian.
    fn pop_word(&mut self) -> (r: u16)
        ensures
            final(self)@ == spec_pop_state(old(self)@, Size::Two),
            r as u64 == spec_pop_value(old(self)@, Size::Two),
    {
        let address = self.sp;
        let buf = self.read_bytes(address, 2);
        self.register_add_assign(RegisterId::Sp, 2);
        vstd::bytes::u16_from_le_bytes(buf.as_slice())
    }

    /// Pop four bytes, little-endian.
    fn pop_dword(&mut self) -> (r: u32)
        ensures
            final(self)@ == spec_pop_state(old(self)@, Size::Four),
            r as u64 == spec_pop_value(old(self)@, Size::Four),
    {
        let address = self.sp;
        let buf = self.read_bytes(address, 4);
        self.register_add_assign(RegisterId::Sp, 4);
        vstd::bytes::u32_from_le_bytes(buf.as_slice())
    }

    /// Pop eight bytes, little-endian.
    fn pop_qword(&mut self) -> (r: u64)
        ensures
            final(self)@ == spec_pop_state(old(self)@, Size::Eight),
            r == spec_pop_value(old(self)@, Size::Eight),
    {
        let address = self.sp;
        let buf = self.read_bytes(address, 8);
        self.register_add_assign(RegisterId::Sp, 8);
        vstd::bytes::u64_from_le_bytes(buf.as_slice())
    }

    /// Push the full flags word.
    fn push_flags(&mut self)
        ensures
            final(self)@ == spec_push(old(self)@, old(self)@.flags, Size::Eight),
    {
        let flags = self.flags;
        self.push_qword(flags);
    }

    /// Pop the full flags word.
    fn pop_flags(&mut self)
        ensures
            final(self)@ == (MachineView {
                flags: spec_pop_value(old(self)@, Size::Eight),
                ..spec_pop_state(old(self)@, Size::Eight)
            }),
    {
        let value = self.pop_qword();
        self.flags = value;
    }
}

impl<D: AddressBusDevice, P: PortBusDevice> Cpu<D, P> {
    /// Run one instruction: a halted CPU stands still; otherwise the
    /// opcode byte at the instruction pointer is consumed and executed,
    /// and a fault it raises dispatches through the descriptor table.
    pub fn clock(&mut self)
        ensures
            final(self)@ == machine::spec_clock(old(self)@),
    {
        if !self.halted {
            let opcode = self.fetch_byte();
            self.execute_opcode(opcode);
        }
    }

    /// Run the instruction behind one opcode; an unknown opcode raises the
    /// invalid-instruction interrupt, non-maskable like every CPU fault.
    fn execute_opcode(&mut self, opcode: u8)
        ensures
            final(self)@ == machine::spec_execute(opcode, old(self)@),
    {
        let result: InstructionResult = if opcode == machine::OPCODE_NOP {
            self.NOP()
        } else if opcode == machine::OPCODE_HLT {
            self.HLT()
        } else if opcode == machine::OPCODE_MOV {
            self.MOV()
        } else if opcode == machine::OPCODE_ADD {
            self.ADD()
        } else if opcode == machine::OPCODE_SUB {
            self.SUB()
        } else if opcode == machine::OPCODE_MUL {
            self.MUL()
        } else if opcode == machine::OPCODE_DIV {
            self.DIV()
        } else if opcode == machine::OPCODE_OR {
            self.OR()
        } else if opcode == machine::OPCODE_XOR {
            self.XOR()
        } else if opcode == machine::OPCODE_AND {
            self.AND()
        } else if opcode == machine::OPCODE_NOT {
            self.NOT()
        } else if opcode == machine::OPCODE_NEG {
            self.NEG()
        } else if opcode == machine::OPCODE_CMP {
            self.CMP()
        } else if opcode == machine::OPCODE_PUSH {
            self.PUSH()
        } else if opcode == machine::OPCODE_POP {
            self.POP()
        } else if opcode == machine::OPCODE_PUSHF {
            self.PUSHF()
        } else if opcode == machine::OPCODE_POPF {
            self.POPF()
        } else if opcode == machine::OPCODE_STR {
            self.STR()
        } else if opcode == machine::OPCODE_LDR {
            self.LDR()
        } else if opcode == machine::OPCODE_LEA {
            self.LEA()
        } else if opcode == machine::OPCODE_JMP {
            self.JMP()
        } else if opcode == machine::OPCODE_JZ {
            self.JZ()
        } else if opcode == machine::OPCODE_JNZ {
            self.JNZ()
        } else if opcode == machine::OPCODE_JO {
            self.JO()
        } else if opcode == machine::OPCODE_JNO {
            self.JNO()
        } else if opcode == machine::OPCODE_JS {
            self.JS()
        } else if opcode == machine::OPCODE_JNS {
            self.JNS()
        } else if opcode == machine::OPCODE_JC {
            self.JC()
        } else if opcode == machine::OPCODE_JNC {
            self.JNC()
        } else if opcode == machine::OPCODE_JBE {
            self.JBE()
        } else if opcode == machine::OPCODE_JA {
            self.JA()
        } else if opcode == machine::OPCODE_JL {
            self.JL()
        } else if opcode == machine::OPCODE_JGE {
            self.JGE()
        } else if opcode == machine::OPCODE_JLE {
            self.JLE()
        } else if opcode == machine::OPCODE_JG {
            self.JG()
        } else if opcode == machine::OPCODE_CALL {
            self.CALL()
        } else if opcode == machine::OPCODE_RET {
            self.RET()
        } else if opcode == machine::OPCODE_LIDT {
            self.LIDT()
        } else if opcode == machine::OPCODE_RETI {
            self.RETI()
        } else if opcode == machine::OPCODE_INT {
            self.INT()
        } else if opcode == machine::OPCODE_CLI {
            self.CLI()
        } else if opcode == machine::OPCODE_STI {
            self.STI()
        } else if opcode == machine::OPCODE_IN {
            self.IN()
        } else if opcode == machine::OPCODE_OUT {
            self.OUT()
        } else {
            Err(machine::INVALID_INSTRUCTION)
        };
        if let Err(idt_entry) = result {
            self.non_maskable_interrupt_request(idt_entry);
        }
    }

    /// Dispatch an interrupt request; honored only while interrupts are
    /// enabled.
    fn interrupt_request(&mut self, idt_entry: u8)
        ensures
            final(self)@ == (if flag_get(old(self)@.flags, CpuFlag::InterruptEnable) {
                spec_interrupt(old(self)@, idt_entry)
            } else {
                old(self)@
            }),
    {
        if self.get_flag(CpuFlag::InterruptEnable) {
            self.interrupt_handler(idt_entry);
        }
    }

    /// Dispatch an interrupt regardless of the interrupt-enable flag; the
    /// path CPU faults take.
    fn non_maskable_interrupt_request(&mut self, idt_entry: u8)
        ensures
            final(self)@ == spec_interrupt(old(self)@, idt_entry),
    {
        self.interrupt_handler(idt_entry);
    }

    /// The dispatch itself: with no descriptor table or an empty slot the
    /// CPU fail-stops into a full reset; otherwise it pushes the flags,
    /// pushes the return address and enters the handler.
    fn interrupt_handler(&mut self, idt_entry: u8)
        ensures
            final(self)@ == spec_interrupt(old(self)@, idt_entry),
    {
        if self.idt != 0 {
            let idt_entry_address = self.idt.wrapping_add((idt_entry as u64) * 8);
            let buf = self.read_bytes(idt_entry_address, 8);
            let handler_address = vstd::bytes::u64_from_le_bytes(buf.as_slice());
            if handler_address != 0 {
                self.push_flags();
                let return_ip = self.ip;
                self.push_qword(return_ip);
                self.register_assign(RegisterId::Ip, handler_address);
            } else {
                self.reset();
            }
        } else {
            self.reset();
        }
    }
}

} // verus!
