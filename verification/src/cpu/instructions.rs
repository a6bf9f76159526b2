//! The instruction set: decode helpers, the width-parameterized arithmetic
//! and flag semantics, and one method per opcode, each proved against its
//! function in `machine`.

use vstd::prelude::*;

use crate::address_bus_device::AddressBusDevice;
use crate::cpu::machine::{
    cond_holds, le_bytes_sized, mem_sized, rm_size, sign_bit, signed_add_overflows,
    signed_div_overflows, signed_mul_overflows, signed_sub_overflows, spec_alu, spec_alu_apply,
    spec_call, spec_ea_state, spec_ea_value, spec_hlt, spec_in, spec_int, spec_jump, spec_ldr,
    spec_lea, spec_lidt, spec_out, spec_pop_instr, spec_push_instr, spec_ret, spec_reti, spec_str,
    spec_unary, truncate, unsigned_div_overflows, unsigned_mul_overflows, AluOp, CpuFlag, JumpKind,
    UnaryOp, DIVIDE_BY_ZERO, INVALID_INSTRUCTION,
};
use crate::cpu::register_id::RegisterId;
use crate::cpu::size::Size;
use crate::cpu::{Cpu, InstructionResult};
use crate::port_bus_device::PortBusDevice;

verus! {

/// The sign bit of `value` at the given width.
fn get_sign_bit(value: u64, size: Size) -> (r: bool)
    ensures
        r == sign_bit(value, size),
{
    match size {
        Size::One => (value >> 7) & 1 == 1,
        Size::Two => (value >> 15) & 1 == 1,
        Size::Four => (value >> 31) & 1 == 1,
        Size::Eight => (value >> 63) & 1 == 1,
    }
}

/// `value` truncated to the given width, zero-extended back to 64 bits.
fn truncate_value(value: u64, size: Size) -> (r: u64)
    ensures
        r == truncate(value, size),
{
    match size {
        Size::One => value as u8 as u64,
        Size::Two => value as u16 as u64,
        Size::Four => value as u32 as u64,
        Size::Eight => value,
    }
}

/// Whether adding the operands' signed lanes overflows the width.
fn does_signed_add_overflow(lhs: u64, rhs: u64, size: Size) -> (r: bool)
    ensures
        r == signed_add_overflows(lhs, rhs, size),
{
    match size {
        Size::One => (lhs as i8).checked_add(rhs as i8).is_none(),
        Size::Two => (lhs as i16).checked_add(rhs as i16).is_none(),
        Size::Four => (lhs as i32).checked_add(rhs as i32).is_none(),
        Size::Eight => (lhs as i64).checked_add(rhs as i64).is_none(),
    }
}

/// Whether subtracting the operands' signed lanes overflows the width.
fn does_signed_sub_overflow(lhs: u64, rhs: u64, size: Size) -> (r: bool)
    ensures
        r == signed_sub_overflows(lhs, rhs, size),
{
    match size {
        Size::One => (lhs as i8).checked_sub(rhs as i8).is_none(),
        Size::Two => (lhs as i16).checked_sub(rhs as i16).is_none(),
        Size::Four => (lhs as i32).checked_sub(rhs as i32).is_none(),
        Size::Eight => (lhs as i64).checked_sub(rhs as i64).is_none(),
    }
}

/// Whether multiplying the operands' signed lanes overflows the width.
fn does_signed_mul_overflow(lhs: u64, rhs: u64, size: Size) -> (r: bool)
    ensures
        r == signed_mul_overflows(lhs, rhs, size),
{
    match size {
        Size::One => (lhs as i8).checked_mul(rhs as i8).is_none(),
        Size::Two => (lhs as i16).checked_mul(rhs as i16).is_none(),
        Size::Four => (lhs as i32).checked_mul(rhs as i32).is_none(),
        Size::Eight => (lhs as i64).checked_mul(rhs as i64).is_none(),
    }
}

/// Whether multiplying the operands' unsigned lanes overflows the width.
fn does_unsigned_mul_overflow(lhs: u64, rhs: u64, size: Size) -> (r: bool)
    ensures
        r == unsigned_mul_overflows(lhs, rhs, size),
{
    match size {
        Size::One => (lhs as u8).checked_mul(rhs as u8).is_none(),
        Size::Two => (lhs as u16).checked_mul(rhs as u16).is_none(),
        Size::Four => (lhs as u32).checked_mul(rhs as u32).is_none(),
        Size::Eight => lhs.checked_mul(rhs).is_none(),
    }
}

/// Whether dividing the operands' signed lanes has no result at the
/// width: the divisor lane is zero, or the quotient overflows.
fn does_signed_div_overflow(lhs: u64, rhs: u64, size: Size) -> (r: bool)
    ensures
        r == signed_div_overflows(lhs, rhs, size),
{
    match size {
        Size::One => (rhs as i8) == 0 || ((lhs as i8) == i8::MIN && (rhs as i8) == -1),
        Size::Two => (rhs as i16) == 0 || ((lhs as i16) == i16::MIN && (rhs as i16) == -1),
        Size::Four => (rhs as i32) == 0 || ((lhs as i32) == i32::MIN && (rhs as i32) == -1),
        Size::Eight => (rhs as i64) == 0 || ((lhs as i64) == i64::MIN && (rhs as i64) == -1),
    }
}

/// Whether dividing the operands' unsigned lanes has no result at the
/// width: exactly when the divisor lane is zero.
fn does_unsigned_div_overflow(lhs: u64, rhs: u64, size: Size) -> (r: bool)
    ensures
        r == unsigned_div_overflows(rhs, size),
{
    match size {
        Size::One => (lhs as u8).checked_div(rhs as u8).is_none(),
        Size::Two => (lhs as u16).checked_div(rhs as u16).is_none(),
        Size::Four => (lhs as u32).checked_div(rhs as u32).is_none(),
        Size::Eight => lhs.checked_div(rhs).is_none(),
    }
}

/// The operand width an RM byte selects in its two high bits.
fn decode_size(b: u8) -> (r: Size)
    ensures
        r == rm_size(b),
{
    let sel = (b >> 6) & 0x03;
    if sel == 0 {
        Size::One
    } else if sel == 1 {
        Size::Two
    } else if sel == 2 {
        Size::Four
    } else {
        Size::Eight
    }
}

/// The effective address of a memory-addressing instruction: one
/// addressing byte, one 64-bit displacement, base plus index plus
/// displacement with wrapping addition.
fn get_effective_address<D: AddressBusDevice, P: PortBusDevice>(cpu: &mut Cpu<D, P>) -> (a: u64)
    ensures
        final(cpu)@ == spec_ea_state(old(cpu)@),
        a == spec_ea_value(old(cpu)@),
{
    let fetched_byte = cpu.fetch_byte();
    let const_offset = cpu.fetch_qword();
    let base_value = match RegisterId::from_u8(fetched_byte & 0b111) {
        Some(base_id) => cpu.register(base_id),
        None => 0,
    };
    let index_value = match RegisterId::from_u8((fetched_byte >> 3) & 0b111) {
        Some(index_id) => cpu.register(index_id),
        None => 0,
    };
    base_value.wrapping_add(index_value).wrapping_add(const_offset)
}

impl<D: AddressBusDevice, P: PortBusDevice> Cpu<D, P> {
    /// The bytes of a little-endian value of the chosen width, read
    /// through the bus.
    fn read_sized(&mut self, address: u64, size: Size) -> (r: u64)
        ensures
            final(self)@ == old(self)@,
            r == mem_sized(old(self)@.mem, address, size),
    {
        match size {
            Size::One => {
                let buf = self.read_bytes(address, 1);
                let r = buf[0] as u64;
                proof {
                    assert(crate::cpu::machine::mem_bytes(old(self)@.mem, address, 1)[0]
                        == crate::cpu::machine::mem_byte(old(self)@.mem, address));
                }
                r
            },
            Size::Two => {
                let buf = self.read_bytes(address, 2);
                vstd::bytes::u16_from_le_bytes(buf.as_slice()) as u64
            },
            Size::Four => {
                let buf = self.read_bytes(address, 4);
                vstd::bytes::u32_from_le_bytes(buf.as_slice()) as u64
            },
            Size::Eight => {
                let buf = self.read_bytes(address, 8);
                vstd::bytes::u64_from_le_bytes(buf.as_slice())
            },
        }
    }

    /// The low `size` bytes of `value`, little-endian, as a buffer for the
    /// bus.
    fn le_bytes_of(value: u64, size: Size) -> (r: Vec<u8>)
        ensures
            r@ == le_bytes_sized(value, size),
    {
        match size {
            Size::One => {
                let mut bytes: Vec<u8> = Vec::new();
                bytes.push(value as u8);
                proof {
                    assert(bytes@ =~= le_bytes_sized(value, Size::One));
                }
                bytes
            },
            Size::Two => vstd::bytes::u16_to_le_bytes(value as u16),
            Size::Four => vstd::bytes::u32_to_le_bytes(value as u32),
            Size::Eight => vstd::bytes::u64_to_le_bytes(value),
        }
    }

    /// Decode and run one two-operand instruction.
    fn alu_op(&mut self, op: AluOp) -> (r: InstructionResult)
        ensures
            final(self)@ == spec_alu(old(self)@, op).0,
            r == spec_alu(old(self)@, op).1,
    {
        let fetched_byte = self.fetch_byte();
        let dst_id: RegisterId = match RegisterId::from_u8((fetched_byte >> 3) & 0b111) {
            Some(reg_id) => reg_id,
            None => {
                return Err(INVALID_INSTRUCTION);
            },
        };
        let size = decode_size(fetched_byte);
        let rhs_value: u64 = match RegisterId::from_u8(fetched_byte & 0b111) {
            Some(src_id) => self.register(src_id),
            None => self.fetch_sized(size),
        };
        self.alu_apply(op, dst_id, rhs_value, size)
    }

    /// Apply one two-operand instruction to operands that stand ready.
    #[verifier::rlimit(60)]
    #[verifier::spinoff_prover]
    fn alu_apply(&mut self, op: AluOp, dst_id: RegisterId, rhs_value: u64, size: Size) -> (r:
        InstructionResult)
        ensures
            final(self)@ == spec_alu_apply(old(self)@, op, dst_id, rhs_value, size).0,
            r == spec_alu_apply(old(self)@, op, dst_id, rhs_value, size).1,
    {
        match op {
            AluOp::Mov => {
                self.register_assign_sized(dst_id, rhs_value, size);
                Ok(())
            },
            AluOp::Add => {
                let lhs = self.register(dst_id);
                let result = lhs.wrapping_add(rhs_value);
                self.set_flag(CpuFlag::Zero, truncate_value(result, size) == 0);
                self.set_flag(CpuFlag::Negative, get_sign_bit(result, size));
                self.set_flag(
                    CpuFlag::Carry,
                    truncate_value(lhs, size) > truncate_value(result, size),
                );
                self.set_flag(
                    CpuFlag::Overflow,
                    does_signed_add_overflow(lhs, rhs_value, size),
                );
                self.register_assign_sized(dst_id, result, size);
                Ok(())
            },
            AluOp::Sub => {
                let lhs = self.register(dst_id);
                let result = lhs.wrapping_sub(rhs_value);
                self.set_flag(CpuFlag::Zero, truncate_value(result, size) == 0);
                self.set_flag(CpuFlag::Negative, get_sign_bit(result, size));
                self.set_flag(
                    CpuFlag::Carry,
                    truncate_value(lhs, size) < truncate_value(result, size),
                );
                self.set_flag(
                    CpuFlag::Overflow,
                    does_signed_sub_overflow(lhs, rhs_value, size),
                );
                self.register_assign_sized(dst_id, result, size);
                Ok(())
            },
            AluOp::Mul => {
                let lhs = self.register(dst_id);
                let result = lhs.wrapping_mul(rhs_value);
                self.set_flag(CpuFlag::Zero, truncate_value(result, size) == 0);
                self.set_flag(CpuFlag::Negative, get_sign_bit(result, size));
                self.set_flag(
                    CpuFlag::Carry,
                    does_unsigned_mul_overflow(lhs, rhs_value, size),
                );
                self.set_flag(
                    CpuFlag::Overflow,
                    does_signed_mul_overflow(lhs, rhs_value, size),
                );
                self.register_assign_sized(dst_id, result, size);
                Ok(())
            },
            AluOp::Div => {
                let lane_rhs = truncate_value(rhs_value, size);
                if lane_rhs == 0 {
                    return Err(DIVIDE_BY_ZERO);
                }
                let lhs = self.register(dst_id);
                let result = truncate_value(lhs, size) / lane_rhs;
                self.set_flag(CpuFlag::Zero, truncate_value(result, size) == 0);
                self.set_flag(CpuFlag::Negative, get_sign_bit(result, size));
                self.set_flag(
                    CpuFlag::Carry,
                    does_unsigned_div_overflow(lhs, rhs_value, size),
                );
                self.register_assign_sized(dst_id, result, size);
                Ok(())
            },
            AluOp::Or => {
                let lhs = self.register(dst_id);
                let result = lhs | rhs_value;
                self.set_flag(CpuFlag::Zero, truncate_value(result, size) == 0);
                self.set_flag(CpuFlag::Negative, get_sign_bit(result, size));
                self.register_assign_sized(dst_id, result, size);
                Ok(())
            },
            AluOp::Xor => {
                let lhs = self.register(dst_id);
                let result = lhs ^ rhs_value;
                self.set_flag(CpuFlag::Zero, truncate_value(result, size) == 0);
                self.set_flag(CpuFlag::Negative, get_sign_bit(result, size));
                self.register_assign_sized(dst_id, result, size);
                Ok(())
            },
            AluOp::And => {
                let lhs = self.register(dst_id);
                let result = lhs & rhs_value;
                self.set_flag(CpuFlag::Zero, truncate_value(result, size) == 0);
                self.set_flag(CpuFlag::Negative, get_sign_bit(result, size));
                self.register_assign_sized(dst_id, result, size);
                Ok(())
            },
            AluOp::Cmp => {
                let lhs = self.register(dst_id);
                let result = lhs.wrapping_sub(rhs_value);
                self.set_flag(CpuFlag::Zero, truncate_value(result, size) == 0);
                self.set_flag(CpuFlag::Negative, get_sign_bit(result, size));
                self.set_flag(
                    CpuFlag::Carry,
                    truncate_value(lhs, size) < truncate_value(result, size),
                );
                self.set_flag(
                    CpuFlag::Overflow,
                    does_signed_sub_overflow(lhs, rhs_value, size),
                );
                Ok(())
            },
        }
    }

    /// Decode and run NOT or NEG.
    fn unary_op(&mut self, op: UnaryOp) -> (r: InstructionResult)
        ensures
            final(self)@ == spec_unary(old(self)@, op).0,
            r == spec_unary(old(self)@, op).1,
    {
        let fetched_byte = self.fetch_byte();
        let dst_id: RegisterId = match RegisterId::from_u8(fetched_byte & 0b111) {
            Some(reg_id) => reg_id,
            None => {
                return Err(INVALID_INSTRUCTION);
            },
        };
        let size = decode_size(fetched_byte);
        let lhs = self.register(dst_id);
        let result = match op {
            UnaryOp::Not => !lhs,
            UnaryOp::Neg => 0u64.wrapping_sub(lhs),
        };
        self.set_flag(CpuFlag::Zero, truncate_value(result, size) == 0);
        self.set_flag(CpuFlag::Negative, get_sign_bit(result, size));
        self.register_assign_sized(dst_id, result, size);
        Ok(())
    }

    /// Whether the flags satisfy a branch condition.
    fn condition_holds(&self, kind: JumpKind) -> (r: bool)
        ensures
            r == cond_holds(self@.flags, kind),
    {
        match kind {
            JumpKind::Always => true,
            JumpKind::Zero => self.get_flag(CpuFlag::Zero),
            JumpKind::NotZero => !self.get_flag(CpuFlag::Zero),
            JumpKind::Overflow => self.get_flag(CpuFlag::Overflow),
            JumpKind::NotOverflow => !self.get_flag(CpuFlag::Overflow),
            JumpKind::Sign => self.get_flag(CpuFlag::Negative),
            JumpKind::NotSign => !self.get_flag(CpuFlag::Negative),
            JumpKind::Carry => self.get_flag(CpuFlag::Carry),
            JumpKind::NotCarry => !self.get_flag(CpuFlag::Carry),
            JumpKind::BelowOrEqual => self.get_flag(CpuFlag::Carry) || self.get_flag(CpuFlag::Zero),
            JumpKind::Above => !self.get_flag(CpuFlag::Carry) || !self.get_flag(CpuFlag::Zero),
            JumpKind::Less => self.get_flag(CpuFlag::Negative) != self.get_flag(CpuFlag::Overflow),
            JumpKind::GreaterOrEqual => self.get_flag(CpuFlag::Negative) == self.get_flag(
                CpuFlag::Overflow,
            ),
            JumpKind::LessOrEqual => self.get_flag(CpuFlag::Zero) || self.get_flag(
                CpuFlag::Negative,
            ) != self.get_flag(CpuFlag::Overflow),
            JumpKind::Greater => !self.get_flag(CpuFlag::Zero) && self.get_flag(CpuFlag::Negative)
                == self.get_flag(CpuFlag::Overflow),
        }
    }

    /// Decode and run one branch.
    fn jump_op(&mut self, kind: JumpKind) -> (r: InstructionResult)
        ensures
            final(self)@ == spec_jump(old(self)@, kind),
            r == Ok::<(), u8>(()),
    {
        let address = get_effective_address(self);
        if self.condition_holds(kind) {
            self.register_assign(RegisterId::Ip, address);
        }
        Ok(())
    }
}

#[allow(non_snake_case)]
impl<D: AddressBusDevice, P: PortBusDevice> Cpu<D, P> {
    pub(super) fn HLT(&mut self) -> (r: InstructionResult)
        ensures
            final(self)@ == spec_hlt(old(self)@),
            r == Ok::<(), u8>(()),
    {
        self.halt();
        Ok(())
    }

    pub(super) fn MOV(&mut self) -> (r: InstructionResult)
        ensures
            final(self)@ == spec_alu(old(self)@, AluOp::Mov).0,
            r == spec_alu(old(self)@, AluOp::Mov).1,
    {
        self.alu_op(AluOp::Mov)
    }

    pub(super) fn ADD(&mut self) -> (r: InstructionResult)
        ensures
            final(self)@ == spec_alu(old(self)@, AluOp::Add).0,
            r == spec_alu(old(self)@, AluOp::Add).1,
    {
        self.alu_op(AluOp::Add)
    }

    pub(super) fn SUB(&mut self) -> (r: InstructionResult)
        ensures
            final(self)@ == spec_alu(old(self)@, AluOp::Sub).0,
            r == spec_alu(old(self)@, AluOp::Sub).1,
    {
        self.alu_op(AluOp::Sub)
    }

    pub(super) fn MUL(&mut self) -> (r: InstructionResult)
        ensures
            final(self)@ == spec_alu(old(self)@, AluOp::Mul).0,
            r == spec_alu(old(self)@, AluOp::Mul).1,
    {
        self.alu_op(AluOp::Mul)
    }

    pub(super) fn DIV(&mut self) -> (r: InstructionResult)
        ensures
            final(self)@ == spec_alu(old(self)@, AluOp::Div).0,
            r == spec_alu(old(self)@, AluOp::Div).1,
    {
        self.alu_op(AluOp::Div)
    }

    pub(super) fn OR(&mut self) -> (r: InstructionResult)
        ensures
            final(self)@ == spec_alu(old(self)@, AluOp::Or).0,
            r == spec_alu(old(self)@, AluOp::Or).1,
    {
        self.alu_op(AluOp::Or)
    }

    pub(super) fn XOR(&mut self) -> (r: InstructionResult)
        ensures
            final(self)@ == spec_alu(old(self)@, AluOp::Xor).0,
            r == spec_alu(old(self)@, AluOp::Xor).1,
    {
        self.alu_op(AluOp::Xor)
    }

    pub(super) fn AND(&mut self) -> (r: InstructionResult)
        ensures
            final(self)@ == spec_alu(old(self)@, AluOp::And).0,
            r == spec_alu(old(self)@, AluOp::And).1,
    {
        self.alu_op(AluOp::And)
    }

    pub(super) fn NOT(&mut self) -> (r: InstructionResult)
        ensures
            final(self)@ == spec_unary(old(self)@, UnaryOp::Not).0,
            r == spec_unary(old(self)@, UnaryOp::Not).1,
    {
        self.unary_op(UnaryOp::Not)
    }

    pub(super) fn NEG(&mut self) -> (r: InstructionResult)
        ensures
            final(self)@ == spec_unary(old(self)@, UnaryOp::Neg).0,
            r == spec_unary(old(self)@, UnaryOp::Neg).1,
    {
        self.unary_op(UnaryOp::Neg)
    }

    pub(super) fn CMP(&mut self) -> (r: InstructionResult)
        ensures
            final(self)@ == spec_alu(old(self)@, AluOp::Cmp).0,
            r == spec_alu(old(self)@, AluOp::Cmp).1,
    {
        self.alu_op(AluOp::Cmp)
    }

    pub(super) fn PUSH(&mut self) -> (r: InstructionResult)
        ensures
            final(self)@ == spec_push_instr(old(self)@).0,
            r == spec_push_instr(old(self)@).1,
    {
        let fetched_byte = self.fetch_byte();
        let src_id: RegisterId = match RegisterId::from_u8(fetched_byte & 0b111) {
            Some(reg_id) => reg_id,
            None => {
                return Err(INVALID_INSTRUCTION);
            },
        };
        let value = self.register(src_id);
        self.push_qword(value);
        Ok(())
    }

    pub(super) fn POP(&mut self) -> (r: InstructionResult)
        ensures
            final(self)@ == spec_pop_instr(old(self)@).0,
            r == spec_pop_instr(old(self)@).1,
    {
        let fetched_byte = self.fetch_byte();
        let dst_id: RegisterId = match RegisterId::from_u8(fetched_byte & 0b111) {
            Some(reg_id) => reg_id,
            None => {
                return Err(INVALID_INSTRUCTION);
            },
        };
        let popped = self.pop_qword();
        self.register_assign(dst_id, popped);
        Ok(())
    }

    pub(super) fn PUSHF(&mut self) -> (r: InstructionResult)
        ensures
            final(self)@ == crate::cpu::machine::spec_push(
                old(self)@,
                old(self)@.flags,
                Size::Eight,
            ),
            r == Ok::<(), u8>(()),
    {
        self.push_flags();
        Ok(())
    }

    pub(super) fn POPF(&mut self) -> (r: InstructionResult)
        ensures
            final(self)@ == (crate::cpu::machine::MachineView {
                flags: crate::cpu::machine::spec_pop_value(old(self)@, Size::Eight),
                ..crate::cpu::machine::spec_pop_state(old(self)@, Size::Eight)
            }),
            r == Ok::<(), u8>(()),
    {
        self.pop_flags();
        Ok(())
    }

    pub(super) fn STR(&mut self) -> (r: InstructionResult)
        ensures
            final(self)@ == spec_str(old(self)@).0,
            r == spec_str(old(self)@).1,
    {
        let fetched_byte = self.fetch_byte();
        let src_id: RegisterId = match RegisterId::from_u8(fetched_byte & 0b111) {
            Some(reg_id) => reg_id,
            None => {
                return Err(INVALID_INSTRUCTION);
            },
        };
        let size = decode_size(fetched_byte);
        let address = get_effective_address(self);
        let value = self.register(src_id);
        let bytes = Self::le_bytes_of(value, size);
        self.write(bytes.as_slice(), address);
        Ok(())
    }

    pub(super) fn LDR(&mut self) -> (r: InstructionResult)
        ensures
            final(self)@ == spec_ldr(old(self)@).0,
            r == spec_ldr(old(self)@).1,
    {
        let fetched_byte = self.fetch_byte();
        let dst_id: RegisterId = match RegisterId::from_u8(fetched_byte & 0b111) {
            Some(reg_id) => reg_id,
            None => {
                return Err(INVALID_INSTRUCTION);
            },
        };
        let size = decode_size(fetched_byte);
        let address = get_effective_address(self);
        let value = self.read_sized(address, size);
        self.register_assign_sized(dst_id, value, size);
        Ok(())
    }

    pub(super) fn LEA(&mut self) -> (r: InstructionResult)
        ensures
            final(self)@ == spec_lea(old(self)@).0,
            r == spec_lea(old(self)@).1,
    {
        let fetched_byte = self.fetch_byte();
        let dst_id: RegisterId = match RegisterId::from_u8(fetched_byte & 0b111) {
            Some(reg_id) => reg_id,
            None => {
                return Err(INVALID_INSTRUCTION);
            },
        };
        let size = decode_size(fetched_byte);
        let address = get_effective_address(self);
        self.register_assign_sized(dst_id, address, size);
        Ok(())
    }

    pub(super) fn JMP(&mut self) -> (r: InstructionResult)
        ensures
            final(self)@ == spec_jump(old(self)@, JumpKind::Always),
            r == Ok::<(), u8>(()),
    {
        self.jump_op(JumpKind::Always)
    }

    pub(super) fn JZ(&mut self) -> (r: InstructionResult)
        ensures
            final(self)@ == spec_jump(old(self)@, JumpKind::Zero),
            r == Ok::<(), u8>(()),
    {
        self.jump_op(JumpKind::Zero)
    }

    pub(super) fn JNZ(&mut self) -> (r: InstructionResult)
        ensures
            final(self)@ == spec_jump(old(self)@, JumpKind::NotZero),
            r == Ok::<(), u8>(()),
    {
        self.jump_op(JumpKind::NotZero)
    }

    pub(super) fn JO(&mut self) -> (r: InstructionResult)
        ensures
            final(self)@ == spec_jump(old(self)@, JumpKind::Overflow),
            r == Ok::<(), u8>(()),
    {
        self.jump_op(JumpKind::Overflow)
    }

    pub(super) fn JNO(&mut self) -> (r: InstructionResult)
        ensures
            final(self)@ == spec_jump(old(self)@, JumpKind::NotOverflow),
            r == Ok::<(), u8>(()),
    {
        self.jump_op(JumpKind::NotOverflow)
    }

    pub(super) fn JS(&mut self) -> (r: InstructionResult)
        ensures
            final(self)@ == spec_jump(old(self)@, JumpKind::Sign),
            r == Ok::<(), u8>(()),
    {
        self.jump_op(JumpKind::Sign)
    }

    pub(super) fn JNS(&mut self) -> (r: InstructionResult)
        ensures
            final(self)@ == spec_jump(old(self)@, JumpKind::NotSign),
            r == Ok::<(), u8>(()),
    {
        self.jump_op(JumpKind::NotSign)
    }

    pub(super) fn JC(&mut self) -> (r: InstructionResult)
        ensures
            final(self)@ == spec_jump(old(self)@, JumpKind::Carry),
            r == Ok::<(), u8>(()),
    {
        self.jump_op(JumpKind::Carry)
    }

    pub(super) fn JNC(&mut self) -> (r: InstructionResult)
        ensures
            final(self)@ == spec_jump(old(self)@, JumpKind::NotCarry),
            r == Ok::<(), u8>(()),
    {
        self.jump_op(JumpKind::NotCarry)
    }

    pub(super) fn JBE(&mut self) -> (r: InstructionResult)
        ensures
            final(self)@ == spec_jump(old(self)@, JumpKind::BelowOrEqual),
            r == Ok::<(), u8>(()),
    {
        self.jump_op(JumpKind::BelowOrEqual)
    }

    pub(super) fn JA(&mut self) -> (r: InstructionResult)
        ensures
            final(self)@ == spec_jump(old(self)@, JumpKind::Above),
            r == Ok::<(), u8>(()),
    {
        self.jump_op(JumpKind::Above)
    }

    pub(super) fn JL(&mut self) -> (r: InstructionResult)
        ensures
            final(self)@ == spec_jump(old(self)@, JumpKind::Less),
            r == Ok::<(), u8>(()),
    {
        self.jump_op(JumpKind::Less)
    }

    pub(super) fn JGE(&mut self) -> (r: InstructionResult)
        ensures
            final(self)@ == spec_jump(old(self)@, JumpKind::GreaterOrEqual),
            r == Ok::<(), u8>(()),
    {
        self.jump_op(JumpKind::GreaterOrEqual)
    }

    pub(super) fn JLE(&mut self) -> (r: InstructionResult)
        ensures
            final(self)@ == spec_jump(old(self)@, JumpKind::LessOrEqual),
            r == Ok::<(), u8>(()),
    {
        self.jump_op(JumpKind::LessOrEqual)
    }

    pub(super) fn JG(&mut self) -> (r: InstructionResult)
        ensures
            final(self)@ == spec_jump(old(self)@, JumpKind::Greater),
            r == Ok::<(), u8>(()),
    {
        self.jump_op(JumpKind::Greater)
    }

    pub(super) fn CALL(&mut self) -> (r: InstructionResult)
        ensures
            final(self)@ == spec_call(old(self)@),
            r == Ok::<(), u8>(()),
    {
        let address = get_effective_address(self);
        let return_ip = self.register(RegisterId::Ip);
        self.push_qword(return_ip);
        self.register_assign(RegisterId::Ip, address);
        Ok(())
    }

    pub(super) fn RET(&mut self) -> (r: InstructionResult)
        ensures
            final(self)@ == spec_ret(old(self)@),
            r == Ok::<(), u8>(()),
    {
        let return_address = self.pop_qword();
        self.register_assign(RegisterId::Ip, return_address);
        Ok(())
    }

    pub(super) fn LIDT(&mut self) -> (r: InstructionResult)
        ensures
            final(self)@ == spec_lidt(old(self)@),
            r == Ok::<(), u8>(()),
    {
        let address = get_effective_address(self);
        self.set_idt(address);
        Ok(())
    }

    pub(super) fn RETI(&mut self) -> (r: InstructionResult)
        ensures
            final(self)@ == spec_reti(old(self)@),
            r == Ok::<(), u8>(()),
    {
        let address = self.pop_qword();
        self.pop_flags();
        self.register_assign(RegisterId::Ip, address);
        Ok(())
    }

    pub(super) fn INT(&mut self) -> (r: InstructionResult)
        ensures
            final(self)@ == spec_int(old(self)@),
            r == Ok::<(), u8>(()),
    {
        let idt_entry = self.fetch_byte();
        self.interrupt_request(idt_entry);
        Ok(())
    }

    pub(super) fn CLI(&mut self) -> (r: InstructionResult)
        ensures
            final(self)@ == (crate::cpu::machine::MachineView {
                flags: crate::cpu::machine::flag_set(
                    old(self)@.flags,
                    CpuFlag::InterruptEnable,
                    false,
                ),
                ..old(self)@
            }),
            r == Ok::<(), u8>(()),
    {
        self.set_flag(CpuFlag::InterruptEnable, false);
        Ok(())
    }

    pub(super) fn STI(&mut self) -> (r: InstructionResult)
        ensures
            final(self)@ == (crate::cpu::machine::MachineView {
                flags: crate::cpu::machine::flag_set(
                    old(self)@.flags,
                    CpuFlag::InterruptEnable,
                    true,
                ),
                ..old(self)@
            }),
            r == Ok::<(), u8>(()),
    {
        self.set_flag(CpuFlag::InterruptEnable, true);
        Ok(())
    }

    pub(super) fn IN(&mut self) -> (r: InstructionResult)
        ensures
            final(self)@ == spec_in(old(self)@).0,
            r == spec_in(old(self)@).1,
    {
        let fetched_byte = self.fetch_byte();
        let dst_id: RegisterId = match RegisterId::from_u8(fetched_byte & 0b111) {
            Some(reg_id) => reg_id,
            None => {
                return Err(INVALID_INSTRUCTION);
            },
        };
        let port = self.fetch_word();
        let value = self.port_bus_read(port);
        self.register_assign(dst_id, value);
        Ok(())
    }

    pub(super) fn OUT(&mut self) -> (r: InstructionResult)
        ensures
            final(self)@ == spec_out(old(self)@).0,
            r == spec_out(old(self)@).1,
    {
        let fetched_byte = self.fetch_byte();
        let src_id: RegisterId = match RegisterId::from_u8(fetched_byte & 0b111) {
            Some(reg_id) => reg_id,
            None => {
                return Err(INVALID_INSTRUCTION);
            },
        };
        let port = self.fetch_word();
        let value = self.register(src_id);
        self.port_bus_write(port, value);
        Ok(())
    }

    pub(super) fn NOP(&mut self) -> (r: InstructionResult)
        ensures
            final(self)@ == old(self)@,
            r == Ok::<(), u8>(()),
    {
        Ok(())
    }
}

} // verus!
