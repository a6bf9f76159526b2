//! The machine model: what one step of the CPU does, stated over a ghost
//! view of the whole machine. Every executable piece of the CPU is proved
//! against the functions of this module.

use vstd::bytes::{
    spec_u16_from_le_bytes, spec_u16_to_le_bytes, spec_u32_from_le_bytes, spec_u32_to_le_bytes,
    spec_u64_from_le_bytes, spec_u64_to_le_bytes,
};
use vstd::prelude::*;

use crate::address_bus::write_bytes;
use crate::cpu::register_id::{spec_register_from_u8, RegisterId};
use crate::cpu::size::Size;
use crate::port_bus::FLOATING_PORT;

verus! {

/// The interrupt vector a division by zero raises.
pub const DIVIDE_BY_ZERO: u8 = 0;

/// The interrupt vector an unknown or ill-formed instruction raises.
pub const INVALID_INSTRUCTION: u8 = 1;

pub const OPCODE_NOP: u8 = 0x00;

pub const OPCODE_HLT: u8 = 0x01;

pub const OPCODE_MOV: u8 = 0x02;

pub const OPCODE_ADD: u8 = 0x03;

pub const OPCODE_SUB: u8 = 0x04;

pub const OPCODE_MUL: u8 = 0x05;

pub const OPCODE_DIV: u8 = 0x06;

pub const OPCODE_OR: u8 = 0x07;

pub const OPCODE_XOR: u8 = 0x08;

pub const OPCODE_AND: u8 = 0x09;

pub const OPCODE_NOT: u8 = 0x0a;

pub const OPCODE_NEG: u8 = 0x0b;

pub const OPCODE_CMP: u8 = 0x0c;

pub const OPCODE_PUSH: u8 = 0x0d;

pub const OPCODE_POP: u8 = 0x0e;

pub const OPCODE_PUSHF: u8 = 0x0f;

pub const OPCODE_POPF: u8 = 0x10;

pub const OPCODE_STR: u8 = 0x11;

pub const OPCODE_LDR: u8 = 0x12;

pub const OPCODE_LEA: u8 = 0x13;

pub const OPCODE_JMP: u8 = 0x14;

pub const OPCODE_JZ: u8 = 0x15;

pub const OPCODE_JNZ: u8 = 0x16;

pub const OPCODE_JO: u8 = 0x17;

pub const OPCODE_JNO: u8 = 0x18;

pub const OPCODE_JS: u8 = 0x19;

pub const OPCODE_JNS: u8 = 0x1a;

pub const OPCODE_JC: u8 = 0x1b;

pub const OPCODE_JNC: u8 = 0x1c;

pub const OPCODE_JBE: u8 = 0x1d;

pub const OPCODE_JA: u8 = 0x1e;

pub const OPCODE_JL: u8 = 0x1f;

pub const OPCODE_JGE: u8 = 0x20;

pub const OPCODE_JLE: u8 = 0x21;

pub const OPCODE_JG: u8 = 0x22;

pub const OPCODE_CALL: u8 = 0x23;

pub const OPCODE_RET: u8 = 0x24;

pub const OPCODE_LIDT: u8 = 0x25;

pub const OPCODE_RETI: u8 = 0x26;

pub const OPCODE_INT: u8 = 0x27;

pub const OPCODE_CLI: u8 = 0x28;

pub const OPCODE_STI: u8 = 0x29;

pub const OPCODE_IN: u8 = 0x2a;

pub const OPCODE_OUT: u8 = 0x2b;

/// The whole machine at one instant: registers, flags, the interrupt
/// descriptor table base, the halt latch, every mapped memory byte and
/// every mapped port's value.
#[verifier::ext_equal]
pub struct MachineView {
    pub x0: u64,
    pub x1: u64,
    pub x2: u64,
    pub x3: u64,
    pub x4: u64,
    pub sp: u64,
    pub ip: u64,
    pub flags: u64,
    pub idt: u64,
    pub halted: bool,
    pub mem: Map<u64, u8>,
    pub ports: Map<u16, u64>,
}

/// One bit of the flags register, indexed from the least significant bit.
#[derive(Debug, Clone, Copy, PartialEq, Eq, Structural)]
pub enum CpuFlag {
    Negative,
    Overflow,
    Zero,
    Carry,
    InterruptEnable,
}

/// The bit position of a flag in the flags word.
pub open spec fn flag_bit(flag: CpuFlag) -> u64 {
    match flag {
        CpuFlag::Negative => 0,
        CpuFlag::Overflow => 1,
        CpuFlag::Zero => 2,
        CpuFlag::Carry => 3,
        CpuFlag::InterruptEnable => 4,
    }
}

/// Whether `flag` is set in the flags word.
pub open spec fn flag_get(flags: u64, flag: CpuFlag) -> bool {
    (flags >> flag_bit(flag)) & 1 == 1
}

/// The flags word with `flag` forced to `value` and every other bit kept.
pub open spec fn flag_set(flags: u64, flag: CpuFlag, value: bool) -> u64 {
    if value {
        flags | (1u64 << flag_bit(flag))
    } else {
        flags & !(1u64 << flag_bit(flag))
    }
}

/// The value of a register.
pub open spec fn reg(s: MachineView, id: RegisterId) -> u64 {
    match id {
        RegisterId::X0 => s.x0,
        RegisterId::X1 => s.x1,
        RegisterId::X2 => s.x2,
        RegisterId::X3 => s.x3,
        RegisterId::X4 => s.x4,
        RegisterId::Sp => s.sp,
        RegisterId::Ip => s.ip,
    }
}

/// The machine with one register replaced.
pub open spec fn with_reg(s: MachineView, id: RegisterId, v: u64) -> MachineView {
    match id {
        RegisterId::X0 => MachineView { x0: v, ..s },
        RegisterId::X1 => MachineView { x1: v, ..s },
        RegisterId::X2 => MachineView { x2: v, ..s },
        RegisterId::X3 => MachineView { x3: v, ..s },
        RegisterId::X4 => MachineView { x4: v, ..s },
        RegisterId::Sp => MachineView { sp: v, ..s },
        RegisterId::Ip => MachineView { ip: v, ..s },
    }
}

/// The machine with the instruction pointer replaced.
pub open spec fn with_ip(s: MachineView, ip: u64) -> MachineView {
    MachineView { ip, ..s }
}

/// The machine after `n` instruction bytes were consumed.
pub open spec fn fetch_advance(s: MachineView, n: u64) -> MachineView {
    with_ip(s, s.ip.wrapping_add(n))
}

/// The byte the CPU sees at address `a`: the mapped byte, or 0 off any
/// device, the CPU's zeroed scratch buffer shining through.
pub open spec fn mem_byte(m: Map<u64, u8>, a: u64) -> u8 {
    if m.dom().contains(a) {
        m[a]
    } else {
        0
    }
}

/// The `n` bytes the CPU sees from address `a` on; bytes past the top of
/// the address space read as 0.
pub open spec fn mem_bytes(m: Map<u64, u8>, a: u64, n: nat) -> Seq<u8> {
    Seq::new(
        n,
        |i: int|
            if a + i <= u64::MAX {
                mem_byte(m, (a + i) as u64)
            } else {
                0u8
            },
    )
}

/// A little-endian value of the given width read from address `a`,
/// zero-extended to 64 bits.
pub open spec fn mem_sized(m: Map<u64, u8>, a: u64, size: Size) -> u64 {
    match size {
        Size::One => mem_byte(m, a) as u64,
        Size::Two => spec_u16_from_le_bytes(mem_bytes(m, a, 2)) as u64,
        Size::Four => spec_u32_from_le_bytes(mem_bytes(m, a, 4)) as u64,
        Size::Eight => spec_u64_from_le_bytes(mem_bytes(m, a, 8)),
    }
}

/// The low `size` bytes of `v`, little-endian.
pub open spec fn le_bytes_sized(v: u64, size: Size) -> Seq<u8> {
    match size {
        Size::One => seq![v as u8],
        Size::Two => spec_u16_to_le_bytes(v as u16),
        Size::Four => spec_u32_to_le_bytes(v as u32),
        Size::Eight => spec_u64_to_le_bytes(v),
    }
}

/// The machine after the low `size` bytes of `v` were pushed: the stack
/// pointer drops by the width, the bytes land there.
pub open spec fn spec_push(s: MachineView, v: u64, size: Size) -> MachineView {
    let sp = s.sp.wrapping_sub(size.spec_bytes() as u64);
    MachineView { sp, mem: write_bytes(s.mem, sp, le_bytes_sized(v, size)), ..s }
}

/// The value a pop of the given width returns, zero-extended.
pub open spec fn spec_pop_value(s: MachineView, size: Size) -> u64 {
    mem_sized(s.mem, s.sp, size)
}

/// The machine after a pop of the given width: the stack pointer rises by
/// the width; memory is untouched.
pub open spec fn spec_pop_state(s: MachineView, size: Size) -> MachineView {
    MachineView { sp: s.sp.wrapping_add(size.spec_bytes() as u64), ..s }
}

/// `v` truncated to the given width, zero-extended back to 64 bits.
pub open spec fn truncate(v: u64, size: Size) -> u64 {
    match size {
        Size::One => (v as u8) as u64,
        Size::Two => (v as u16) as u64,
        Size::Four => (v as u32) as u64,
        Size::Eight => v,
    }
}

/// The sign bit of `v` at the given width.
pub open spec fn sign_bit(v: u64, size: Size) -> bool {
    match size {
        Size::One => (v >> 7) & 1 == 1,
        Size::Two => (v >> 15) & 1 == 1,
        Size::Four => (v >> 31) & 1 == 1,
        Size::Eight => (v >> 63) & 1 == 1,
    }
}

/// The low `size` bytes of `v` read as a two's-complement integer.
pub open spec fn signed_value(v: u64, size: Size) -> int {
    match size {
        Size::One => (v as i8) as int,
        Size::Two => (v as i16) as int,
        Size::Four => (v as i32) as int,
        Size::Eight => (v as i64) as int,
    }
}

/// The largest value the width holds as a signed integer.
pub open spec fn max_signed(size: Size) -> int {
    match size {
        Size::One => i8::MAX as int,
        Size::Two => i16::MAX as int,
        Size::Four => i32::MAX as int,
        Size::Eight => i64::MAX as int,
    }
}

/// The smallest value the width holds as a signed integer.
pub open spec fn min_signed(size: Size) -> int {
    match size {
        Size::One => i8::MIN as int,
        Size::Two => i16::MIN as int,
        Size::Four => i32::MIN as int,
        Size::Eight => i64::MIN as int,
    }
}

/// The largest value the width holds as an unsigned integer.
pub open spec fn max_unsigned(size: Size) -> int {
    match size {
        Size::One => u8::MAX as int,
        Size::Two => u16::MAX as int,
        Size::Four => u32::MAX as int,
        Size::Eight => u64::MAX as int,
    }
}

/// Whether adding the operands' signed lanes overflows the width.
pub open spec fn signed_add_overflows(lhs: u64, rhs: u64, size: Size) -> bool {
    signed_value(lhs, size) + signed_value(rhs, size) > max_signed(size) || signed_value(lhs, size)
        + signed_value(rhs, size) < min_signed(size)
}

/// Whether subtracting the operands' signed lanes overflows the width.
pub open spec fn signed_sub_overflows(lhs: u64, rhs: u64, size: Size) -> bool {
    signed_value(lhs, size) - signed_value(rhs, size) > max_signed(size) || signed_value(lhs, size)
        - signed_value(rhs, size) < min_signed(size)
}

/// Whether multiplying the operands' signed lanes overflows the width.
pub open spec fn signed_mul_overflows(lhs: u64, rhs: u64, size: Size) -> bool {
    signed_value(lhs, size) * signed_value(rhs, size) > max_signed(size) || signed_value(lhs, size)
        * signed_value(rhs, size) < min_signed(size)
}

/// Whether multiplying the operands' unsigned lanes overflows the width.
pub open spec fn unsigned_mul_overflows(lhs: u64, rhs: u64, size: Size) -> bool {
    truncate(lhs, size) * truncate(rhs, size) > max_unsigned(size)
}

/// Whether dividing the operands' signed lanes has no result at the
/// width: the divisor lane is zero, or the quotient overflows.
pub open spec fn signed_div_overflows(lhs: u64, rhs: u64, size: Size) -> bool {
    signed_value(rhs, size) == 0 || (signed_value(lhs, size) == min_signed(size) && signed_value(
        rhs,
        size,
    ) == -1)
}

/// Whether dividing the operands' unsigned lanes has no result at the
/// width: exactly when the divisor lane is zero.
pub open spec fn unsigned_div_overflows(rhs: u64, size: Size) -> bool {
    truncate(rhs, size) == 0
}

/// The destination register with only its low `size` bytes replaced by
/// those of `v`; the bytes above the width keep their old values.
pub open spec fn sized_assign(old_value: u64, v: u64, size: Size) -> u64 {
    match size {
        Size::One => (old_value & 0xffff_ffff_ffff_ff00) | (v & 0x0000_0000_0000_00ff),
        Size::Two => (old_value & 0xffff_ffff_ffff_0000) | (v & 0x0000_0000_0000_ffff),
        Size::Four => (old_value & 0xffff_ffff_0000_0000) | (v & 0x0000_0000_ffff_ffff),
        Size::Eight => v,
    }
}

/// The source field of an RM byte: bits 0 through 2.
pub open spec fn rm_src(b: u8) -> u8 {
    b & 0x07
}

/// The destination field of an RM byte: bits 3 through 5.
pub open spec fn rm_dst(b: u8) -> u8 {
    (b >> 3) & 0x07
}

/// The operand width an RM byte selects: bits 6 and 7 give the power of
/// two of the width in bytes.
pub open spec fn rm_size(b: u8) -> Size {
    let sel = (b >> 6) & 0x03;
    if sel == 0 {
        Size::One
    } else if sel == 1 {
        Size::Two
    } else if sel == 2 {
        Size::Four
    } else {
        Size::Eight
    }
}

/// The two-operand instructions that share the RM encoding.
#[derive(Debug, Clone, Copy, PartialEq, Eq, Structural)]
pub enum AluOp {
    Mov,
    Add,
    Sub,
    Mul,
    Div,
    Or,
    Xor,
    And,
    Cmp,
}

/// The one-operand sized instructions.
#[derive(Debug, Clone, Copy, PartialEq, Eq, Structural)]
pub enum UnaryOp {
    Not,
    Neg,
}

/// The conditions the branch instructions test.
#[derive(Debug, Clone, Copy, PartialEq, Eq, Structural)]
pub enum JumpKind {
    Always,
    Zero,
    NotZero,
    Overflow,
    NotOverflow,
    Sign,
    NotSign,
    Carry,
    NotCarry,
    BelowOrEqual,
    Above,
    Less,
    GreaterOrEqual,
    LessOrEqual,
    Greater,
}

/// Whether the flags satisfy a branch condition.
pub open spec fn cond_holds(flags: u64, kind: JumpKind) -> bool {
    match kind {
        JumpKind::Always => true,
        JumpKind::Zero => flag_get(flags, CpuFlag::Zero),
        JumpKind::NotZero => !flag_get(flags, CpuFlag::Zero),
        JumpKind::Overflow => flag_get(flags, CpuFlag::Overflow),
        JumpKind::NotOverflow => !flag_get(flags, CpuFlag::Overflow),
        JumpKind::Sign => flag_get(flags, CpuFlag::Negative),
        JumpKind::NotSign => !flag_get(flags, CpuFlag::Negative),
        JumpKind::Carry => flag_get(flags, CpuFlag::Carry),
        JumpKind::NotCarry => !flag_get(flags, CpuFlag::Carry),
        JumpKind::BelowOrEqual => flag_get(flags, CpuFlag::Carry) || flag_get(flags, CpuFlag::Zero),
        JumpKind::Above => !flag_get(flags, CpuFlag::Carry) || !flag_get(flags, CpuFlag::Zero),
        JumpKind::Less => flag_get(flags, CpuFlag::Negative) != flag_get(flags, CpuFlag::Overflow),
        JumpKind::GreaterOrEqual => flag_get(flags, CpuFlag::Negative) == flag_get(
            flags,
            CpuFlag::Overflow,
        ),
        JumpKind::LessOrEqual => flag_get(flags, CpuFlag::Zero) || flag_get(flags, CpuFlag::Negative)
            != flag_get(flags, CpuFlag::Overflow),
        JumpKind::Greater => !flag_get(flags, CpuFlag::Zero) && flag_get(flags, CpuFlag::Negative)
            == flag_get(flags, CpuFlag::Overflow),
    }
}

/// The effective address an addressing byte and its 64-bit displacement
/// compute: base plus index plus displacement, all wrapping; the registers
/// are read after the ten instruction bytes were consumed.
pub open spec fn spec_ea_value(s: MachineView) -> u64 {
    let b = mem_byte(s.mem, s.ip);
    let k = spec_u64_from_le_bytes(mem_bytes(s.mem, s.ip.wrapping_add(1), 8));
    let s9 = fetch_advance(s, 9);
    let base = match spec_register_from_u8(b & 0x07) {
        Some(r) => reg(s9, r),
        None => 0,
    };
    let index = match spec_register_from_u8((b >> 3) & 0x07) {
        Some(r) => reg(s9, r),
        None => 0,
    };
    base.wrapping_add(index).wrapping_add(k)
}

/// The machine after the addressing byte and displacement were consumed.
pub open spec fn spec_ea_state(s: MachineView) -> MachineView {
    fetch_advance(s, 9)
}

/// What one two-operand instruction does once its operands stand ready:
/// `s` has consumed the RM byte and any immediate.
pub open spec fn spec_alu_apply(
    s: MachineView,
    op: AluOp,
    dst: RegisterId,
    rhs: u64,
    size: Size,
) -> (MachineView, Result<(), u8>) {
    let lhs = reg(s, dst);
    match op {
        AluOp::Mov => (with_reg(s, dst, sized_assign(lhs, rhs, size)), Ok(())),
        AluOp::Add => {
            let result = lhs.wrapping_add(rhs);
            let f = flag_set(s.flags, CpuFlag::Zero, truncate(result, size) == 0);
            let f = flag_set(f, CpuFlag::Negative, sign_bit(result, size));
            let f = flag_set(f, CpuFlag::Carry, truncate(lhs, size) > truncate(result, size));
            let f = flag_set(f, CpuFlag::Overflow, signed_add_overflows(lhs, rhs, size));
            (
                with_reg(MachineView { flags: f, ..s }, dst, sized_assign(lhs, result, size)),
                Ok(()),
            )
        },
        AluOp::Sub => {
            let result = lhs.wrapping_sub(rhs);
            let f = flag_set(s.flags, CpuFlag::Zero, truncate(result, size) == 0);
            let f = flag_set(f, CpuFlag::Negative, sign_bit(result, size));
            let f = flag_set(f, CpuFlag::Carry, truncate(lhs, size) < truncate(result, size));
            let f = flag_set(f, CpuFlag::Overflow, signed_sub_overflows(lhs, rhs, size));
            (
                with_reg(MachineView { flags: f, ..s }, dst, sized_assign(lhs, result, size)),
                Ok(()),
            )
        },
        AluOp::Mul => {
            let result = lhs.wrapping_mul(rhs);
            let f = flag_set(s.flags, CpuFlag::Zero, truncate(result, size) == 0);
            let f = flag_set(f, CpuFlag::Negative, sign_bit(result, size));
            let f = flag_set(f, CpuFlag::Carry, unsigned_mul_overflows(lhs, rhs, size));
            let f = flag_set(f, CpuFlag::Overflow, signed_mul_overflows(lhs, rhs, size));
            (
                with_reg(MachineView { flags: f, ..s }, dst, sized_assign(lhs, result, size)),
                Ok(()),
            )
        },
        AluOp::Div => {
            if truncate(rhs, size) == 0 {
                (s, Err(DIVIDE_BY_ZERO))
            } else {
                let result = truncate(lhs, size) / truncate(rhs, size);
                let f = flag_set(s.flags, CpuFlag::Zero, truncate(result, size) == 0);
                let f = flag_set(f, CpuFlag::Negative, sign_bit(result, size));
                let f = flag_set(f, CpuFlag::Carry, unsigned_div_overflows(rhs, size));
                (
                    with_reg(MachineView { flags: f, ..s }, dst, sized_assign(lhs, result, size)),
                    Ok(()),
                )
            }
        },
        AluOp::Or => {
            let result = lhs | rhs;
            let f = flag_set(s.flags, CpuFlag::Zero, truncate(result, size) == 0);
            let f = flag_set(f, CpuFlag::Negative, sign_bit(result, size));
            (
                with_reg(MachineView { flags: f, ..s }, dst, sized_assign(lhs, result, size)),
                Ok(()),
            )
        },
        AluOp::Xor => {
            let result = lhs ^ rhs;
            let f = flag_set(s.flags, CpuFlag::Zero, truncate(result, size) == 0);
            let f = flag_set(f, CpuFlag::Negative, sign_bit(result, size));
            (
                with_reg(MachineView { flags: f, ..s }, dst, sized_assign(lhs, result, size)),
                Ok(()),
            )
        },
        AluOp::And => {
            let result = lhs & rhs;
            let f = flag_set(s.flags, CpuFlag::Zero, truncate(result, size) == 0);
            let f = flag_set(f, CpuFlag::Negative, sign_bit(result, size));
            (
                with_reg(MachineView { flags: f, ..s }, dst, sized_assign(lhs, result, size)),
                Ok(()),
            )
        },
        AluOp::Cmp => {
            let result = lhs.wrapping_sub(rhs);
            let f = flag_set(s.flags, CpuFlag::Zero, truncate(result, size) == 0);
            let f = flag_set(f, CpuFlag::Negative, sign_bit(result, size));
            let f = flag_set(f, CpuFlag::Carry, truncate(lhs, size) < truncate(result, size));
            let f = flag_set(f, CpuFlag::Overflow, signed_sub_overflows(lhs, rhs, size));
            (MachineView { flags: f, ..s }, Ok(()))
        },
    }
}

/// A two-operand instruction: decode the RM byte, reject a zero
/// destination, read the source register or fetch an immediate of the
/// chosen width, then apply the operation.
pub open spec fn spec_alu(s: MachineView, op: AluOp) -> (MachineView, Result<(), u8>) {
    let b = mem_byte(s.mem, s.ip);
    let s1 = fetch_advance(s, 1);
    match spec_register_from_u8(rm_dst(b)) {
        None => (s1, Err(INVALID_INSTRUCTION)),
        Some(dst) => {
            let size = rm_size(b);
            match spec_register_from_u8(rm_src(b)) {
                Some(src) => spec_alu_apply(s1, op, dst, reg(s1, src), size),
                None => spec_alu_apply(
                    fetch_advance(s1, size.spec_bytes() as u64),
                    op,
                    dst,
                    mem_sized(s1.mem, s1.ip, size),
                    size,
                ),
            }
        },
    }
}

/// A one-operand sized instruction: NOT or NEG of a register.
pub open spec fn spec_unary(s: MachineView, op: UnaryOp) -> (MachineView, Result<(), u8>) {
    let b = mem_byte(s.mem, s.ip);
    let s1 = fetch_advance(s, 1);
    match spec_register_from_u8(b & 0x07) {
        None => (s1, Err(INVALID_INSTRUCTION)),
        Some(dst) => {
            let size = rm_size(b);
            let lhs = reg(s1, dst);
            let result = match op {
                UnaryOp::Not => !lhs,
                UnaryOp::Neg => 0u64.wrapping_sub(lhs),
            };
            let f = flag_set(s1.flags, CpuFlag::Zero, truncate(result, size) == 0);
            let f = flag_set(f, CpuFlag::Negative, sign_bit(result, size));
            (
                with_reg(MachineView { flags: f, ..s1 }, dst, sized_assign(lhs, result, size)),
                Ok(()),
            )
        },
    }
}

/// A branch: compute the effective address, and assign it to the
/// instruction pointer exactly when the condition holds.
pub open spec fn spec_jump(s: MachineView, kind: JumpKind) -> MachineView {
    let ea = spec_ea_value(s);
    let s1 = spec_ea_state(s);
    if cond_holds(s1.flags, kind) {
        with_ip(s1, ea)
    } else {
        s1
    }
}

/// A full reset: the halt latch clears, interrupts are enabled, the
/// instruction pointer is loaded from the eight bytes at address 0, and
/// the stack pointer is set to `0xffff`. The other registers keep their
/// values.
pub open spec fn spec_reset(s: MachineView) -> MachineView {
    MachineView {
        halted: false,
        flags: flag_set(s.flags, CpuFlag::InterruptEnable, true),
        ip: spec_u64_from_le_bytes(mem_bytes(s.mem, 0, 8)),
        sp: 0xffff,
        ..s
    }
}

/// Interrupt dispatch: with no descriptor table or an empty slot the CPU
/// fail-stops into a full reset; otherwise it pushes the flags, pushes the
/// return address and enters the handler.
pub open spec fn spec_interrupt(s: MachineView, vector: u8) -> MachineView {
    if s.idt == 0 {
        spec_reset(s)
    } else {
        let slot = s.idt.wrapping_add(((vector as u64) * 8) as u64);
        let handler = spec_u64_from_le_bytes(mem_bytes(s.mem, slot, 8));
        if handler == 0 {
            spec_reset(s)
        } else {
            let s1 = spec_push(s, s.flags, Size::Eight);
            let s2 = spec_push(s1, s1.ip, Size::Eight);
            with_ip(s2, handler)
        }
    }
}

/// A software interrupt: dispatched only while interrupts are enabled.
pub open spec fn spec_int(s: MachineView) -> MachineView {
    let vector = mem_byte(s.mem, s.ip);
    let s1 = fetch_advance(s, 1);
    if flag_get(s1.flags, CpuFlag::InterruptEnable) {
        spec_interrupt(s1, vector)
    } else {
        s1
    }
}

/// PUSH: the named register's full word goes onto the stack.
pub open spec fn spec_push_instr(s: MachineView) -> (MachineView, Result<(), u8>) {
    let b = mem_byte(s.mem, s.ip);
    let s1 = fetch_advance(s, 1);
    match spec_register_from_u8(b & 0x07) {
        None => (s1, Err(INVALID_INSTRUCTION)),
        Some(src) => (spec_push(s1, reg(s1, src), Size::Eight), Ok(())),
    }
}

/// POP: the top quadword leaves the stack and fills the named register.
pub open spec fn spec_pop_instr(s: MachineView) -> (MachineView, Result<(), u8>) {
    let b = mem_byte(s.mem, s.ip);
    let s1 = fetch_advance(s, 1);
    match spec_register_from_u8(b & 0x07) {
        None => (s1, Err(INVALID_INSTRUCTION)),
        Some(dst) => (
            with_reg(spec_pop_state(s1, Size::Eight), dst, spec_pop_value(s1, Size::Eight)),
            Ok(()),
        ),
    }
}

/// STR: store the low `size` bytes of a register at the effective address.
pub open spec fn spec_str(s: MachineView) -> (MachineView, Result<(), u8>) {
    let b = mem_byte(s.mem, s.ip);
    let s1 = fetch_advance(s, 1);
    match spec_register_from_u8(b & 0x07) {
        None => (s1, Err(INVALID_INSTRUCTION)),
        Some(src) => {
            let size = rm_size(b);
            let ea = spec_ea_value(s1);
            let s2 = spec_ea_state(s1);
            (
                MachineView {
                    mem: write_bytes(s2.mem, ea, le_bytes_sized(reg(s2, src), size)),
                    ..s2
                },
                Ok(()),
            )
        },
    }
}

/// LDR: load `size` bytes from the effective address into the low bytes
/// of a register.
pub open spec fn spec_ldr(s: MachineView) -> (MachineView, Result<(), u8>) {
    let b = mem_byte(s.mem, s.ip);
    let s1 = fetch_advance(s, 1);
    match spec_register_from_u8(b & 0x07) {
        None => (s1, Err(INVALID_INSTRUCTION)),
        Some(dst) => {
            let size = rm_size(b);
            let ea = spec_ea_value(s1);
            let s2 = spec_ea_state(s1);
            (
                with_reg(s2, dst, sized_assign(reg(s2, dst), mem_sized(s2.mem, ea, size), size)),
                Ok(()),
            )
        },
    }
}

/// LEA: assign the effective address itself to the low bytes of a register.
pub open spec fn spec_lea(s: MachineView) -> (MachineView, Result<(), u8>) {
    let b = mem_byte(s.mem, s.ip);
    let s1 = fetch_advance(s, 1);
    match spec_register_from_u8(b & 0x07) {
        None => (s1, Err(INVALID_INSTRUCTION)),
        Some(dst) => {
            let size = rm_size(b);
            let ea = spec_ea_value(s1);
            let s2 = spec_ea_state(s1);
            (with_reg(s2, dst, sized_assign(reg(s2, dst), ea, size)), Ok(()))
        },
    }
}

/// CALL: push the return address, then jump to the effective address.
pub open spec fn spec_call(s: MachineView) -> MachineView {
    let ea = spec_ea_value(s);
    let s1 = spec_ea_state(s);
    let s2 = spec_push(s1, s1.ip, Size::Eight);
    with_ip(s2, ea)
}

/// RET: pop the return address into the instruction pointer.
pub open spec fn spec_ret(s: MachineView) -> MachineView {
    with_ip(spec_pop_state(s, Size::Eight), spec_pop_value(s, Size::Eight))
}

/// LIDT: the effective address becomes the descriptor table base.
pub open spec fn spec_lidt(s: MachineView) -> MachineView {
    let ea = spec_ea_value(s);
    let s1 = spec_ea_state(s);
    MachineView { idt: ea, ..s1 }
}

/// RETI: pop the return address, pop the saved flags, and return.
pub open spec fn spec_reti(s: MachineView) -> MachineView {
    let addr = spec_pop_value(s, Size::Eight);
    let s1 = spec_pop_state(s, Size::Eight);
    let flags = spec_pop_value(s1, Size::Eight);
    let s2 = MachineView { flags, ..spec_pop_state(s1, Size::Eight) };
    with_ip(s2, addr)
}

/// IN: read a port of the port bus into the full named register; an
/// unmapped port reads as the floating all-ones word.
pub open spec fn spec_in(s: MachineView) -> (MachineView, Result<(), u8>) {
    let b = mem_byte(s.mem, s.ip);
    let s1 = fetch_advance(s, 1);
    match spec_register_from_u8(b & 0x07) {
        None => (s1, Err(INVALID_INSTRUCTION)),
        Some(dst) => {
            let port = spec_u16_from_le_bytes(mem_bytes(s1.mem, s1.ip, 2));
            let s2 = fetch_advance(s1, 2);
            let value = if s2.ports.dom().contains(port) {
                s2.ports[port]
            } else {
                FLOATING_PORT
            };
            (with_reg(s2, dst, value), Ok(()))
        },
    }
}

/// HLT: set the halt latch; `clock` is a no-op from here on.
pub open spec fn spec_hlt(s: MachineView) -> MachineView {
    MachineView { halted: true, ..s }
}

/// What the instruction behind one opcode does to the machine, and the
/// fault it raises if any. The state it starts from has consumed the
/// opcode byte.
pub open spec fn spec_instruction(opcode: u8, s: MachineView) -> (MachineView, Result<(), u8>) {
    if opcode == OPCODE_NOP {
        (s, Ok(()))
    } else if opcode == OPCODE_HLT {
        (spec_hlt(s), Ok(()))
    } else if opcode == OPCODE_MOV {
        spec_alu(s, AluOp::Mov)
    } else if opcode == OPCODE_ADD {
        spec_alu(s, AluOp::Add)
    } else if opcode == OPCODE_SUB {
        spec_alu(s, AluOp::Sub)
    } else if opcode == OPCODE_MUL {
        spec_alu(s, AluOp::Mul)
    } else if opcode == OPCODE_DIV {
        spec_alu(s, AluOp::Div)
    } else if opcode == OPCODE_OR {
        spec_alu(s, AluOp::Or)
    } else if opcode == OPCODE_XOR {
        spec_alu(s, AluOp::Xor)
    } else if opcode == OPCODE_AND {
        spec_alu(s, AluOp::And)
    } else if opcode == OPCODE_NOT {
        spec_unary(s, UnaryOp::Not)
    } else if opcode == OPCODE_NEG {
        spec_unary(s, UnaryOp::Neg)
    } else if opcode == OPCODE_CMP {
        spec_alu(s, AluOp::Cmp)
    } else if opcode == OPCODE_PUSH {
        spec_push_instr(s)
    } else if opcode == OPCODE_POP {
        spec_pop_instr(s)
    } else if opcode == OPCODE_PUSHF {
        (spec_push(s, s.flags, Size::Eight), Ok(()))
    } else if opcode == OPCODE_POPF {
        (
            MachineView {
                flags: spec_pop_value(s, Size::Eight),
                ..spec_pop_state(s, Size::Eight)
            },
            Ok(()),
        )
    } else if opcode == OPCODE_STR {
        spec_str(s)
    } else if opcode == OPCODE_LDR {
        spec_ldr(s)
    } else if opcode == OPCODE_LEA {
        spec_lea(s)
    } else if opcode == OPCODE_JMP {
        (spec_jump(s, JumpKind::Always), Ok(()))
    } else if opcode == OPCODE_JZ {
        (spec_jump(s, JumpKind::Zero), Ok(()))
    } else if opcode == OPCODE_JNZ {
        (spec_jump(s, JumpKind::NotZero), Ok(()))
    } else if opcode == OPCODE_JO {
        (spec_jump(s, JumpKind::Overflow), Ok(()))
    } else if opcode == OPCODE_JNO {
        (spec_jump(s, JumpKind::NotOverflow), Ok(()))
    } else if opcode == OPCODE_JS {
        (spec_jump(s, JumpKind::Sign), Ok(()))
    } else if opcode == OPCODE_JNS {
        (spec_jump(s, JumpKind::NotSign), Ok(()))
    } else if opcode == OPCODE_JC {
        (spec_jump(s, JumpKind::Carry), Ok(()))
    } else if opcode == OPCODE_JNC {
        (spec_jump(s, JumpKind::NotCarry), Ok(()))
    } else if opcode == OPCODE_JBE {
        (spec_jump(s, JumpKind::BelowOrEqual), Ok(()))
    } else if opcode == OPCODE_JA {
        (spec_jump(s, JumpKind::Above), Ok(()))
    } else if opcode == OPCODE_JL {
        (spec_jump(s, JumpKind::Less), Ok(()))
    } else if opcode == OPCODE_JGE {
        (spec_jump(s, JumpKind::GreaterOrEqual), Ok(()))
    } else if opcode == OPCODE_JLE {
        (spec_jump(s, JumpKind::LessOrEqual), Ok(()))
    } else if opcode == OPCODE_JG {
        (spec_jump(s, JumpKind::Greater), Ok(()))
    } else if opcode == OPCODE_CALL {
        (spec_call(s), Ok(()))
    } else if opcode == OPCODE_RET {
        (spec_ret(s), Ok(()))
    } else if opcode == OPCODE_LIDT {
        (spec_lidt(s), Ok(()))
    } else if opcode == OPCODE_RETI {
        (spec_reti(s), Ok(()))
    } else if opcode == OPCODE_INT {
        (spec_int(s), Ok(()))
    } else if opcode == OPCODE_CLI {
        (MachineView { flags: flag_set(s.flags, CpuFlag::InterruptEnable, false), ..s }, Ok(()))
    } else if opcode == OPCODE_STI {
        (MachineView { flags: flag_set(s.flags, CpuFlag::InterruptEnable, true), ..s }, Ok(()))
    } else if opcode == OPCODE_IN {
        spec_in(s)
    } else if opcode == OPCODE_OUT {
        spec_out(s)
    } else {
        (s, Err(INVALID_INSTRUCTION))
    }
}

/// Run the instruction behind `opcode`; a fault it raises dispatches as a
/// non-maskable interrupt from the state the instruction left.
pub open spec fn spec_execute(opcode: u8, s: MachineView) -> MachineView {
    let (s2, r) = spec_instruction(opcode, s);
    match r {
        Ok(_) => s2,
        Err(vector) => spec_interrupt(s2, vector),
    }
}

/// One clock tick: a halted machine stands still; otherwise the opcode
/// byte at the instruction pointer is consumed and executed.
pub open spec fn spec_clock(s: MachineView) -> MachineView {
    if s.halted {
        s
    } else {
        let opcode = mem_byte(s.mem, s.ip);
        spec_execute(opcode, fetch_advance(s, 1))
    }
}

/// OUT: write the full named register to a port of the port bus; an
/// unmapped port drops the word.
pub open spec fn spec_out(s: MachineView) -> (MachineView, Result<(), u8>) {
    let b = mem_byte(s.mem, s.ip);
    let s1 = fetch_advance(s, 1);
    match spec_register_from_u8(b & 0x07) {
        None => (s1, Err(INVALID_INSTRUCTION)),
        Some(src) => {
            let port = spec_u16_from_le_bytes(mem_bytes(s1.mem, s1.ip, 2));
            let s2 = fetch_advance(s1, 2);
            let ports = if s2.ports.dom().contains(port) {
                s2.ports.insert(port, reg(s2, src))
            } else {
                s2.ports
            };
            (MachineView { ports, ..s2 }, Ok(()))
        },
    }
}

} // verus!
