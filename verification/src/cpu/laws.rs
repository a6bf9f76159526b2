//! Laws of the machine model: properties that hold of every state, proved
//! once and for all over the functions of `machine`.

use vstd::bytes::{
    lemma_auto_spec_u16_to_from_le_bytes, lemma_auto_spec_u32_to_from_le_bytes,
    lemma_auto_spec_u64_to_from_le_bytes,
};
use vstd::prelude::*;

use crate::address_bus::write_bytes;
use crate::cpu::machine::{
    cond_holds, fetch_advance, flag_get, le_bytes_sized, mem_byte, mem_bytes, mem_sized, rm_dst,
    rm_size, sized_assign, spec_alu, spec_clock, spec_instruction, spec_jump, spec_pop_state,
    spec_pop_value, spec_push, truncate, AluOp, CpuFlag, JumpKind, MachineView, OPCODE_ADD,
    OPCODE_AND, OPCODE_CALL, OPCODE_CMP, OPCODE_DIV, OPCODE_IN, OPCODE_INT, OPCODE_JA, OPCODE_JBE,
    OPCODE_JC, OPCODE_JG, OPCODE_JGE, OPCODE_JL, OPCODE_JLE, OPCODE_JMP, OPCODE_JNC, OPCODE_JNO,
    OPCODE_JNS, OPCODE_JNZ, OPCODE_JO, OPCODE_JS, OPCODE_JZ, OPCODE_LDR, OPCODE_LEA, OPCODE_LIDT,
    OPCODE_MOV, OPCODE_MUL, OPCODE_NEG, OPCODE_NOT, OPCODE_OR, OPCODE_POP, OPCODE_POPF,
    OPCODE_OUT, OPCODE_PUSH, OPCODE_PUSHF, OPCODE_RET, OPCODE_RETI, OPCODE_STR, OPCODE_SUB,
    OPCODE_XOR,
};
use crate::cpu::register_id::spec_register_from_u8;
use crate::cpu::size::Size;

verus! {

/// Law: a sized register write replaces only the low bytes of the chosen
/// width; every bit above the width keeps its pre-write value. In mask
/// form: the result is `(old & !mask) | (v & mask)` for the width's mask.
pub proof fn lemma_sized_assign_preserves_high(old_value: u64, v: u64, size: Size)
    ensures
        truncate(sized_assign(old_value, v, size), size) == truncate(v, size),
        size == Size::One ==> sized_assign(old_value, v, size) >> 8 == old_value >> 8,
        size == Size::Two ==> sized_assign(old_value, v, size) >> 16 == old_value >> 16,
        size == Size::Four ==> sized_assign(old_value, v, size) >> 32 == old_value >> 32,
        size == Size::Eight ==> sized_assign(old_value, v, size) == v,
        size == Size::One ==> sized_assign(old_value, v, size) == ((old_value
            & !0x0000_0000_0000_00ffu64) | (v & 0x0000_0000_0000_00ffu64)),
        size == Size::Two ==> sized_assign(old_value, v, size) == ((old_value
            & !0x0000_0000_0000_ffffu64) | (v & 0x0000_0000_0000_ffffu64)),
        size == Size::Four ==> sized_assign(old_value, v, size) == ((old_value
            & !0x0000_0000_ffff_ffffu64) | (v & 0x0000_0000_ffff_ffffu64)),
        size == Size::Eight ==> sized_assign(old_value, v, size) == ((old_value
            & !0xffff_ffff_ffff_ffffu64) | (v & 0xffff_ffff_ffff_ffffu64)),
{
    match size {
        Size::One => {
            assert(!0x0000_0000_0000_00ffu64 == 0xffff_ffff_ffff_ff00u64) by (bit_vector);
            assert((((old_value & 0xffff_ffff_ffff_ff00) | (v & 0x0000_0000_0000_00ff)) as u8)
                as u64 == (v as u8) as u64) by (bit_vector);
            assert(((old_value & 0xffff_ffff_ffff_ff00) | (v & 0x0000_0000_0000_00ff)) >> 8
                == old_value >> 8) by (bit_vector);
        },
        Size::Two => {
            assert(!0x0000_0000_0000_ffffu64 == 0xffff_ffff_ffff_0000u64) by (bit_vector);
            assert((((old_value & 0xffff_ffff_ffff_0000) | (v & 0x0000_0000_0000_ffff)) as u16)
                as u64 == (v as u16) as u64) by (bit_vector);
            assert(((old_value & 0xffff_ffff_ffff_0000) | (v & 0x0000_0000_0000_ffff)) >> 16
                == old_value >> 16) by (bit_vector);
        },
        Size::Four => {
            assert(!0x0000_0000_ffff_ffffu64 == 0xffff_ffff_0000_0000u64) by (bit_vector);
            assert((((old_value & 0xffff_ffff_0000_0000) | (v & 0x0000_0000_ffff_ffff)) as u32)
                as u64 == (v as u32) as u64) by (bit_vector);
            assert(((old_value & 0xffff_ffff_0000_0000) | (v & 0x0000_0000_ffff_ffff)) >> 32
                == old_value >> 32) by (bit_vector);
        },
        Size::Eight => {
            assert(!0xffff_ffff_ffff_ffffu64 == 0u64) by (bit_vector);
            assert((old_value & 0u64) | (v & 0xffff_ffff_ffff_ffffu64) == v) by (bit_vector);
        },
    }
}

/// Law: a sized memory read is already truncated to its width: every bit
/// above the width is zero, so a sized register assignment of it writes
/// the read bytes themselves.
pub proof fn lemma_mem_sized_fits(m: Map<u64, u8>, a: u64, size: Size)
    ensures
        truncate(mem_sized(m, a, size), size) == mem_sized(
            m,
            a,
            size,
        ),
{
}

/// Reading back the bytes just written to fully mapped addresses yields
/// exactly those bytes.
proof fn lemma_read_back(m: Map<u64, u8>, a: u64, data: Seq<u8>)
    requires
        forall|i: int| #![trigger data[i]]
            0 <= i < data.len() ==> a + i <= u64::MAX && m.dom().contains((a + i) as u64),
    ensures
        mem_bytes(write_bytes(m, a, data), a, data.len()) == data,
{
    assert(mem_bytes(write_bytes(m, a, data), a, data.len()) =~= data);
}

/// Law: pushing a value of any width and popping at the same width
/// returns the value truncated to that width, and the stack pointer comes
/// back to exactly where it was. The bytes the push lands on must be
/// mapped.
pub proof fn lemma_push_pop(s: MachineView, v: u64, size: Size)
    requires
        s.sp >= size.spec_bytes(),
        forall|i: int| #![trigger s.mem.dom().contains((s.sp - size.spec_bytes() + i) as u64)]
            0 <= i < size.spec_bytes() ==> s.mem.dom().contains(
                (s.sp - size.spec_bytes() + i) as u64,
            ),
    ensures
        spec_pop_value(spec_push(s, v, size), size) == truncate(v, size),
        spec_pop_state(spec_push(s, v, size), size).sp == s.sp,
        spec_pop_state(spec_push(s, v, size), size).flags == s.flags,
{
    let n = size.spec_bytes();
    let sp = (s.sp - n) as u64;
    let data = le_bytes_sized(v, size);
    lemma_auto_spec_u16_to_from_le_bytes();
    lemma_auto_spec_u32_to_from_le_bytes();
    lemma_auto_spec_u64_to_from_le_bytes();
    assert(data.len() == n) by {
        match size {
            Size::One => {},
            Size::Two => {},
            Size::Four => {},
            Size::Eight => {},
        }
    }
    lemma_read_back(s.mem, sp, data);
    match size {
        Size::One => {
            assert(mem_bytes(write_bytes(s.mem, sp, data), sp, 1)[0] == mem_byte(
                write_bytes(s.mem, sp, data),
                sp,
            ));
        },
        Size::Two => {},
        Size::Four => {},
        Size::Eight => {},
    }
}

/// Law: the PUSHF instruction followed by the POPF instruction is an
/// identity on the full 64-bit flags word and on the stack pointer,
/// undefined flag bits included. The eight stack bytes must be mapped.
pub proof fn lemma_pushf_popf_identity(s: MachineView)
    requires
        s.sp >= 8,
        forall|i: int| #![trigger s.mem.dom().contains((s.sp - 8 + i) as u64)]
            0 <= i < 8 ==> s.mem.dom().contains((s.sp - 8 + i) as u64),
    ensures
        spec_instruction(OPCODE_POPF, spec_instruction(OPCODE_PUSHF, s).0).0.flags == s.flags,
        spec_instruction(OPCODE_POPF, spec_instruction(OPCODE_PUSHF, s).0).0.sp == s.sp,
        spec_instruction(OPCODE_PUSHF, s).1 is Ok,
        spec_instruction(OPCODE_POPF, spec_instruction(OPCODE_PUSHF, s).0).1 is Ok,
{
    lemma_push_pop(s, s.flags, Size::Eight);
}

/// Law: a two-operand instruction that names a valid destination other
/// than the instruction pointer and does not fault advances the
/// instruction pointer by exactly the bytes it consumed: the RM byte,
/// plus the immediate of the chosen width when the source field names no
/// register.
pub proof fn lemma_alu_ip_advance(s: MachineView, op: AluOp)
    requires
        spec_register_from_u8(rm_dst(mem_byte(s.mem, s.ip))) is Some,
        rm_dst(mem_byte(s.mem, s.ip)) != 7,
        spec_alu(s, op).1 is Ok,
    ensures
        spec_alu(s, op).0.ip == s.ip.wrapping_add(
            (1 + if spec_register_from_u8(rm_src(s)) is Some {
                0int
            } else {
                rm_size(mem_byte(s.mem, s.ip)).spec_bytes() as int
            }) as u64,
        ),
{
}

/// The source field of the RM byte at the instruction pointer.
pub open spec fn rm_src(s: MachineView) -> u8 {
    crate::cpu::machine::rm_src(mem_byte(s.mem, s.ip))
}

/// The opcode byte of a two-operand instruction.
pub open spec fn alu_opcode(op: AluOp) -> u8 {
    match op {
        AluOp::Mov => OPCODE_MOV,
        AluOp::Add => OPCODE_ADD,
        AluOp::Sub => OPCODE_SUB,
        AluOp::Mul => OPCODE_MUL,
        AluOp::Div => OPCODE_DIV,
        AluOp::Or => OPCODE_OR,
        AluOp::Xor => OPCODE_XOR,
        AluOp::And => OPCODE_AND,
        AluOp::Cmp => OPCODE_CMP,
    }
}

/// Law: one clock tick over a two-operand instruction that names a valid
/// destination other than the instruction pointer and does not fault
/// advances the instruction pointer by the whole instruction: the opcode
/// byte, the RM byte, and the immediate of the chosen width when the
/// source field names no register.
pub proof fn lemma_clock_alu_ip_advance(s: MachineView, op: AluOp)
    requires
        !s.halted,
        mem_byte(s.mem, s.ip) == alu_opcode(op),
        spec_register_from_u8(rm_dst(mem_byte(s.mem, s.ip.wrapping_add(1)))) is Some,
        rm_dst(mem_byte(s.mem, s.ip.wrapping_add(1))) != 7,
        spec_alu(fetch_advance(s, 1), op).1 is Ok,
    ensures
        spec_clock(s).ip == s.ip.wrapping_add(
            (2 + if spec_register_from_u8(
                crate::cpu::machine::rm_src(mem_byte(s.mem, s.ip.wrapping_add(1))),
            ) is Some {
                0int
            } else {
                rm_size(mem_byte(s.mem, s.ip.wrapping_add(1))).spec_bytes() as int
            }) as u64,
        ),
{
    let s1 = fetch_advance(s, 1);
    lemma_alu_ip_advance(s1, op);
}

/// Law: a branch whose condition fails advances the instruction pointer
/// by exactly the nine bytes of addressing it consumed.
pub proof fn lemma_jump_not_taken_ip(s: MachineView, kind: JumpKind)
    requires
        !cond_holds(s.flags, kind),
    ensures
        spec_jump(s, kind).ip == s.ip.wrapping_add(9),
{
}

/// The two-operand opcodes, the ones that share the RM-plus-immediate
/// encoding.
pub open spec fn is_alu_opcode(opcode: u8) -> bool {
    ||| opcode == OPCODE_MOV
    ||| opcode == OPCODE_ADD
    ||| opcode == OPCODE_SUB
    ||| opcode == OPCODE_MUL
    ||| opcode == OPCODE_DIV
    ||| opcode == OPCODE_OR
    ||| opcode == OPCODE_XOR
    ||| opcode == OPCODE_AND
    ||| opcode == OPCODE_CMP
}

/// The two-operand instruction an opcode runs.
pub open spec fn alu_op_of(opcode: u8) -> AluOp {
    if opcode == OPCODE_MOV {
        AluOp::Mov
    } else if opcode == OPCODE_ADD {
        AluOp::Add
    } else if opcode == OPCODE_SUB {
        AluOp::Sub
    } else if opcode == OPCODE_MUL {
        AluOp::Mul
    } else if opcode == OPCODE_DIV {
        AluOp::Div
    } else if opcode == OPCODE_OR {
        AluOp::Or
    } else if opcode == OPCODE_XOR {
        AluOp::Xor
    } else if opcode == OPCODE_AND {
        AluOp::And
    } else {
        AluOp::Cmp
    }
}

/// The branch opcodes; they are numbered contiguously.
pub open spec fn is_branch_opcode(opcode: u8) -> bool {
    OPCODE_JMP <= opcode <= OPCODE_JG
}

/// The condition a branch opcode tests.
pub open spec fn branch_kind(opcode: u8) -> JumpKind {
    if opcode == OPCODE_JZ {
        JumpKind::Zero
    } else if opcode == OPCODE_JNZ {
        JumpKind::NotZero
    } else if opcode == OPCODE_JO {
        JumpKind::Overflow
    } else if opcode == OPCODE_JNO {
        JumpKind::NotOverflow
    } else if opcode == OPCODE_JS {
        JumpKind::Sign
    } else if opcode == OPCODE_JNS {
        JumpKind::NotSign
    } else if opcode == OPCODE_JC {
        JumpKind::Carry
    } else if opcode == OPCODE_JNC {
        JumpKind::NotCarry
    } else if opcode == OPCODE_JBE {
        JumpKind::BelowOrEqual
    } else if opcode == OPCODE_JA {
        JumpKind::Above
    } else if opcode == OPCODE_JL {
        JumpKind::Less
    } else if opcode == OPCODE_JGE {
        JumpKind::GreaterOrEqual
    } else if opcode == OPCODE_JLE {
        JumpKind::LessOrEqual
    } else if opcode == OPCODE_JG {
        JumpKind::Greater
    } else {
        JumpKind::Always
    }
}

/// The operand and immediate bytes the instruction behind `opcode`
/// consumes, read at the state just past the opcode byte.
pub open spec fn operand_length(opcode: u8, s: MachineView) -> int {
    let b = mem_byte(s.mem, s.ip);
    if is_alu_opcode(opcode) {
        1 + (if spec_register_from_u8(crate::cpu::machine::rm_src(b)) is Some {
            0int
        } else {
            rm_size(b).spec_bytes() as int
        })
    } else if opcode == OPCODE_NOT || opcode == OPCODE_NEG
        || opcode == OPCODE_PUSH || opcode == OPCODE_POP
        || opcode == OPCODE_INT {
        1
    } else if opcode == OPCODE_STR || opcode == OPCODE_LDR
        || opcode == OPCODE_LEA {
        10
    } else if is_branch_opcode(opcode) || opcode == OPCODE_CALL || opcode
        == OPCODE_LIDT {
        9
    } else if opcode == OPCODE_IN || opcode
        == OPCODE_OUT {
        3
    } else {
        0
    }
}

/// Whether the instruction behind `opcode`, started at the state just
/// past the opcode byte, completes without a fault and transfers no
/// control: no taken branch, no call or return, no dispatched interrupt,
/// and no write that names the instruction pointer as its destination.
pub open spec fn stays_sequential(opcode: u8, s: MachineView) -> bool {
    let b = mem_byte(s.mem, s.ip);
    &&& spec_instruction(opcode, s).1 is Ok
    &&& opcode != OPCODE_CALL
    &&& opcode != OPCODE_RET
    &&& opcode != OPCODE_RETI
    &&& (is_alu_opcode(opcode) ==> rm_dst(b) != 7)
    &&& ((opcode == OPCODE_NOT || opcode == OPCODE_NEG
        || opcode == OPCODE_POP || opcode == OPCODE_LDR
        || opcode == OPCODE_LEA || opcode == OPCODE_IN)
        ==> (b & 0x07) != 7)
    &&& (is_branch_opcode(opcode) ==> !cond_holds(s.flags, branch_kind(opcode)))
    &&& (opcode == OPCODE_INT ==> !flag_get(
        s.flags,
        CpuFlag::InterruptEnable,
    ))
}

/// Law: over one clock tick, an instruction that completes without a
/// fault and transfers no control advances the instruction pointer by
/// exactly the bytes it consumed: the opcode byte plus every operand and
/// immediate byte. This is the whole instruction set; the untaken-branch
/// and two-operand forms above are its two interesting families.
pub proof fn lemma_ip_advance(s: MachineView)
    requires
        !s.halted,
        stays_sequential(mem_byte(s.mem, s.ip), fetch_advance(s, 1)),
    ensures
        spec_clock(s).ip == s.ip.wrapping_add(
            (1 + operand_length(
                mem_byte(s.mem, s.ip),
                fetch_advance(s, 1),
            )) as u64,
        ),
{
    let opcode = mem_byte(s.mem, s.ip);
    let s1 = fetch_advance(s, 1);
    if is_alu_opcode(opcode) {
        lemma_alu_ip_advance(s1, alu_op_of(opcode));
    } else if is_branch_opcode(opcode) {
        lemma_jump_not_taken_ip(s1, branch_kind(opcode));
    }
}
pub proof fn lemma_cmp_is_flagwise_sub(s: MachineView)
    ensures
        spec_alu(s, AluOp::Cmp).1 == spec_alu(s, AluOp::Sub).1,
        spec_register_from_u8(rm_dst(mem_byte(s.mem, s.ip))) is Some ==> spec_alu(
            s,
            AluOp::Cmp,
        ).1 is Ok,
        spec_alu(s, AluOp::Cmp).0.flags == spec_alu(s, AluOp::Sub).0.flags,
        spec_alu(s, AluOp::Cmp).0.mem == s.mem,
        spec_alu(s, AluOp::Cmp).0.ports == s.ports,
        spec_alu(s, AluOp::Cmp).0.x0 == s.x0,
        spec_alu(s, AluOp::Cmp).0.x1 == s.x1,
        spec_alu(s, AluOp::Cmp).0.x2 == s.x2,
        spec_alu(s, AluOp::Cmp).0.x3 == s.x3,
        spec_alu(s, AluOp::Cmp).0.x4 == s.x4,
        spec_alu(s, AluOp::Cmp).0.sp == s.sp,
{
}

} // verus!
