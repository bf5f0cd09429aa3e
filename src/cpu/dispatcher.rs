use vstd::prelude::*;

use crate::cpu::{
    adc, and, bit, call, cmp, dad, dcr, dcx, flags_from, inr, inx, jmp, logic_flags, or, pair,
    pair_registers, pop, popped, popped_pair, push, pushed, ret, rotate_left, rotate_right, sbb,
    split, split_register_pair, wrap16, wrap8, xor, Cpu, CpuView, Flag, Flags,
};

verus! {

broadcast use crate::cpu::lemma_memory_size;

/// Why an opcode was not executed.
#[derive(Clone, Copy, Debug, PartialEq, Eq, Structural)]
pub enum DispatchError {
    /// The opcode is reserved, or its instruction is not emulated here (`DAA`),
    /// or it belongs to the I/O ports (`IN`, `OUT`). The state is left as it was.
    UnimplementedOpcode(u8),
}

/// What `handle_op_code` reports for `HALT`; no instruction consumes this many bytes.
pub const HALT: u16 = 255;

/// Opcodes that the dispatcher rejects: the reserved encodings, `DAA`, and the
/// port instructions `IN` and `OUT`, which the I/O ports handle.
pub open spec fn unimplemented(op: u8) -> bool {
    ||| op == 0x08 || op == 0x10 || op == 0x18 || op == 0x20 || op == 0x28 || op == 0x30
        || op == 0x38
    ||| op == 0xcb || op == 0xd9 || op == 0xdd || op == 0xed || op == 0xfd
    ||| op == 0x27
    ||| op == 0xd3 || op == 0xdb
}

/// The address held in H and L.
pub open spec fn hl(s: CpuView) -> u16 {
    pair(s.h, s.l)
}

/// The operand selected by a 3-bit register code: B, C, D, E, H, L, the
/// memory byte at HL, A.
pub open spec fn operand(s: CpuView, r: u8) -> u8 {
    if r == 0 {
        s.b
    } else if r == 1 {
        s.c
    } else if r == 2 {
        s.d
    } else if r == 3 {
        s.e
    } else if r == 4 {
        s.h
    } else if r == 5 {
        s.l
    } else if r == 6 {
        s.memory[hl(s) as int]
    } else {
        s.a
    }
}

/// The state with the operand of register code `r` replaced by `v`.
pub open spec fn with_operand(s: CpuView, r: u8, v: u8) -> CpuView {
    if r == 0 {
        CpuView { b: v, ..s }
    } else if r == 1 {
        CpuView { c: v, ..s }
    } else if r == 2 {
        CpuView { d: v, ..s }
    } else if r == 3 {
        CpuView { e: v, ..s }
    } else if r == 4 {
        CpuView { h: v, ..s }
    } else if r == 5 {
        CpuView { l: v, ..s }
    } else if r == 6 {
        CpuView { memory: s.memory.update(hl(s) as int, v), ..s }
    } else {
        CpuView { a: v, ..s }
    }
}

/// The register pair selected by a 2-bit code: BC, DE, HL, SP.
pub open spec fn register_pair(s: CpuView, p: u8) -> u16 {
    if p == 0 {
        pair(s.b, s.c)
    } else if p == 1 {
        pair(s.d, s.e)
    } else if p == 2 {
        pair(s.h, s.l)
    } else {
        s.sp
    }
}

/// The state with register pair `p` (BC, DE, HL, SP) set to `v`.
pub open spec fn with_register_pair(s: CpuView, p: u8, v: u16) -> CpuView {
    if p == 0 {
        CpuView { b: split(v).0, c: split(v).1, ..s }
    } else if p == 1 {
        CpuView { d: split(v).0, e: split(v).1, ..s }
    } else if p == 2 {
        CpuView { h: split(v).0, l: split(v).1, ..s }
    } else {
        CpuView { sp: v, ..s }
    }
}

/// The pair that `PUSH` stores for a 2-bit code: BC, DE, HL, or A with the status byte.
pub open spec fn stack_pair(s: CpuView, p: u8) -> (u8, u8) {
    if p == 0 {
        (s.b, s.c)
    } else if p == 1 {
        (s.d, s.e)
    } else if p == 2 {
        (s.h, s.l)
    } else {
        (s.a, s.flags.byte() as u8)
    }
}

/// The state after `POP` loads `v` into BC, DE, HL, or A and the status register.
pub open spec fn with_stack_pair(s: CpuView, p: u8, v: (u8, u8)) -> CpuView {
    if p == 0 {
        CpuView { b: v.0, c: v.1, ..s }
    } else if p == 1 {
        CpuView { d: v.0, e: v.1, ..s }
    } else if p == 2 {
        CpuView { h: v.0, l: v.1, ..s }
    } else {
        CpuView { a: v.0, flags: Flags::from_byte_spec(v.1), ..s }
    }
}

/// The branch condition of a 3-bit code: NZ, Z, NC, C, PO, PE, P, M.
pub open spec fn condition(f: Flags, cc: u8) -> bool {
    if cc == 0 {
        !f.zero
    } else if cc == 1 {
        f.zero
    } else if cc == 2 {
        !f.carry
    } else if cc == 3 {
        f.carry
    } else if cc == 4 {
        !f.parity
    } else if cc == 5 {
        f.parity
    } else if cc == 6 {
        !f.sign
    } else {
        f.sign
    }
}

/// The accumulator and flags after the ALU operation of a 3-bit code (ADD, ADC,
/// SUB, SBB, ANA, XRA, ORA, CMP) on the accumulator `a` and the operand `v`.
pub open spec fn alu(kind: u8, a: u8, v: u8, f: Flags) -> (u8, Flags) {
    if kind == 0 {
        (wrap8(a + v), flags_from(a + v))
    } else if kind == 1 {
        (wrap8(a + v + bit(f.carry)), flags_from(a + v + bit(f.carry)))
    } else if kind == 2 {
        (wrap8(a - v), flags_from(a - v))
    } else if kind == 3 {
        (wrap8(a - v - bit(f.carry)), flags_from(a - v - bit(f.carry)))
    } else if kind == 4 {
        (a & v, logic_flags(a & v))
    } else if kind == 5 {
        (a ^ v, logic_flags(a ^ v))
    } else if kind == 6 {
        (a | v, logic_flags(a | v))
    } else {
        (a, flags_from(a - v))
    }
}

/// The byte after the opcode.
pub open spec fn imm8(s: CpuView) -> u8 {
    s.memory[s.pc as int]
}

/// The 16-bit operand after the opcode, stored low byte first.
pub open spec fn imm16(s: CpuView) -> u16 {
    pair(s.memory[wrap16(s.pc + 1) as int], s.memory[s.pc as int])
}

/// The state after the accumulator and flags take the result of an ALU operation.
pub open spec fn with_alu(s: CpuView, kind: u8, v: u8) -> CpuView {
    CpuView { a: alu(kind, s.a, v, s.flags).0, flags: alu(kind, s.a, v, s.flags).1, ..s }
}

/// The state after a call to `target` that pushes `return_address`.
pub open spec fn called(s: CpuView, target: u16, return_address: u16) -> CpuView {
    CpuView {
        sp: wrap16(s.sp - 2),
        memory: pushed(s.memory, s.sp, split(return_address)),
        pc: target,
        ..s
    }
}

/// The state after a return: the address on top of the stack becomes the
/// program counter.
pub open spec fn returned(s: CpuView) -> CpuView {
    CpuView {
        sp: wrap16(s.sp + 2),
        memory: popped(s.memory, s.sp),
        pc: pair(popped_pair(s.memory, s.sp).0, popped_pair(s.memory, s.sp).1),
        ..s
    }
}

/// The state after a jump to the 16-bit operand.
pub open spec fn jumped(s: CpuView) -> CpuView {
    CpuView { pc: imm16(s), ..s }
}

/// The state after `POP` into the register pair of code `p`.
pub open spec fn popped_into(s: CpuView, p: u8) -> CpuView {
    with_stack_pair(
        CpuView { sp: wrap16(s.sp + 2), memory: popped(s.memory, s.sp), ..s },
        p,
        popped_pair(s.memory, s.sp),
    )
}

/// The state after `PUSH` of the register pair of code `p`.
pub open spec fn pushed_from(s: CpuView, p: u8) -> CpuView {
    CpuView { sp: wrap16(s.sp - 2), memory: pushed(s.memory, s.sp, stack_pair(s, p)), ..s }
}

/// The state after `XTHL` exchanges HL with the pair on top of the stack.
pub open spec fn exchanged_with_stack(s: CpuView) -> CpuView {
    CpuView {
        h: s.memory[wrap16(s.sp + 1) as int],
        l: s.memory[s.sp as int],
        memory: s.memory.update(wrap16(s.sp + 1) as int, s.h).update(s.sp as int, s.l),
        ..s
    }
}

/// Opcodes `0x00..=0x3f`: immediate loads, loads and stores, 8- and 16-bit
/// increments, `DAD`, rotations and the accumulator and carry instructions.
pub open spec fn execute_low(op: u8, s: CpuView) -> (Result<u16, DispatchError>, CpuView) {
    let p = op / 16;
    let r = op / 8;
    if op == 0x00 {
        (Ok(0), s)
    } else if op % 16 == 1 {
        (Ok(2), with_register_pair(s, p, imm16(s)))
    } else if op == 0x02 || op == 0x12 {
        (Ok(0), CpuView { memory: s.memory.update(register_pair(s, p) as int, s.a), ..s })
    } else if op == 0x22 {
        (
            Ok(2),
            CpuView {
                memory: s.memory.update(imm16(s) as int, s.l).update(
                    wrap16(imm16(s) + 1) as int,
                    s.h,
                ),
                ..s
            },
        )
    } else if op == 0x32 {
        (Ok(2), CpuView { memory: s.memory.update(imm16(s) as int, s.a), ..s })
    } else if op % 16 == 3 {
        (Ok(0), with_register_pair(s, p, wrap16(register_pair(s, p) + 1)))
    } else if op % 8 == 4 {
        let x = operand(s, r);
        (
            Ok(0),
            with_operand(
                CpuView { flags: flags_from(x + 1).with(Flag::CY, s.flags.carry), ..s },
                r,
                wrap8(x + 1),
            ),
        )
    } else if op % 8 == 5 {
        let x = operand(s, r);
        (
            Ok(0),
            with_operand(
                CpuView { flags: flags_from(x - 1).with(Flag::CY, s.flags.carry), ..s },
                r,
                wrap8(x - 1),
            ),
        )
    } else if op % 8 == 6 {
        (Ok(1), with_operand(s, r, imm8(s)))
    } else if op == 0x07 {
        (
            Ok(0),
            CpuView {
                a: (wrap8(2 * s.a) + s.a / 128) as u8,
                flags: s.flags.with(Flag::CY, s.a >= 128),
                ..s
            },
        )
    } else if op == 0x0f {
        (
            Ok(0),
            CpuView {
                a: (s.a / 2 + 128 * (s.a % 2)) as u8,
                flags: s.flags.with(Flag::CY, s.a % 2 == 1),
                ..s
            },
        )
    } else if op == 0x17 {
        (
            Ok(0),
            CpuView {
                a: (wrap8(2 * s.a) + bit(s.flags.carry)) as u8,
                flags: s.flags.with(Flag::CY, s.a >= 128),
                ..s
            },
        )
    } else if op == 0x1f {
        (
            Ok(0),
            CpuView {
                a: (s.a / 2 + 128 * bit(s.flags.carry)) as u8,
                flags: s.flags.with(Flag::CY, s.a % 2 == 1),
                ..s
            },
        )
    } else if op == 0x2f {
        (Ok(0), CpuView { a: (255 - s.a) as u8, ..s })
    } else if op == 0x37 {
        (Ok(0), CpuView { flags: s.flags.with(Flag::CY, true), ..s })
    } else if op == 0x3f {
        (Ok(0), CpuView { flags: s.flags.with(Flag::CY, !s.flags.carry), ..s })
    } else if op % 16 == 9 {
        let sum = hl(s) + register_pair(s, p);
        (
            Ok(0),
            CpuView {
                h: split(wrap16(sum)).0,
                l: split(wrap16(sum)).1,
                flags: s.flags.with(Flag::CY, sum > 0xffff),
                ..s
            },
        )
    } else if op == 0x0a || op == 0x1a {
        (Ok(0), CpuView { a: s.memory[register_pair(s, p) as int], ..s })
    } else if op == 0x2a {
        (
            Ok(2),
            CpuView {
                l: s.memory[imm16(s) as int],
                h: s.memory[wrap16(imm16(s) + 1) as int],
                ..s
            },
        )
    } else if op == 0x3a {
        (Ok(2), CpuView { a: s.memory[imm16(s) as int], ..s })
    } else {
        (Ok(0), with_register_pair(s, p, wrap16(register_pair(s, p) - 1)))
    }
}

/// Opcodes `0xc0..=0xff`: returns, pops, jumps, calls, pushes, immediate ALU
/// operations, restarts, exchanges, and the interrupt switches.
pub open spec fn execute_high(op: u8, s: CpuView) -> (Result<u16, DispatchError>, CpuView) {
    let cc = (op / 8) % 8;
    if op % 8 == 0 {
        if condition(s.flags, cc) {
            (Ok(0), returned(s))
        } else {
            (Ok(0), s)
        }
    } else if op == 0xc9 {
        (Ok(0), returned(s))
    } else if op % 16 == 1 {
        (Ok(0), popped_into(s, (op / 16) % 4))
    } else if op % 8 == 2 {
        if condition(s.flags, cc) {
            (Ok(0), jumped(s))
        } else {
            (Ok(2), s)
        }
    } else if op == 0xc3 {
        (Ok(0), jumped(s))
    } else if op % 8 == 4 {
        if condition(s.flags, cc) {
            (Ok(0), called(s, imm16(s), wrap16(s.pc + 2)))
        } else {
            (Ok(2), s)
        }
    } else if op == 0xcd {
        (Ok(0), called(s, imm16(s), wrap16(s.pc + 2)))
    } else if op % 16 == 5 {
        (Ok(0), pushed_from(s, (op / 16) % 4))
    } else if op % 8 == 6 {
        (Ok(1), with_alu(s, cc, imm8(s)))
    } else if op % 8 == 7 {
        (Ok(0), called(s, (8 * cc) as u16, s.pc))
    } else if op == 0xe3 {
        (Ok(0), exchanged_with_stack(s))
    } else if op == 0xe9 {
        (Ok(0), CpuView { pc: hl(s), ..s })
    } else if op == 0xeb {
        (Ok(0), CpuView { d: s.h, e: s.l, h: s.d, l: s.e, ..s })
    } else if op == 0xf3 {
        (Ok(0), CpuView { interrupt_enabled: false, ..s })
    } else if op == 0xf9 {
        (Ok(0), CpuView { sp: hl(s), ..s })
    } else {
        (Ok(0), CpuView { interrupt_enabled: true, ..s })
    }
}

/// The outcome and the next state when `op` is executed in state `s`, the
/// program counter already past the opcode byte. The outcome is the number of
/// operand bytes the caller still has to skip (0 when the instruction moved the
/// program counter itself), `HALT`, or the rejection of an opcode, which leaves
/// the state unchanged.
pub open spec fn execute(op: u8, s: CpuView) -> (Result<u16, DispatchError>, CpuView) {
    if unimplemented(op) {
        (Err(DispatchError::UnimplementedOpcode(op)), s)
    } else if op == 0x76 {
        (Ok(HALT), s)
    } else if op < 0x40 {
        execute_low(op, s)
    } else if op < 0x80 {
        (Ok(0), with_operand(s, (op / 8) % 8, operand(s, op % 8)))
    } else if op < 0xc0 {
        (Ok(0), with_alu(s, (op / 8) % 8, operand(s, op % 8)))
    } else {
        execute_high(op, s)
    }
}

/// A `CALL` followed by a `RET` comes back to the instruction after the call
/// with the stack pointer where it was, in every state.
pub proof fn lemma_call_then_return(s: CpuView)
    requires
        s.memory.len() == crate::cpu::MEMORY_SIZE,
    ensures
        execute(0xcd, s).1.pc == imm16(s),
        execute(0xc9, execute(0xcd, s).1).1.pc == wrap16(s.pc + 2),
        execute(0xc9, execute(0xcd, s).1).1.sp == s.sp,
{
    crate::cpu::lemma_call_ret_symmetry(wrap16(s.pc + 2), s.sp, s.memory);
}

fn read_operand(cpu: &Cpu, r: u8) -> (v: u8)
    ensures
        v == operand(cpu@, r),
{
    match r {
        0 => cpu.b.value,
        1 => cpu.c.value,
        2 => cpu.d.value,
        3 => cpu.e.value,
        4 => cpu.h.value,
        5 => cpu.l.value,
        6 => cpu.memory.read_at(pair_registers(cpu.h.value, cpu.l.value)),
        _ => cpu.a.value,
    }
}

fn write_operand(cpu: &mut Cpu, r: u8, v: u8)
    ensures
        final(cpu)@ == with_operand(old(cpu)@, r, v),
{
    match r {
        0 => cpu.b.value = v,
        1 => cpu.c.value = v,
        2 => cpu.d.value = v,
        3 => cpu.e.value = v,
        4 => cpu.h.value = v,
        5 => cpu.l.value = v,
        6 => cpu.memory.write_at(pair_registers(cpu.h.value, cpu.l.value), v),
        _ => cpu.a.value = v,
    }
}

fn read_pair(cpu: &Cpu, p: u8) -> (v: u16)
    ensures
        v == register_pair(cpu@, p),
{
    match p {
        0 => pair_registers(cpu.b.value, cpu.c.value),
        1 => pair_registers(cpu.d.value, cpu.e.value),
        2 => pair_registers(cpu.h.value, cpu.l.value),
        _ => cpu.sp.address,
    }
}

fn write_pair(cpu: &mut Cpu, p: u8, v: u16)
    ensures
        final(cpu)@ == with_register_pair(old(cpu)@, p, v),
{
    let (hi, lo): (u8, u8) = split_register_pair(v);
    match p {
        0 => {
            cpu.b.value = hi;
            cpu.c.value = lo;
        },
        1 => {
            cpu.d.value = hi;
            cpu.e.value = lo;
        },
        2 => {
            cpu.h.value = hi;
            cpu.l.value = lo;
        },
        _ => cpu.sp.address = v,
    }
}

fn read_stack_pair(cpu: &Cpu, p: u8) -> (v: (u8, u8))
    ensures
        v == stack_pair(cpu@, p),
{
    match p {
        0 => (cpu.b.value, cpu.c.value),
        1 => (cpu.d.value, cpu.e.value),
        2 => (cpu.h.value, cpu.l.value),
        _ => (cpu.a.value, cpu.flags.to_byte()),
    }
}

fn write_stack_pair(cpu: &mut Cpu, p: u8, v: (u8, u8))
    ensures
        final(cpu)@ == with_stack_pair(old(cpu)@, p, v),
{
    match p {
        0 => {
            cpu.b.value = v.0;
            cpu.c.value = v.1;
        },
        1 => {
            cpu.d.value = v.0;
            cpu.e.value = v.1;
        },
        2 => {
            cpu.h.value = v.0;
            cpu.l.value = v.1;
        },
        _ => {
            cpu.a.value = v.0;
            cpu.flags = Flags::from_byte(v.1);
        },
    }
}

fn condition_holds(flags: &Flags, cc: u8) -> (r: bool)
    ensures
        r == condition(*flags, cc),
{
    match cc {
        0 => !flags.zero,
        1 => flags.zero,
        2 => !flags.carry,
        3 => flags.carry,
        4 => !flags.parity,
        5 => flags.parity,
        6 => !flags.sign,
        _ => flags.sign,
    }
}

/// `a + 1` modulo the 16-bit address space.
fn next_address(a: u16) -> (r: u16)
    ensures
        r == wrap16(a + 1),
{
    if a == 0xffff {
        0
    } else {
        a + 1
    }
}

/// The two operand bytes after the opcode, low byte first.
fn operand_bytes(cpu: &Cpu) -> (r: (u8, u8))
    ensures
        r == (cpu@.memory[cpu@.pc as int], cpu@.memory[wrap16(cpu@.pc + 1) as int]),
        pair(r.1, r.0) == imm16(cpu@),
{
    (cpu.memory.read_at(cpu.pc.address), cpu.memory.read_at(next_address(cpu.pc.address)))
}

fn execute_alu(kind: u8, v: u8, cpu: &mut Cpu)
    ensures
        final(cpu)@ == with_alu(old(cpu)@, kind, v),
{
    match kind {
        0 => cpu.a.value = crate::cpu::add(cpu.a.value, v, &mut cpu.flags),
        1 => cpu.a.value = adc(cpu.a.value, v, &mut cpu.flags),
        2 => cpu.a.value = crate::cpu::sub(cpu.a.value, v, &mut cpu.flags),
        3 => cpu.a.value = sbb(cpu.a.value, v, &mut cpu.flags),
        4 => cpu.a.value = and(cpu.a.value, v, &mut cpu.flags),
        5 => cpu.a.value = xor(cpu.a.value, v, &mut cpu.flags),
        6 => cpu.a.value = or(cpu.a.value, v, &mut cpu.flags),
        _ => cmp(cpu.a.value, v, &mut cpu.flags),
    }
}

/// `INR r`, `DCR r` and `MVI r`: the register operand sits in bits 3 to 5.
fn execute_register_op(op: u8, cpu: &mut Cpu) -> (r: Result<u16, DispatchError>)
    requires
        op < 0x40,
        op % 8 == 4 || op % 8 == 5 || op % 8 == 6,
    ensures
        (r, final(cpu)@) == execute_low(op, old(cpu)@),
{
    let reg: u8 = op / 8;
    if op % 8 == 4 {
        // INR
        let x: u8 = read_operand(cpu, reg);
        let v: u8 = inr(x, &mut cpu.flags);
        write_operand(cpu, reg, v);
        Ok(0)
    } else if op % 8 == 5 {
        // DCR
        let x: u8 = read_operand(cpu, reg);
        let v: u8 = dcr(x, &mut cpu.flags);
        write_operand(cpu, reg, v);
        Ok(0)
    } else {
        // MVI
        let v: u8 = cpu.memory.read_at(cpu.pc.address);
        write_operand(cpu, reg, v);
        Ok(1)
    }
}

/// `LXI`, `INX`, `DAD` and `DCX`: the register pair sits in bits 4 and 5.
fn execute_pair_op(op: u8, cpu: &mut Cpu) -> (r: Result<u16, DispatchError>)
    requires
        op < 0x40,
        op % 16 == 1 || op % 16 == 3 || op % 16 == 9 || op % 16 == 11,
    ensures
        (r, final(cpu)@) == execute_low(op, old(cpu)@),
{
    let rp: u8 = op / 16;
    if op % 16 == 1 {
        // LXI
        let (lo, hi): (u8, u8) = operand_bytes(cpu);
        write_pair(cpu, rp, pair_registers(hi, lo));
        Ok(2)
    } else if op % 16 == 3 {
        // INX
        let (hi, lo): (u8, u8) = inx(read_pair(cpu, rp));
        write_pair(cpu, rp, pair_registers(hi, lo));
        Ok(0)
    } else if op % 16 == 9 {
        // DAD
        let addend: u16 = read_pair(cpu, rp);
        let hl: u16 = pair_registers(cpu.h.value, cpu.l.value);
        let (hi, lo): (u8, u8) = dad(hl, addend, &mut cpu.flags);
        cpu.h.value = hi;
        cpu.l.value = lo;
        Ok(0)
    } else {
        // DCX
        let (hi, lo): (u8, u8) = dcx(read_pair(cpu, rp));
        write_pair(cpu, rp, pair_registers(hi, lo));
        Ok(0)
    }
}

/// Loads and stores of the accumulator and of HL, through a register pair or
/// an absolute address.
fn execute_memory_op(op: u8, cpu: &mut Cpu) -> (r: Result<u16, DispatchError>)
    requires
        op == 0x02 || op == 0x12 || op == 0x22 || op == 0x32 || op == 0x0a || op == 0x1a || op
            == 0x2a || op == 0x3a,
    ensures
        (r, final(cpu)@) == execute_low(op, old(cpu)@),
{
    match op {
        // STAX B, STAX D
        0x02 | 0x12 => {
            let address: u16 = read_pair(cpu, op / 16);
            cpu.memory.write_at(address, cpu.a.value);
            Ok(0)
        },
        // SHLD
        0x22 => {
            let (lo, hi): (u8, u8) = operand_bytes(cpu);
            let address: u16 = pair_registers(hi, lo);
            cpu.memory.write_at(address, cpu.l.value);
            cpu.memory.write_at(next_address(address), cpu.h.value);
            Ok(2)
        },
        // STA
        0x32 => {
            let (lo, hi): (u8, u8) = operand_bytes(cpu);
            cpu.memory.write_at(pair_registers(hi, lo), cpu.a.value);
            Ok(2)
        },
        // LDAX B, LDAX D
        0x0a | 0x1a => {
            let address: u16 = read_pair(cpu, op / 16);
            cpu.a.value = cpu.memory.read_at(address);
            Ok(0)
        },
        // LHLD
        0x2a => {
            let (lo, hi): (u8, u8) = operand_bytes(cpu);
            let address: u16 = pair_registers(hi, lo);
            cpu.l.value = cpu.memory.read_at(address);
            cpu.h.value = cpu.memory.read_at(next_address(address));
            Ok(2)
        },
        // LDA
        _ => {
            let (lo, hi): (u8, u8) = operand_bytes(cpu);
            cpu.a.value = cpu.memory.read_at(pair_registers(hi, lo));
            Ok(2)
        },
    }
}

/// `NOP`, the rotations, and the accumulator and carry instructions.
fn execute_accumulator_op(op: u8, cpu: &mut Cpu) -> (r: Result<u16, DispatchError>)
    requires
        op == 0x00 || op == 0x07 || op == 0x0f || op == 0x17 || op == 0x1f || op == 0x2f || op
            == 0x37 || op == 0x3f,
    ensures
        (r, final(cpu)@) == execute_low(op, old(cpu)@),
{
    match op {
        // NOP
        0x00 => {},
        // RLC
        0x07 => cpu.a.value = rotate_left(cpu.a.value, false, &mut cpu.flags),
        // RRC
        0x0f => cpu.a.value = rotate_right(cpu.a.value, false, &mut cpu.flags),
        // RAL
        0x17 => cpu.a.value = rotate_left(cpu.a.value, true, &mut cpu.flags),
        // RAR
        0x1f => cpu.a.value = rotate_right(cpu.a.value, true, &mut cpu.flags),
        // CMA
        0x2f => cpu.a.value = 255 - cpu.a.value,
        // STC
        0x37 => cpu.flags.set_flag(Flag::CY),
        // CMC
        _ => {
            if cpu.flags.carry {
                cpu.flags.clear_flag(Flag::CY);
            } else {
                cpu.flags.set_flag(Flag::CY);
            }
        },
    }
    Ok(0)
}

/// Opcodes `0x00..=0x3f` that the dispatcher implements.
fn execute_low_block(op: u8, cpu: &mut Cpu) -> (r: Result<u16, DispatchError>)
    requires
        op < 0x40,
        !unimplemented(op),
    ensures
        (r, final(cpu)@) == execute_low(op, old(cpu)@),
{
    match op {
        0x04 | 0x0c | 0x14 | 0x1c | 0x24 | 0x2c | 0x34 | 0x3c | 0x05 | 0x0d | 0x15 | 0x1d | 0x25
        | 0x2d | 0x35 | 0x3d | 0x06 | 0x0e | 0x16 | 0x1e | 0x26 | 0x2e | 0x36 | 0x3e => {
            execute_register_op(op, cpu)
        },
        0x01 | 0x11 | 0x21 | 0x31 | 0x03 | 0x13 | 0x23 | 0x33 | 0x09 | 0x19 | 0x29 | 0x39 | 0x0b
        | 0x1b | 0x2b | 0x3b => execute_pair_op(op, cpu),
        0x02 | 0x12 | 0x22 | 0x32 | 0x0a | 0x1a | 0x2a | 0x3a => execute_memory_op(op, cpu),
        _ => execute_accumulator_op(op, cpu),
    }
}

/// `RET` and the conditional returns.
fn execute_return(condition: Option<bool>, cpu: &mut Cpu)
    ensures
        final(cpu)@ == if crate::cpu::taken(condition) {
            returned(old(cpu)@)
        } else {
            old(cpu)@
        },
{
    match ret(condition, &mut cpu.sp, &mut cpu.memory) {
        Some(address) => cpu.pc.address = address,
        None => {},
    }
}

/// `JMP` and the conditional jumps to the 16-bit operand.
fn execute_jump(condition: Option<bool>, cpu: &mut Cpu) -> (r: Result<u16, DispatchError>)
    ensures
        (r, final(cpu)@) == if crate::cpu::taken(condition) {
            (Ok::<u16, DispatchError>(0), jumped(old(cpu)@))
        } else {
            (Ok::<u16, DispatchError>(2), old(cpu)@)
        },
{
    match jmp(operand_bytes(cpu), condition) {
        Some(address) => {
            cpu.pc.address = address;
            Ok(0)
        },
        None => Ok(2),
    }
}

/// `CALL` and the conditional calls to the 16-bit operand; the return address
/// is the instruction after the operand.
fn execute_call(condition: Option<bool>, cpu: &mut Cpu) -> (r: Result<u16, DispatchError>)
    ensures
        (r, final(cpu)@) == if crate::cpu::taken(condition) {
            (
                Ok::<u16, DispatchError>(0),
                called(old(cpu)@, imm16(old(cpu)@), wrap16(old(cpu)@.pc + 2)),
            )
        } else {
            (Ok::<u16, DispatchError>(2), old(cpu)@)
        },
{
    let bytes: (u8, u8) = operand_bytes(cpu);
    let return_address: u16 = next_address(next_address(cpu.pc.address));
    match call(bytes, condition, &mut cpu.sp, &mut cpu.memory, return_address) {
        Some(address) => {
            cpu.pc.address = address;
            Ok(0)
        },
        None => Ok(2),
    }
}

/// `RST n`: a call to address `8 * n` that returns to the program counter.
fn execute_restart(n: u8, cpu: &mut Cpu)
    requires
        n < 8,
    ensures
        final(cpu)@ == called(old(cpu)@, (8 * n) as u16, old(cpu)@.pc),
{
    let return_address: u16 = cpu.pc.address;
    match call((8 * n, 0x00), None, &mut cpu.sp, &mut cpu.memory, return_address) {
        Some(address) => cpu.pc.address = address,
        None => {},
    }
}

/// `POP` into the register pair of code `p`.
fn execute_pop(p: u8, cpu: &mut Cpu)
    ensures
        final(cpu)@ == popped_into(old(cpu)@, p),
{
    let v: (u8, u8) = pop(&mut cpu.sp, &mut cpu.memory);
    write_stack_pair(cpu, p, v);
}

/// `PUSH` of the register pair of code `p`.
fn execute_push(p: u8, cpu: &mut Cpu)
    ensures
        final(cpu)@ == pushed_from(old(cpu)@, p),
{
    let v: (u8, u8) = read_stack_pair(cpu, p);
    push(v, &mut cpu.sp, &mut cpu.memory);
}

/// `XTHL`: exchanges HL with the pair on top of the stack.
fn execute_exchange_with_stack(cpu: &mut Cpu)
    ensures
        final(cpu)@ == exchanged_with_stack(old(cpu)@),
{
    let ghost s = cpu@;
    let (h, l): (u8, u8) = pop(&mut cpu.sp, &mut cpu.memory);
    push((cpu.h.value, cpu.l.value), &mut cpu.sp, &mut cpu.memory);
    cpu.h.value = h;
    cpu.l.value = l;
    assert(wrap16(wrap16(s.sp + 2) - 1) == wrap16(s.sp + 1));
    assert(cpu@.memory =~= s.memory.update(wrap16(s.sp + 1) as int, s.h).update(
        s.sp as int,
        s.l,
    ));
}

/// Opcodes `0xc0..=0xff` that the dispatcher implements.
fn execute_high_block(op: u8, cpu: &mut Cpu) -> (r: Result<u16, DispatchError>)
    requires
        op >= 0xc0,
        !unimplemented(op),
    ensures
        (r, final(cpu)@) == execute_high(op, old(cpu)@),
{
    let cc: u8 = (op / 8) % 8;
    match op {
        // RNZ, RZ, RNC, RC, RPO, RPE, RP, RM
        0xc0 | 0xc8 | 0xd0 | 0xd8 | 0xe0 | 0xe8 | 0xf0 | 0xf8 => {
            let go: bool = condition_holds(&cpu.flags, cc);
            execute_return(Some(go), cpu);
            Ok(0)
        },
        // RET
        0xc9 => {
            execute_return(None, cpu);
            Ok(0)
        },
        // POP B, POP D, POP H, POP PSW
        0xc1 | 0xd1 | 0xe1 | 0xf1 => {
            execute_pop((op / 16) % 4, cpu);
            Ok(0)
        },
        // JNZ, JZ, JNC, JC, JPO, JPE, JP, JM
        0xc2 | 0xca | 0xd2 | 0xda | 0xe2 | 0xea | 0xf2 | 0xfa => {
            let go: bool = condition_holds(&cpu.flags, cc);
            execute_jump(Some(go), cpu)
        },
        // JMP
        0xc3 => execute_jump(None, cpu),
        // CNZ, CZ, CNC, CC, CPO, CPE, CP, CM
        0xc4 | 0xcc | 0xd4 | 0xdc | 0xe4 | 0xec | 0xf4 | 0xfc => {
            let go: bool = condition_holds(&cpu.flags, cc);
            execute_call(Some(go), cpu)
        },
        // CALL
        0xcd => execute_call(None, cpu),
        // PUSH B, PUSH D, PUSH H, PUSH PSW
        0xc5 | 0xd5 | 0xe5 | 0xf5 => {
            execute_push((op / 16) % 4, cpu);
            Ok(0)
        },
        // ADI, ACI, SUI, SBI, ANI, XRI, ORI, CPI
        0xc6 | 0xce | 0xd6 | 0xde | 0xe6 | 0xee | 0xf6 | 0xfe => {
            let v: u8 = cpu.memory.read_at(cpu.pc.address);
            execute_alu(cc, v, cpu);
            Ok(1)
        },
        // RST 0 to RST 7
        0xc7 | 0xcf | 0xd7 | 0xdf | 0xe7 | 0xef | 0xf7 | 0xff => {
            execute_restart(cc, cpu);
            Ok(0)
        },
        // XTHL
        0xe3 => {
            execute_exchange_with_stack(cpu);
            Ok(0)
        },
        // PCHL
        0xe9 => {
            cpu.pc.address = pair_registers(cpu.h.value, cpu.l.value);
            Ok(0)
        },
        // XCHG
        0xeb => {
            let (h, d): (u8, u8) = crate::cpu::swap_registers(cpu.h.value, cpu.d.value);
            let (l, e): (u8, u8) = crate::cpu::swap_registers(cpu.l.value, cpu.e.value);
            cpu.h.value = h;
            cpu.d.value = d;
            cpu.l.value = l;
            cpu.e.value = e;
            Ok(0)
        },
        // DI
        0xf3 => {
            cpu.interrupt_enabled = false;
            Ok(0)
        },
        // SPHL
        0xf9 => {
            cpu.sp.address = pair_registers(cpu.h.value, cpu.l.value);
            Ok(0)
        },
        // EI
        _ => {
            cpu.interrupt_enabled = true;
            Ok(0)
        },
    }
}

/// Executes one opcode against the processor state. The program counter
/// already points past the opcode byte; the result is the number of operand
/// bytes the caller still has to skip, `HALT`, or the rejection of an opcode
/// that this dispatcher does not execute, with the state untouched.
pub fn handle_op_code(op_code: u8, cpu: &mut Cpu) -> (r: Result<u16, DispatchError>)
    ensures
        (r, final(cpu)@) == execute(op_code, old(cpu)@),
{
    match op_code {
        0x08 | 0x10 | 0x18 | 0x20 | 0x28 | 0x30 | 0x38 | 0xcb | 0xd9 | 0xdd | 0xed | 0xfd | 0x27
        | 0xd3 | 0xdb => Err(DispatchError::UnimplementedOpcode(op_code)),
        // HLT
        0x76 => Ok(HALT),
        0x00..=0x3f => execute_low_block(op_code, cpu),
        // MOV
        0x40..=0x7f => {
            let v: u8 = read_operand(cpu, op_code % 8);
            write_operand(cpu, (op_code / 8) % 8, v);
            Ok(0)
        },
        // ADD, ADC, SUB, SBB, ANA, XRA, ORA, CMP
        0x80..=0xbf => {
            let v: u8 = read_operand(cpu, op_code % 8);
            execute_alu((op_code / 8) % 8, v, cpu);
            Ok(0)
        },
        0xc0..=0xff => execute_high_block(op_code, cpu),
    }
}

} // verus!
