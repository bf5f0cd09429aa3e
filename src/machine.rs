use vstd::prelude::*;

use crate::cpu::dispatcher::{execute, handle_op_code, DispatchError, HALT};
use crate::cpu::timing::{clock_cycles, CLOCK_CYCLES};
use crate::cpu::{wrap16, Cpu, CpuView};
use crate::hardware::{
    handle_io, in_port, io_supported, is_supported_io, out_port, port_value, written, Hardware, IN,
    OUT,
};

verus! {

broadcast use crate::cpu::lemma_memory_size;

/// How one fetch-and-execute step ended.
#[derive(Clone, Copy, Debug, PartialEq, Eq, Structural)]
pub enum Outcome {
    /// The instruction ran and the program counter is at the next one.
    Continue,
    /// `HLT` was fetched: the run is over.
    Halted,
    /// The dispatcher rejected the opcode; the program counter is past the opcode byte.
    Rejected(DispatchError),
    /// An `IN` or `OUT` named a port that the board does not have.
    UnsupportedPort(u8),
}

/// What one step fetched, what it costs, and how it ended.
#[derive(Clone, Copy, Debug, PartialEq, Eq, Structural)]
pub struct StepReport {
    pub op_code: u8,
    pub cycles: u8,
    pub outcome: Outcome,
}

/// The state once the opcode byte has been fetched.
pub open spec fn fetched(s: CpuView) -> CpuView {
    CpuView { pc: wrap16(s.pc + 1), ..s }
}

/// The outcome, processor state and device state after executing the
/// instruction at the program counter: `IN` and `OUT` go to the devices, every
/// other opcode to the dispatcher, and the program counter then moves past the
/// operand bytes.
pub open spec fn stepped(s: CpuView, h: Hardware) -> (Outcome, CpuView, Hardware) {
    let op = s.memory[s.pc as int];
    let f = fetched(s);
    if op == OUT || op == IN {
        let port = f.memory[f.pc as int];
        if !io_supported(op, port) {
            (Outcome::UnsupportedPort(port), f, h)
        } else if op == OUT {
            (Outcome::Continue, CpuView { pc: wrap16(f.pc + 1), ..f }, written(h, out_port(port)->0, f.a))
        } else {
            (
                Outcome::Continue,
                CpuView { a: port_value(h, in_port(port)->0), pc: wrap16(f.pc + 1), ..f },
                h,
            )
        }
    } else {
        let next = execute(op, f).1;
        match execute(op, f).0 {
            Err(e) => (Outcome::Rejected(e), next, h),
            Ok(n) => if n == HALT {
                (Outcome::Halted, next, h)
            } else {
                (Outcome::Continue, CpuView { pc: wrap16(next.pc + n), ..next }, h)
            },
        }
    }
}

/// `a + n` modulo the 16-bit address space.
fn advance(a: u16, n: u16) -> (r: u16)
    ensures
        r == wrap16(a + n),
{
    ((a as u32 + n as u32) % 0x10000) as u16
}

/// Fetches the opcode at the program counter and executes it.
pub fn step(cpu: &mut Cpu, hardware: &mut Hardware) -> (r: StepReport)
    ensures
        r.op_code == old(cpu)@.memory[old(cpu)@.pc as int],
        r.cycles == CLOCK_CYCLES@[r.op_code as int],
        (r.outcome, final(cpu)@, *final(hardware)) == stepped(old(cpu)@, *old(hardware)),
{
    let op_code: u8 = cpu.memory.read_at(cpu.pc.address);
    cpu.pc.address = advance(cpu.pc.address, 1);
    let cycles: u8 = clock_cycles(op_code);
    let outcome: Outcome = if op_code == OUT || op_code == IN {
        let port_byte: u8 = cpu.memory.read_at(cpu.pc.address);
        if !is_supported_io(op_code, port_byte) {
            Outcome::UnsupportedPort(port_byte)
        } else {
            match handle_io(op_code, hardware, port_byte, cpu.a.value) {
                Some(value) => cpu.a.value = value,
                None => {},
            }
            cpu.pc.address = advance(cpu.pc.address, 1);
            Outcome::Continue
        }
    } else {
        match handle_op_code(op_code, cpu) {
            Err(e) => Outcome::Rejected(e),
            Ok(additional_bytes) => {
                if additional_bytes == HALT {
                    Outcome::Halted
                } else {
                    cpu.pc.address = advance(cpu.pc.address, additional_bytes);
                    Outcome::Continue
                }
            },
        }
    };
    StepReport { op_code, cycles, outcome }
}

} // verus!
