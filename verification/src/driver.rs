//! The drivers.  The run driver repeats decode-then-execute from the
//! current program counter until it reaches a caller-chosen sentinel
//! address, exhausts its step budget, or meets a fatal error.  The
//! disassembly driver walks a whole buffer from the start, decoding
//! and rendering, advancing by each instruction's reported size.

use vstd::prelude::*;

use crate::arith::MEMORY_SIZE;
use crate::decode::{decode, decode_spec, EmuError};
use crate::exec::{execute, step_effect};
use crate::render::{render, render_line};
use crate::state::{initial_cpu, init_cpu, load_rom_to_memory, loaded_mem, CpuModel, CpuState};

verus! {

/// One fetch-decode-execute step in mathematical form: the next
/// machine state and the instruction's cycle cost, or the error that
/// stops the machine.  A decode failure reports the current program
/// counter as its offset.
pub open spec fn step_spec(m: CpuModel) -> Result<(CpuModel, u32), EmuError> {
    match decode_spec(m.mem, m.pc as usize) {
        Err(e) => Err(e),
        Ok(d) => match step_effect(m, d) {
            None => Err(EmuError::UnsupportedOpcode { opcode: d.opcode, offset: m.pc as usize }),
            Some((m2, c)) => Ok((m2, c)),
        },
    }
}

/// Performs one fetch-decode-execute step at the current program
/// counter and returns the instruction's cycle cost.  On any failure
/// the machine state is left exactly as it was: no partial execution.
pub fn step(state: &mut CpuState) -> (r: Result<u32, EmuError>)
    requires
        old(state).wf(),
    ensures
        final(state).wf(),
        match step_spec(old(state)@) {
            Ok((m2, c)) => r == Ok::<u32, EmuError>(c) && final(state)@ == m2,
            Err(e) => r == Err::<u32, EmuError>(e) && final(state)@ == old(state)@,
        },
{
    let pc = state.pc;
    let d = match decode(&state.memory, pc as usize) {
        Ok(d) => d,
        Err(e) => {
            return Err(e);
        },
    };
    execute(state, &d)
}

/// How a run ended without an error: at the sentinel address, or by
/// using up the caller's step budget.
#[derive(Clone, Copy, PartialEq, Eq, Structural, Debug)]
pub enum RunStatus {
    /// The program counter reached the halt address.
    Halted,
    /// The step budget ran out before the halt address was reached.
    StepLimit,
}

/// The run driver in mathematical form: the machine state when the
/// run stops, and how it stopped.  The sentinel is checked before
/// each step, and a failed step leaves the state at the failure
/// point.
pub open spec fn run_spec(m: CpuModel, halt_address: u16, fuel: nat) -> (CpuModel, Result<
    RunStatus,
    EmuError,
>)
    decreases fuel,
{
    if m.pc == halt_address {
        (m, Ok(RunStatus::Halted))
    } else if fuel == 0 {
        (m, Ok(RunStatus::StepLimit))
    } else {
        match step_spec(m) {
            Err(e) => (m, Err(e)),
            Ok((m2, _)) => run_spec(m2, halt_address, (fuel - 1) as nat),
        }
    }
}

/// Runs the machine from its current program counter until the
/// counter reaches `halt_address`, at most `max_steps` instructions.
/// A decode or execute failure is fatal: the loop stops at once and
/// the state stays exactly as the failure found it.
pub fn run(state: &mut CpuState, halt_address: u16, max_steps: usize) -> (r: Result<
    RunStatus,
    EmuError,
>)
    requires
        old(state).wf(),
    ensures
        final(state).wf(),
        ({
            let (m2, res) = run_spec(old(state)@, halt_address, max_steps as nat);
            final(state)@ == m2 && r == res
        }),
{
    let mut fuel = max_steps;
    loop
        invariant
            state.wf(),
            fuel <= max_steps,
            run_spec(old(state)@, halt_address, max_steps as nat) == run_spec(
                state@,
                halt_address,
                fuel as nat,
            ),
        decreases fuel,
    {
        if state.pc == halt_address {
            return Ok(RunStatus::Halted);
        }
        if fuel == 0 {
            return Ok(RunStatus::StepLimit);
        }
        match step(state) {
            Ok(_) => {},
            Err(e) => {
                return Err(e);
            },
        }
        fuel = fuel - 1;
    }
}

/// Builds a fresh machine, loads the ROM image at address zero, sets
/// the entry point, and runs to the halt address: the whole command
/// surface of the execution path, returning the final machine state
/// along with how the run ended.
pub fn run_program(rom: &Vec<u8>, entry_point: u16, halt_address: u16, max_steps: usize) -> (r: (
    CpuState,
    Result<RunStatus, EmuError>,
))
    requires
        rom@.len() <= MEMORY_SIZE,
    ensures
        r.0.wf(),
        ({
            let start = CpuModel {
                pc: entry_point,
                mem: loaded_mem(initial_cpu().mem, rom@),
                ..initial_cpu()
            };
            let (m2, res) = run_spec(start, halt_address, max_steps as nat);
            r.0@ == m2 && r.1 == res
        }),
{
    let mut cpu = init_cpu();
    load_rom_to_memory(&mut cpu, rom);
    cpu.pc = entry_point;
    let res = run(&mut cpu, halt_address, max_steps);
    (cpu, res)
}

/// The disassembly driver in mathematical form: the lines produced by
/// decoding and rendering the whole buffer from `offset`, advancing
/// by each instruction's encoded size, or the decode error that
/// aborts the pass.  (The first branch only keeps the definition
/// total: no buffer wider than the address type can exist.)
pub open spec fn disasm_lines(mem: Seq<u8>, offset: int) -> Result<Seq<Seq<char>>, EmuError>
    decreases mem.len() - offset,
{
    if mem.len() > usize::MAX || offset < 0 {
        Ok(Seq::empty())
    } else if offset >= mem.len() {
        Ok(Seq::empty())
    } else {
        match decode_spec(mem, offset as usize) {
            Err(e) => Err(e),
            Ok(d) => match disasm_lines(mem, offset + d.size) {
                Err(e) => Err(e),
                Ok(rest) => Ok(seq![render_line(d, offset as usize)] + rest),
            },
        }
    }
}

/// Disassembles a whole buffer from its start: one text line per
/// instruction, in instruction order, each advance exactly the
/// instruction's encoded size.  A decode failure aborts the pass and
/// is reported with the offending offset and opcode; there is no
/// resynchronisation by skipping a byte.
pub fn disassemble_all(buf: &Vec<u8>) -> (r: Result<Vec<String>, EmuError>)
    ensures
        match disasm_lines(buf@, 0) {
            Ok(lines) => r is Ok && r->Ok_0.deep_view() == lines,
            Err(e) => r == Err::<Vec<String>, EmuError>(e),
        },
{
    let n = buf.len();
    let mut lines: Vec<String> = Vec::new();
    let mut offset: usize = 0;
    while offset < n
        invariant
            n == buf@.len(),
            offset <= n,
            match disasm_lines(buf@, offset as int) {
                Ok(rest) => disasm_lines(buf@, 0) == Ok::<Seq<Seq<char>>, EmuError>(
                    lines.deep_view() + rest,
                ),
                Err(e) => disasm_lines(buf@, 0) == Err::<Seq<Seq<char>>, EmuError>(e),
            },
        decreases n - offset,
    {
        let d = match decode(buf, offset) {
            Ok(d) => d,
            Err(e) => {
                return Err(e);
            },
        };
        let line = render(&d, offset);
        let ghost lines_before = lines.deep_view();
        lines.push(line);
        proof {
            assert(lines.deep_view() =~= lines_before.push(line@));
            if let Ok(rest) = disasm_lines(buf@, offset + d.size) {
                assert(lines.deep_view() + rest =~= lines_before + (seq![
                    render_line(d, offset),
                ] + rest));
            }
        }
        offset = offset + d.size as usize;
    }
    proof {
        assert(lines.deep_view() + Seq::<Seq<char>>::empty() =~= lines.deep_view());
    }
    Ok(lines)
}

} // verus!
