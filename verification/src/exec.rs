//! The instruction executor: applies a decoded instruction to the
//! machine state, advances the program counter, recomputes the flags
//! the instruction is documented to touch, and returns its cycle
//! cost.  `step_effect` is the effect table in mathematical form; the
//! executable `execute` is proved to follow it exactly.  Opcodes the
//! catalogue decodes but the effect table does not model are refused
//! with `UnsupportedOpcode`, leaving the state untouched.

use vstd::prelude::*;

use crate::arith::{
    dec8, even_parity, high_byte, inc8, low_byte, pair_val, pair_value, parity, split_high,
    split_low, sub8, wrap16, wrap_add16, wrap_sub16,
};
use crate::decode::{Cond, Decoded, EmuError, Op, Reg8, RegPair};
use crate::state::{ConditionCodes, CpuModel, CpuState};

verus! {

impl CpuModel {
    /// The value of an 8-bit operand location; `M` is the memory byte
    /// addressed by the HL pair.
    pub open spec fn get_reg(self, r: Reg8) -> u8 {
        match r {
            Reg8::A => self.a,
            Reg8::B => self.b,
            Reg8::C => self.c,
            Reg8::D => self.d,
            Reg8::E => self.e,
            Reg8::H => self.h,
            Reg8::L => self.l,
            Reg8::M => self.mem[pair_val(self.h, self.l) as int],
        }
    }

    /// The state after writing an 8-bit operand location.
    pub open spec fn set_reg(self, r: Reg8, v: u8) -> CpuModel {
        match r {
            Reg8::A => CpuModel { a: v, ..self },
            Reg8::B => CpuModel { b: v, ..self },
            Reg8::C => CpuModel { c: v, ..self },
            Reg8::D => CpuModel { d: v, ..self },
            Reg8::E => CpuModel { e: v, ..self },
            Reg8::H => CpuModel { h: v, ..self },
            Reg8::L => CpuModel { l: v, ..self },
            Reg8::M => CpuModel {
                mem: self.mem.update(pair_val(self.h, self.l) as int, v),
                ..self
            },
        }
    }

    /// A register pair read as one 16-bit value, high byte in the
    /// first-named register.
    pub open spec fn get_pair(self, p: RegPair) -> u16 {
        match p {
            RegPair::Bc => pair_val(self.b, self.c),
            RegPair::De => pair_val(self.d, self.e),
            RegPair::Hl => pair_val(self.h, self.l),
            RegPair::Sp => self.sp,
        }
    }

    /// The state after writing a 16-bit value into a register pair:
    /// the high byte goes to the first-named register.
    pub open spec fn set_pair(self, p: RegPair, v: u16) -> CpuModel {
        match p {
            RegPair::Bc => CpuModel { b: high_byte(v), c: low_byte(v), ..self },
            RegPair::De => CpuModel { d: high_byte(v), e: low_byte(v), ..self },
            RegPair::Hl => CpuModel { h: high_byte(v), l: low_byte(v), ..self },
            RegPair::Sp => CpuModel { sp: v, ..self },
        }
    }

    /// The state with the program counter replaced.
    pub open spec fn with_pc(self, pc: u16) -> CpuModel {
        CpuModel { pc, ..self }
    }

    /// The state after an instruction that sets zero, sign and parity
    /// from an 8-bit result: zero iff the result is zero, sign iff
    /// bit 7 is set, parity iff the popcount is even.  Carry and
    /// auxiliary carry are left alone.
    pub open spec fn with_zsp(self, v: u8) -> CpuModel {
        CpuModel {
            cc: ConditionCodes { z: v == 0, s: v >= 0x80, p: even_parity(v), ..self.cc },
            ..self
        }
    }

    /// The state with the carry flag replaced.
    pub open spec fn with_cy(self, cy: bool) -> CpuModel {
        CpuModel { cc: ConditionCodes { cy, ..self.cc }, ..self }
    }
}

/// Whether a branch condition holds of the flags.
pub open spec fn cond_holds(c: Cond, cc: ConditionCodes) -> bool {
    match c {
        Cond::NotZero => !cc.z,
        Cond::Zero => cc.z,
        Cond::NotCarry => !cc.cy,
        Cond::Carry => cc.cy,
        Cond::Minus => cc.s,
    }
}

/// The executor's effect table: what one instruction does to the
/// machine state, and its cycle cost.  `None` marks an instruction
/// the catalogue decodes but the executor does not model — execution
/// coverage is narrower than disassembly coverage, by design.
pub open spec fn step_effect(m: CpuModel, d: Decoded) -> Option<(CpuModel, u32)> {
    let next_pc = wrap16(m.pc + d.size);
    match d.op {
        Op::Nop => Some((m.with_pc(next_pc), 4)),
        Op::LoadPairImm { pair, lo, hi } => Some(
            (m.set_pair(pair, pair_val(hi, lo)).with_pc(next_pc), 10),
        ),
        Op::MoveImm { dst, val } => Some(
            (m.set_reg(dst, val).with_pc(next_pc), if dst == Reg8::M { 10u32 } else { 7u32 }),
        ),
        Op::Move { dst, src } => Some(
            (
                m.set_reg(dst, m.get_reg(src)).with_pc(next_pc),
                if dst == Reg8::M || src == Reg8::M { 7u32 } else { 5u32 },
            ),
        ),
        Op::Increment { target } => {
            let v = inc8(m.get_reg(target));
            Some(
                (
                    m.set_reg(target, v).with_zsp(v).with_pc(next_pc),
                    if target == Reg8::M { 10u32 } else { 5u32 },
                ),
            )
        },
        Op::Decrement { target } => {
            let v = dec8(m.get_reg(target));
            Some(
                (
                    m.set_reg(target, v).with_zsp(v).with_pc(next_pc),
                    if target == Reg8::M { 10u32 } else { 5u32 },
                ),
            )
        },
        Op::IncrementPair { pair } => Some(
            (m.set_pair(pair, wrap16(m.get_pair(pair) + 1)).with_pc(next_pc), 5),
        ),
        Op::DoubleAdd { pair } => {
            let sum = pair_val(m.h, m.l) + m.get_pair(pair);
            Some(
                (
                    m.set_pair(RegPair::Hl, wrap16(sum)).with_cy(sum >= 0x10000).with_pc(next_pc),
                    10,
                ),
            )
        },
        Op::LoadAccIndirect { pair } => Some(
            (m.set_reg(Reg8::A, m.mem[m.get_pair(pair) as int]).with_pc(next_pc), 7),
        ),
        Op::LoadAccDirect { lo, hi } => Some(
            (m.set_reg(Reg8::A, m.mem[pair_val(hi, lo) as int]).with_pc(next_pc), 13),
        ),
        Op::AddImm { val } => {
            let res = ((m.a + val) % 256) as u8;
            Some((m.with_zsp(res).with_cy(m.a + val > 255).with_pc(next_pc), 7))
        },
        Op::CompareImm { val } => {
            let res = sub8(m.a, val);
            Some((m.with_zsp(res).with_cy(m.a < val).with_pc(next_pc), 7))
        },
        Op::Push { pair } => {
            let v = m.get_pair(pair);
            let hi_addr = wrap16(m.sp - 1);
            let lo_addr = wrap16(m.sp - 2);
            Some(
                (
                    CpuModel {
                        mem: m.mem.update(hi_addr as int, high_byte(v)).update(
                            lo_addr as int,
                            low_byte(v),
                        ),
                        sp: wrap16(m.sp - 2),
                        ..m
                    }.with_pc(next_pc),
                    11,
                ),
            )
        },
        Op::Pop { pair } => {
            let lo = m.mem[m.sp as int];
            let hi = m.mem[wrap16(m.sp + 1) as int];
            Some(
                (
                    CpuModel { sp: wrap16(m.sp + 2), ..m.set_pair(pair, pair_val(hi, lo)) }.with_pc(
                        next_pc,
                    ),
                    10,
                ),
            )
        },
        Op::Jump { lo, hi } => Some((m.with_pc(pair_val(hi, lo)), 10)),
        Op::JumpIf { cond, lo, hi } => Some(
            (m.with_pc(if cond_holds(cond, m.cc) { pair_val(hi, lo) } else { next_pc }), 10),
        ),
        Op::Call { lo, hi } => {
            let ret = next_pc;
            let hi_addr = wrap16(m.sp - 1);
            let lo_addr = wrap16(m.sp - 2);
            Some(
                (
                    CpuModel {
                        mem: m.mem.update(hi_addr as int, high_byte(ret)).update(
                            lo_addr as int,
                            low_byte(ret),
                        ),
                        sp: wrap16(m.sp - 2),
                        pc: pair_val(hi, lo),
                        ..m
                    },
                    17,
                ),
            )
        },
        Op::Ret => Some(
            (
                CpuModel {
                    pc: pair_val(m.mem[wrap16(m.sp + 1) as int], m.mem[m.sp as int]),
                    sp: wrap16(m.sp + 2),
                    ..m
                },
                10,
            ),
        ),
        Op::Exchange => Some(
            (CpuModel { d: m.h, e: m.l, h: m.d, l: m.e, ..m }.with_pc(next_pc), 5),
        ),
        Op::InPort { .. } => Some((m.with_pc(next_pc), 10)),
        Op::OutPort { .. } => Some((m.with_pc(next_pc), 10)),
        Op::EnableInterrupts => Some((CpuModel { int_enable: true, ..m }.with_pc(next_pc), 4)),
        _ => None,
    }
}

/// Reads an 8-bit operand location.
fn read_reg(state: &CpuState, r: Reg8) -> (v: u8)
    requires
        state.wf(),
    ensures
        v == state@.get_reg(r),
{
    match r {
        Reg8::A => state.a,
        Reg8::B => state.b,
        Reg8::C => state.c,
        Reg8::D => state.d,
        Reg8::E => state.e,
        Reg8::H => state.h,
        Reg8::L => state.l,
        Reg8::M => {
            let addr = pair_value(state.h, state.l);
            state.memory[addr as usize]
        },
    }
}

/// Writes an 8-bit operand location.
fn write_reg(state: &mut CpuState, r: Reg8, v: u8)
    requires
        old(state).wf(),
    ensures
        final(state).wf(),
        final(state)@ == old(state)@.set_reg(r, v),
{
    match r {
        Reg8::A => state.a = v,
        Reg8::B => state.b = v,
        Reg8::C => state.c = v,
        Reg8::D => state.d = v,
        Reg8::E => state.e = v,
        Reg8::H => state.h = v,
        Reg8::L => state.l = v,
        Reg8::M => {
            let addr = pair_value(state.h, state.l);
            state.memory[addr as usize] = v;
        },
    }
}

/// Reads a register pair as one 16-bit value.
fn read_pair(state: &CpuState, p: RegPair) -> (v: u16)
    ensures
        v == state@.get_pair(p),
{
    match p {
        RegPair::Bc => pair_value(state.b, state.c),
        RegPair::De => pair_value(state.d, state.e),
        RegPair::Hl => pair_value(state.h, state.l),
        RegPair::Sp => state.sp,
    }
}

/// Writes a 16-bit value into a register pair.
fn write_pair(state: &mut CpuState, p: RegPair, v: u16)
    ensures
        final(state)@ == old(state)@.set_pair(p, v),
{
    match p {
        RegPair::Bc => {
            state.b = split_high(v);
            state.c = split_low(v);
        },
        RegPair::De => {
            state.d = split_high(v);
            state.e = split_low(v);
        },
        RegPair::Hl => {
            state.h = split_high(v);
            state.l = split_low(v);
        },
        RegPair::Sp => state.sp = v,
    }
}

/// Sets zero, sign and parity from an 8-bit result, leaving carry and
/// auxiliary carry alone.
fn set_zsp_flags(state: &mut CpuState, v: u8)
    ensures
        final(state)@ == old(state)@.with_zsp(v),
{
    state.cc.z = v == 0;
    state.cc.s = v >= 0x80;
    state.cc.p = parity(v, 8);
}

/// Evaluates a branch condition against the flags.
fn cond_eval(c: Cond, cc: ConditionCodes) -> (b: bool)
    ensures
        b == cond_holds(c, cc),
{
    match c {
        Cond::NotZero => !cc.z,
        Cond::Zero => cc.z,
        Cond::NotCarry => !cc.cy,
        Cond::Carry => cc.cy,
        Cond::Minus => cc.s,
    }
}

/// The categories `execute_transfer` handles: data transfer, the I/O
/// stubs, exchange, pair increment, and interrupt enable.
pub open spec fn is_transfer_op(op: Op) -> bool {
    match op {
        Op::Nop | Op::LoadPairImm { .. } | Op::MoveImm { .. } | Op::Move { .. }
        | Op::IncrementPair { .. } | Op::LoadAccIndirect { .. } | Op::LoadAccDirect { .. }
        | Op::Exchange | Op::InPort { .. } | Op::OutPort { .. } | Op::EnableInterrupts => true,
        _ => false,
    }
}

/// The categories `execute_arith` handles: the flag-setting
/// arithmetic.
pub open spec fn is_arith_op(op: Op) -> bool {
    match op {
        Op::Increment { .. } | Op::Decrement { .. } | Op::DoubleAdd { .. } | Op::AddImm { .. }
        | Op::CompareImm { .. } => true,
        _ => false,
    }
}

/// The categories `execute_flow` handles: the stack and branch
/// instructions.
pub open spec fn is_flow_op(op: Op) -> bool {
    match op {
        Op::Push { .. } | Op::Pop { .. } | Op::Jump { .. } | Op::JumpIf { .. } | Op::Call { .. }
        | Op::Ret => true,
        _ => false,
    }
}

/// Applies one decoded instruction to the machine state and returns
/// its cycle cost, exactly as the effect table `step_effect` says.
/// An instruction outside the modeled set is a fatal
/// `UnsupportedOpcode`, reported with the opcode byte and the current
/// program counter, and the state is not touched at all.
pub fn execute(state: &mut CpuState, d: &Decoded) -> (r: Result<u32, EmuError>)
    requires
        old(state).wf(),
    ensures
        final(state).wf(),
        match step_effect(old(state)@, *d) {
            Some((m2, cycles)) => r == Ok::<u32, EmuError>(cycles) && final(state)@ == m2,
            None => r == Err::<u32, EmuError>(
                EmuError::UnsupportedOpcode { opcode: d.opcode, offset: old(state).pc as usize },
            ) && final(state)@ == old(state)@,
        },
{
    if is_transfer(&d.op) {
        execute_transfer(state, d)
    } else if is_arith(&d.op) {
        execute_arith(state, d)
    } else if is_flow(&d.op) {
        execute_flow(state, d)
    } else {
        Err(EmuError::UnsupportedOpcode { opcode: d.opcode, offset: state.pc as usize })
    }
}

/// Whether `execute_transfer` handles the operation.
fn is_transfer(op: &Op) -> (b: bool)
    ensures
        b == is_transfer_op(*op),
{
    match op {
        Op::Nop | Op::LoadPairImm { .. } | Op::MoveImm { .. } | Op::Move { .. }
        | Op::IncrementPair { .. } | Op::LoadAccIndirect { .. } | Op::LoadAccDirect { .. }
        | Op::Exchange | Op::InPort { .. } | Op::OutPort { .. } | Op::EnableInterrupts => true,
        _ => false,
    }
}

/// Whether `execute_arith` handles the operation.
fn is_arith(op: &Op) -> (b: bool)
    ensures
        b == is_arith_op(*op),
{
    match op {
        Op::Increment { .. } | Op::Decrement { .. } | Op::DoubleAdd { .. } | Op::AddImm { .. }
        | Op::CompareImm { .. } => true,
        _ => false,
    }
}

/// Whether `execute_flow` handles the operation.
fn is_flow(op: &Op) -> (b: bool)
    ensures
        b == is_flow_op(*op),
{
    match op {
        Op::Push { .. } | Op::Pop { .. } | Op::Jump { .. } | Op::JumpIf { .. } | Op::Call { .. }
        | Op::Ret => true,
        _ => false,
    }
}

/// The data-transfer and stub categories of the effect table: no-op,
/// the immediate and register/memory loads, pair increment, exchange,
/// the I/O stubs, and interrupt enable.  None of these touches the
/// flags.
#[verifier::rlimit(100)]
fn execute_transfer(state: &mut CpuState, d: &Decoded) -> (r: Result<u32, EmuError>)
    requires
        old(state).wf(),
        is_transfer_op(d.op),
    ensures
        final(state).wf(),
        match step_effect(old(state)@, *d) {
            Some((m2, cycles)) => r == Ok::<u32, EmuError>(cycles) && final(state)@ == m2,
            None => r == Err::<u32, EmuError>(
                EmuError::UnsupportedOpcode { opcode: d.opcode, offset: old(state).pc as usize },
            ) && final(state)@ == old(state)@,
        },
{
    let next_pc = wrap_add16(state.pc, d.size as u16);
    match d.op {
        Op::Nop => {
            state.pc = next_pc;
            Ok(4)
        },
        Op::LoadPairImm { pair, lo, hi } => {
            write_pair(state, pair, pair_value(hi, lo));
            state.pc = next_pc;
            Ok(10)
        },
        Op::MoveImm { dst, val } => {
            write_reg(state, dst, val);
            state.pc = next_pc;
            Ok(if dst == Reg8::M { 10 } else { 7 })
        },
        Op::Move { dst, src } => {
            let v = read_reg(state, src);
            write_reg(state, dst, v);
            state.pc = next_pc;
            Ok(if dst == Reg8::M || src == Reg8::M { 7 } else { 5 })
        },
        Op::IncrementPair { pair } => {
            let v = read_pair(state, pair);
            write_pair(state, pair, wrap_add16(v, 1));
            state.pc = next_pc;
            Ok(5)
        },
        Op::LoadAccIndirect { pair } => {
            let addr = read_pair(state, pair);
            state.a = state.memory[addr as usize];
            state.pc = next_pc;
            Ok(7)
        },
        Op::LoadAccDirect { lo, hi } => {
            let addr = pair_value(hi, lo);
            state.a = state.memory[addr as usize];
            state.pc = next_pc;
            Ok(13)
        },
        Op::Exchange => {
            let d0 = state.d;
            let e0 = state.e;
            state.d = state.h;
            state.e = state.l;
            state.h = d0;
            state.l = e0;
            state.pc = next_pc;
            Ok(5)
        },
        Op::InPort { .. } => {
            state.pc = next_pc;
            Ok(10)
        },
        Op::OutPort { .. } => {
            state.pc = next_pc;
            Ok(10)
        },
        Op::EnableInterrupts => {
            state.int_enable = true;
            state.pc = next_pc;
            Ok(4)
        },
        _ => {
            proof {
                assert(false);
            }
            Err(EmuError::UnsupportedOpcode { opcode: d.opcode, offset: state.pc as usize })
        },
    }
}

/// The flag-setting arithmetic categories of the effect table:
/// increment, decrement, the 16-bit add into HL, and the immediate
/// add and compare.
fn execute_arith(state: &mut CpuState, d: &Decoded) -> (r: Result<u32, EmuError>)
    requires
        old(state).wf(),
        is_arith_op(d.op),
    ensures
        final(state).wf(),
        match step_effect(old(state)@, *d) {
            Some((m2, cycles)) => r == Ok::<u32, EmuError>(cycles) && final(state)@ == m2,
            None => r == Err::<u32, EmuError>(
                EmuError::UnsupportedOpcode { opcode: d.opcode, offset: old(state).pc as usize },
            ) && final(state)@ == old(state)@,
        },
{
    let next_pc = wrap_add16(state.pc, d.size as u16);
    match d.op {
        Op::Increment { target } => {
            let v0 = read_reg(state, target);
            let v = if v0 == 255 { 0 } else { v0 + 1 };
            write_reg(state, target, v);
            set_zsp_flags(state, v);
            state.pc = next_pc;
            Ok(if target == Reg8::M { 10 } else { 5 })
        },
        Op::Decrement { target } => {
            let v0 = read_reg(state, target);
            let v = if v0 == 0 { 255 } else { v0 - 1 };
            write_reg(state, target, v);
            set_zsp_flags(state, v);
            state.pc = next_pc;
            Ok(if target == Reg8::M { 10 } else { 5 })
        },
        Op::DoubleAdd { pair } => {
            let hl = pair_value(state.h, state.l);
            let v = read_pair(state, pair);
            let sum: u32 = hl as u32 + v as u32;
            let carry = sum > 0xffff;
            write_pair(state, RegPair::Hl, (sum % 0x10000) as u16);
            state.cc.cy = carry;
            state.pc = next_pc;
            Ok(10)
        },
        Op::AddImm { val } => {
            let sum: u16 = state.a as u16 + val as u16;
            let res = (sum % 256) as u8;
            let carry = sum > 255;
            set_zsp_flags(state, res);
            state.cc.cy = carry;
            state.pc = next_pc;
            Ok(7)
        },
        Op::CompareImm { val } => {
            let res = if state.a >= val {
                state.a - val
            } else {
                ((state.a as u16 + 256) - val as u16) as u8
            };
            let carry = state.a < val;
            set_zsp_flags(state, res);
            state.cc.cy = carry;
            state.pc = next_pc;
            Ok(7)
        },
        _ => {
            proof {
                assert(false);
            }
            Err(EmuError::UnsupportedOpcode { opcode: d.opcode, offset: state.pc as usize })
        },
    }
}

/// The stack and branch categories of the effect table: push, pop,
/// the jumps, call, and return.
fn execute_flow(state: &mut CpuState, d: &Decoded) -> (r: Result<u32, EmuError>)
    requires
        old(state).wf(),
        is_flow_op(d.op),
    ensures
        final(state).wf(),
        match step_effect(old(state)@, *d) {
            Some((m2, cycles)) => r == Ok::<u32, EmuError>(cycles) && final(state)@ == m2,
            None => r == Err::<u32, EmuError>(
                EmuError::UnsupportedOpcode { opcode: d.opcode, offset: old(state).pc as usize },
            ) && final(state)@ == old(state)@,
        },
{
    let next_pc = wrap_add16(state.pc, d.size as u16);
    match d.op {
        Op::Push { pair } => {
            let v = read_pair(state, pair);
            let hi_addr = wrap_sub16(state.sp, 1);
            let lo_addr = wrap_sub16(state.sp, 2);
            state.memory[hi_addr as usize] = split_high(v);
            state.memory[lo_addr as usize] = split_low(v);
            state.sp = lo_addr;
            state.pc = next_pc;
            Ok(11)
        },
        Op::Pop { pair } => {
            let lo = state.memory[state.sp as usize];
            let hi_addr = wrap_add16(state.sp, 1);
            let hi = state.memory[hi_addr as usize];
            let new_sp = wrap_add16(state.sp, 2);
            write_pair(state, pair, pair_value(hi, lo));
            state.sp = new_sp;
            state.pc = next_pc;
            Ok(10)
        },
        Op::Jump { lo, hi } => {
            state.pc = pair_value(hi, lo);
            Ok(10)
        },
        Op::JumpIf { cond, lo, hi } => {
            if cond_eval(cond, state.cc) {
                state.pc = pair_value(hi, lo);
            } else {
                state.pc = next_pc;
            }
            Ok(10)
        },
        Op::Call { lo, hi } => {
            let ret = next_pc;
            let hi_addr = wrap_sub16(state.sp, 1);
            let lo_addr = wrap_sub16(state.sp, 2);
            state.memory[hi_addr as usize] = split_high(ret);
            state.memory[lo_addr as usize] = split_low(ret);
            state.sp = lo_addr;
            state.pc = pair_value(hi, lo);
            Ok(17)
        },
        Op::Ret => {
            let lo = state.memory[state.sp as usize];
            let hi_addr = wrap_add16(state.sp, 1);
            let hi = state.memory[hi_addr as usize];
            state.pc = pair_value(hi, lo);
            state.sp = wrap_add16(state.sp, 2);
            Ok(10)
        },
        _ => {
            proof {
                assert(false);
            }
            Err(EmuError::UnsupportedOpcode { opcode: d.opcode, offset: state.pc as usize })
        },
    }
}

} // verus!
