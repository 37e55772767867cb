//! The laws the engine obeys, stated across the decoder and the
//! effect table and proved once and for all: size agreement between
//! the catalogue and the executor, the increment/decrement flag
//! semantics over every byte value, the corrected 16-bit add, the
//! stack and call round trips, the conditional-jump split, and that a
//! fatal decode error stops the run driver with the state untouched.

use vstd::prelude::*;

use crate::arith::{
    dec8, even_parity, inc8, lemma_pair_recompose, lemma_pair_split,
    lemma_wrap16_adjacent_distinct, lemma_wrap16_shift, low_byte, pair_val, wrap16,
};
use crate::decode::{op_size, decode_spec, Cond, Decoded, EmuError, Op, Reg8, RegPair};
use crate::driver::{run_spec, RunStatus};
use crate::exec::step_effect;
use crate::state::CpuModel;

verus! {

/// Size agreement: every supported instruction that does not transfer
/// control advances the program counter by exactly the encoded size
/// the decoder's catalogue reports — the executor never second-guesses
/// the decoder.  (A successful decode stores that same size in the
/// descriptor: `lemma_decode_wf`.)
pub proof fn lemma_size_agreement(m: CpuModel, d: Decoded)
    requires
        d.wf(),
        step_effect(m, d) is Some,
        !(d.op is Jump),
        !(d.op is JumpIf),
        !(d.op is Call),
        !(d.op is Ret),
    ensures
        step_effect(m, d)->Some_0.0.pc == wrap16(m.pc + op_size(d.op)),
{
}

/// Increment: for every byte value, the result is (value + 1) mod
/// 256; zero holds exactly of a zero result, sign exactly of bit 7,
/// parity exactly of an even popcount, and carry and auxiliary carry
/// are untouched.
#[verifier::rlimit(100)]
pub proof fn lemma_increment_flags(m: CpuModel, d: Decoded, target: Reg8)
    requires
        m.wf(),
        d.op == (Op::Increment { target }),
    ensures
        step_effect(m, d) is Some,
        ({
            let m2 = step_effect(m, d)->Some_0.0;
            let r = ((m.get_reg(target) + 1) % 256) as u8;
            &&& m2.get_reg(target) == r
            &&& m2.cc.z == (r == 0)
            &&& m2.cc.s == (r >= 0x80)
            &&& m2.cc.p == even_parity(r)
            &&& m2.cc.cy == m.cc.cy
            &&& m2.cc.ac == m.cc.ac
        }),
{
    let v0 = m.get_reg(target);
    assert(inc8(v0) == ((v0 + 1) % 256) as u8);
}

/// Decrement: for every byte value, the result is (value - 1) mod
/// 256 — 0x00 rolls under to 0xff — with the same flag discipline as
/// increment.
#[verifier::rlimit(100)]
pub proof fn lemma_decrement_flags(m: CpuModel, d: Decoded, target: Reg8)
    requires
        m.wf(),
        d.op == (Op::Decrement { target }),
    ensures
        step_effect(m, d) is Some,
        ({
            let m2 = step_effect(m, d)->Some_0.0;
            let r = ((m.get_reg(target) - 1) % 256) as u8;
            &&& m2.get_reg(target) == r
            &&& m2.cc.z == (r == 0)
            &&& m2.cc.s == (r >= 0x80)
            &&& m2.cc.p == even_parity(r)
            &&& m2.cc.cy == m.cc.cy
            &&& m2.cc.ac == m.cc.ac
        }),
{
    let v0 = m.get_reg(target);
    assert(dec8(v0) == ((v0 - 1) % 256) as u8);
}

/// The 16-bit add into HL: HL becomes (HL + pair) mod 2^16 computed
/// from the pair as it stands — no register is special-cased or
/// overwritten on the way — carry holds exactly when bit 16 of the
/// unsigned sum is set, and no other flag or register moves.
pub proof fn lemma_double_add(m: CpuModel, d: Decoded, pair: RegPair)
    requires
        d.op == (Op::DoubleAdd { pair }),
    ensures
        step_effect(m, d) is Some,
        ({
            let m2 = step_effect(m, d)->Some_0.0;
            let sum = m.get_pair(RegPair::Hl) + m.get_pair(pair);
            &&& pair_val(m2.h, m2.l) == wrap16(sum)
            &&& m2.cc.cy == (sum >= 0x10000)
            &&& m2.cc.z == m.cc.z
            &&& m2.cc.s == m.cc.s
            &&& m2.cc.p == m.cc.p
            &&& m2.cc.ac == m.cc.ac
            &&& m2.a == m.a
            &&& m2.b == m.b
            &&& m2.c == m.c
            &&& m2.d == m.d
            &&& m2.e == m.e
            &&& m2.sp == m.sp
            &&& m2.mem == m.mem
        }),
{
    let sum = m.get_pair(RegPair::Hl) + m.get_pair(pair);
    lemma_pair_recompose(wrap16(sum));
}

/// Stack round trip: pushing a register pair and then popping the
/// same pair is an identity on all registers, the flags, and the
/// stack pointer; only the two stack cells and the program counter
/// (advanced past the two one-byte instructions) change.
#[verifier::rlimit(100)]
pub proof fn lemma_push_pop_identity(m: CpuModel, pair: RegPair, push_d: Decoded, pop_d: Decoded)
    requires
        m.wf(),
        pair != RegPair::Sp,
        push_d.op == (Op::Push { pair }),
        pop_d.op == (Op::Pop { pair }),
        push_d.wf(),
        pop_d.wf(),
    ensures
        step_effect(m, push_d) is Some,
        ({
            let m1 = step_effect(m, push_d)->Some_0.0;
            &&& step_effect(m1, pop_d) is Some
            &&& {
                let m2 = step_effect(m1, pop_d)->Some_0.0;
                &&& m2.a == m.a
                &&& m2.b == m.b
                &&& m2.c == m.c
                &&& m2.d == m.d
                &&& m2.e == m.e
                &&& m2.h == m.h
                &&& m2.l == m.l
                &&& m2.sp == m.sp
                &&& m2.cc == m.cc
                &&& m2.int_enable == m.int_enable
                &&& m2.pc == wrap16(m.pc + 2)
            }
        }),
{
    let v = m.get_pair(pair);
    lemma_wrap16_adjacent_distinct(m.sp - 1);
    lemma_wrap16_shift(m.sp - 2, 1);
    lemma_wrap16_shift(m.sp - 2, 2);
    lemma_wrap16_shift(m.pc + 1, 1);
    lemma_pair_recompose(v);
    lemma_pair_split(m.b, m.c);
    lemma_pair_split(m.d, m.e);
    lemma_pair_split(m.h, m.l);
}

/// Call/return round trip: a call pushes the address just past its
/// three bytes and jumps to the target; a return from the target pops
/// it back, restoring the program counter to the instruction after
/// the call and the stack pointer to its value before it, with every
/// register and flag untouched.
#[verifier::rlimit(100)]
pub proof fn lemma_call_ret_round_trip(
    m: CpuModel,
    lo: u8,
    hi: u8,
    call_d: Decoded,
    ret_d: Decoded,
)
    requires
        m.wf(),
        call_d.op == (Op::Call { lo, hi }),
        ret_d.op == Op::Ret,
        call_d.wf(),
        ret_d.wf(),
    ensures
        step_effect(m, call_d) is Some,
        ({
            let m1 = step_effect(m, call_d)->Some_0.0;
            &&& m1.pc == pair_val(hi, lo)
            &&& m1.mem[m1.sp as int] == low_byte(wrap16(m.pc + 3))
            &&& step_effect(m1, ret_d) is Some
            &&& {
                let m2 = step_effect(m1, ret_d)->Some_0.0;
                &&& m2.pc == wrap16(m.pc + 3)
                &&& m2.sp == m.sp
                &&& m2.a == m.a
                &&& m2.b == m.b
                &&& m2.c == m.c
                &&& m2.d == m.d
                &&& m2.e == m.e
                &&& m2.h == m.h
                &&& m2.l == m.l
                &&& m2.cc == m.cc
                &&& m2.int_enable == m.int_enable
            }
        }),
{
    let ret = wrap16(m.pc + 3);
    lemma_wrap16_adjacent_distinct(m.sp - 1);
    lemma_wrap16_shift(m.sp - 2, 1);
    lemma_wrap16_shift(m.sp - 2, 2);
    lemma_pair_recompose(ret);
}

/// Conditional jump on not-zero: with the zero flag set the program
/// counter just advances past the three-byte instruction; with it
/// clear the counter lands on the encoded target.  Nothing else in
/// the machine moves.
pub proof fn lemma_conditional_jump_not_zero(m: CpuModel, lo: u8, hi: u8, d: Decoded)
    requires
        d.op == (Op::JumpIf { cond: Cond::NotZero, lo, hi }),
        d.wf(),
    ensures
        step_effect(m, d) is Some,
        ({
            let m2 = step_effect(m, d)->Some_0.0;
            &&& (m.cc.z ==> m2.pc == wrap16(m.pc + 3))
            &&& (!m.cc.z ==> m2.pc == pair_val(hi, lo))
            &&& m2 == m.with_pc(m2.pc)
        }),
{
}

/// A fatal decode error at the program counter stops the run driver
/// at once: the machine state is handed back exactly as the failure
/// found it, with the error.
pub proof fn lemma_fatal_decode_halts(m: CpuModel, halt_address: u16, fuel: nat, e: EmuError)
    requires
        m.pc != halt_address,
        fuel > 0,
        decode_spec(m.mem, m.pc as usize) == Err::<Decoded, EmuError>(e),
    ensures
        run_spec(m, halt_address, fuel) == (m, Err::<RunStatus, EmuError>(e)),
{
}

} // verus!
