//! The mnemonic renderer: a pure function from a decoded instruction
//! (and its source offset) to one line of assembly text, in the form
//! `<offset>: <MNEMONIC> <operands>`.  Its catalogue covers every
//! operation the decoder can produce — including the ones the
//! executor does not model — since disassembly has no side effects to
//! go wrong.  `render_line` is the text in mathematical form; the
//! executable `render` is proved to produce exactly it.

use vstd::prelude::*;
use vstd::string::StringExecFns;

use crate::decode::{Cond, Decoded, Op, Reg8, RegPair};
use crate::state::CpuModel;

verus! {

/// The single hexadecimal digit for a value below sixteen.
pub open spec fn hex_digit_chars(d: nat) -> Seq<char> {
    if d == 0 {
        "0"@
    } else if d == 1 {
        "1"@
    } else if d == 2 {
        "2"@
    } else if d == 3 {
        "3"@
    } else if d == 4 {
        "4"@
    } else if d == 5 {
        "5"@
    } else if d == 6 {
        "6"@
    } else if d == 7 {
        "7"@
    } else if d == 8 {
        "8"@
    } else if d == 9 {
        "9"@
    } else if d == 10 {
        "a"@
    } else if d == 11 {
        "b"@
    } else if d == 12 {
        "c"@
    } else if d == 13 {
        "d"@
    } else if d == 14 {
        "e"@
    } else {
        "f"@
    }
}

/// The lower-case hexadecimal digits of `n`, zero-padded on the left
/// to at least `width` digits, and longer where the value needs it.
pub open spec fn hex_chars(n: nat, width: nat) -> Seq<char>
    decreases n, width,
{
    if n < 16 && width <= 1 {
        hex_digit_chars(n)
    } else {
        hex_chars(n / 16, if width == 0 { 0 } else { (width - 1) as nat }) + hex_digit_chars(n % 16)
    }
}

/// A byte as two hexadecimal digits.
pub open spec fn hex2(v: u8) -> Seq<char> {
    hex_chars(v as nat, 2)
}

/// A 16-bit value as four hexadecimal digits.
pub open spec fn hex4(v: u16) -> Seq<char> {
    hex_chars(v as nat, 4)
}

/// The single hexadecimal digit for a value below sixteen.
fn hex_digit_str(d: u8) -> (r: &'static str)
    requires
        d < 16,
    ensures
        r@ == hex_digit_chars(d as nat),
{
    match d {
        0 => "0",
        1 => "1",
        2 => "2",
        3 => "3",
        4 => "4",
        5 => "5",
        6 => "6",
        7 => "7",
        8 => "8",
        9 => "9",
        10 => "a",
        11 => "b",
        12 => "c",
        13 => "d",
        14 => "e",
        _ => "f",
    }
}

/// Writes `n` in lower-case hexadecimal, zero-padded on the left to
/// at least `width` digits.
pub fn hex_string(n: usize, width: usize) -> (r: String)
    ensures
        r@ == hex_chars(n as nat, width as nat),
    decreases n, width,
{
    if n < 16 && width <= 1 {
        String::from_str(hex_digit_str(n as u8))
    } else {
        let mut s = hex_string(n / 16, if width == 0 { 0 } else { width - 1 });
        s.append(hex_digit_str((n % 16) as u8));
        s
    }
}

/// A byte as two hexadecimal digits.
pub fn hex_byte(v: u8) -> (r: String)
    ensures
        r@ == hex2(v),
{
    hex_string(v as usize, 2)
}

/// A 16-bit value as four hexadecimal digits.
pub fn hex_word(v: u16) -> (r: String)
    ensures
        r@ == hex4(v),
{
    hex_string(v as usize, 4)
}

/// The name of an 8-bit operand location.
pub open spec fn reg_chars(r: Reg8) -> Seq<char> {
    match r {
        Reg8::A => "A"@,
        Reg8::B => "B"@,
        Reg8::C => "C"@,
        Reg8::D => "D"@,
        Reg8::E => "E"@,
        Reg8::H => "H"@,
        Reg8::L => "L"@,
        Reg8::M => "M"@,
    }
}

/// The name of a register pair as the operand column shows it.
pub open spec fn pair_chars(p: RegPair) -> Seq<char> {
    match p {
        RegPair::Bc => "B"@,
        RegPair::De => "D"@,
        RegPair::Hl => "H"@,
        RegPair::Sp => "SP"@,
    }
}

/// The name of an 8-bit operand location.
fn reg_name(r: Reg8) -> (s: &'static str)
    ensures
        s@ == reg_chars(r),
{
    match r {
        Reg8::A => "A",
        Reg8::B => "B",
        Reg8::C => "C",
        Reg8::D => "D",
        Reg8::E => "E",
        Reg8::H => "H",
        Reg8::L => "L",
        Reg8::M => "M",
    }
}

/// The name of a register pair.
fn pair_name(p: RegPair) -> (s: &'static str)
    ensures
        s@ == pair_chars(p),
{
    match p {
        RegPair::Bc => "B",
        RegPair::De => "D",
        RegPair::Hl => "H",
        RegPair::Sp => "SP",
    }
}

/// The operand column of the 8-bit load-immediate forms, register
/// name included.
pub open spec fn mvi_reg_chars(r: Reg8) -> Seq<char> {
    match r {
        Reg8::A => "A, #$"@,
        Reg8::B => "B, #$"@,
        Reg8::C => "C, #$"@,
        Reg8::D => "D, #$"@,
        Reg8::E => "E, #$"@,
        Reg8::H => "H #$"@,
        Reg8::L => "L, #$"@,
        Reg8::M => "M, #$"@,
    }
}

/// The operand column of the 8-bit load-immediate forms.
fn mvi_reg_name(r: Reg8) -> (s: &'static str)
    ensures
        s@ == mvi_reg_chars(r),
{
    match r {
        Reg8::A => "A, #$",
        Reg8::B => "B, #$",
        Reg8::C => "C, #$",
        Reg8::D => "D, #$",
        Reg8::E => "E, #$",
        Reg8::H => "H #$",
        Reg8::L => "L, #$",
        Reg8::M => "M, #$",
    }
}

/// The mnemonic and opening of the 16-bit load-immediate forms.
pub open spec fn lxi_prefix_chars(p: RegPair) -> Seq<char> {
    match p {
        RegPair::Bc => "LXI \tB, #$"@,
        RegPair::De => "LXI \tD, #$"@,
        RegPair::Hl => "LXI \tH, #$"@,
        RegPair::Sp => "LXI \tSP, $"@,
    }
}

/// The mnemonic and opening of the 16-bit load-immediate forms.
fn lxi_prefix(p: RegPair) -> (s: &'static str)
    ensures
        s@ == lxi_prefix_chars(p),
{
    match p {
        RegPair::Bc => "LXI \tB, #$",
        RegPair::De => "LXI \tD, #$",
        RegPair::Hl => "LXI \tH, #$",
        RegPair::Sp => "LXI \tSP, $",
    }
}

/// The text of a 16-bit add into HL.
pub open spec fn dad_chars(p: RegPair) -> Seq<char> {
    match p {
        RegPair::Bc => "DAD \tB"@,
        RegPair::De => "DAD \tD"@,
        RegPair::Hl => "DAD \tH "@,
        RegPair::Sp => "DAD \tSP"@,
    }
}

/// The text of a 16-bit add into HL.
fn dad_text(p: RegPair) -> (s: &'static str)
    ensures
        s@ == dad_chars(p),
{
    match p {
        RegPair::Bc => "DAD \tB",
        RegPair::De => "DAD \tD",
        RegPair::Hl => "DAD \tH ",
        RegPair::Sp => "DAD \tSP",
    }
}

/// The text of a register-pair pop.
pub open spec fn pop_chars(p: RegPair) -> Seq<char> {
    match p {
        RegPair::Bc => "POP \tB "@,
        RegPair::De => "POP \tD"@,
        RegPair::Hl => "POP \tH "@,
        RegPair::Sp => "POP \tSP"@,
    }
}

/// The text of a register-pair pop.
fn pop_text(p: RegPair) -> (s: &'static str)
    ensures
        s@ == pop_chars(p),
{
    match p {
        RegPair::Bc => "POP \tB ",
        RegPair::De => "POP \tD",
        RegPair::Hl => "POP \tH ",
        RegPair::Sp => "POP \tSP",
    }
}

/// The mnemonic and opening of a conditional jump.
pub open spec fn jump_prefix_chars(c: Cond) -> Seq<char> {
    match c {
        Cond::NotZero => "JNZ \t$"@,
        Cond::Zero => "JZ \t\t$"@,
        Cond::NotCarry => "JNC \t$"@,
        Cond::Carry => "JC \t\t$"@,
        Cond::Minus => "JM \t\t$"@,
    }
}

/// The mnemonic and opening of a conditional jump.
fn jump_prefix(c: Cond) -> (s: &'static str)
    ensures
        s@ == jump_prefix_chars(c),
{
    match c {
        Cond::NotZero => "JNZ \t$",
        Cond::Zero => "JZ \t\t$",
        Cond::NotCarry => "JNC \t$",
        Cond::Carry => "JC \t\t$",
        Cond::Minus => "JM \t\t$",
    }
}

/// The mnemonic and opening of a conditional call.
pub open spec fn call_prefix_chars(c: Cond) -> Seq<char> {
    match c {
        Cond::NotZero => "CNZ \t$"@,
        Cond::Zero => "CZ \t\t$"@,
        Cond::NotCarry => "CNC \t$"@,
        Cond::Carry => "CC \t\t$"@,
        Cond::Minus => "CM \t\t$"@,
    }
}

/// The mnemonic and opening of a conditional call.
fn call_prefix(c: Cond) -> (s: &'static str)
    ensures
        s@ == call_prefix_chars(c),
{
    match c {
        Cond::NotZero => "CNZ \t$",
        Cond::Zero => "CZ \t\t$",
        Cond::NotCarry => "CNC \t$",
        Cond::Carry => "CC \t\t$",
        Cond::Minus => "CM \t\t$",
    }
}

/// The text of a conditional return.
pub open spec fn ret_chars(c: Cond) -> Seq<char> {
    match c {
        Cond::NotZero => "RNZ "@,
        Cond::Zero => "RZ "@,
        Cond::NotCarry => "RNC \tD"@,
        Cond::Carry => "RC "@,
        Cond::Minus => "RM "@,
    }
}

/// The text of a conditional return.
fn ret_text(c: Cond) -> (s: &'static str)
    ensures
        s@ == ret_chars(c),
{
    match c {
        Cond::NotZero => "RNZ ",
        Cond::Zero => "RZ ",
        Cond::NotCarry => "RNC \tD",
        Cond::Carry => "RC ",
        Cond::Minus => "RM ",
    }
}

/// The mnemonic-and-operands column of one instruction.
pub open spec fn op_text(op: Op) -> Seq<char> {
    match op {
        Op::Nop => "NOP"@,
        Op::LoadPairImm { pair, lo, hi } => lxi_prefix_chars(pair) + hex2(hi) + hex2(lo),
        Op::MoveImm { dst, val } => "MVI \t"@ + mvi_reg_chars(dst) + hex2(val),
        Op::MoveImmWide { lo, hi } => "MVI \t$"@ + hex2(hi) + hex2(lo),
        Op::Move { dst, src } => "MOV \t"@ + reg_chars(dst) + ", "@ + reg_chars(src),
        Op::Increment { target } => "INR \t"@ + reg_chars(target),
        Op::Decrement { target } => "DCR \t"@ + reg_chars(target),
        Op::IncrementPair { pair } => "INX \t"@ + pair_chars(pair),
        Op::DecrementPair { pair } => "DCX \t"@ + pair_chars(pair),
        Op::DoubleAdd { pair } => dad_chars(pair),
        Op::LoadAccIndirect { pair } => "LDAX \t"@ + pair_chars(pair),
        Op::LoadAccDirect { lo, hi } => "LDA \t$"@ + hex2(hi) + hex2(lo),
        Op::StoreAccDirect { lo, hi } => "STA \t$"@ + hex2(hi) + hex2(lo),
        Op::LoadHlDirect { lo, hi } => "LHLD \t$"@ + hex2(hi) + hex2(lo),
        Op::StoreHlDirect { lo, hi } => "SHLD \t$"@ + hex2(hi) + hex2(lo),
        Op::AddReg { src } => "ADD \t"@ + reg_chars(src),
        Op::AddCarryReg { src } => "ADC \t"@ + reg_chars(src),
        Op::AndReg { src } => "ANA \t"@ + reg_chars(src),
        Op::XorReg { src } => "XRA \t"@ + reg_chars(src),
        Op::AddImm { val } => "ADI \t#$"@ + hex2(val),
        Op::SubBorrowImm { val } => "SBI \t#$"@ + hex2(val),
        Op::AndImm { val } => "ANI \t#$"@ + hex2(val),
        Op::CompareImm { val } => "CPI \t#$"@ + hex2(val),
        Op::RotateLeftCarry => "RLC"@,
        Op::RotateRightCarry => "RRC"@,
        Op::DecimalAdjust => "DAA "@,
        Op::Push { pair } => "PUSH \t"@ + pair_chars(pair),
        Op::Pop { pair } => pop_chars(pair),
        Op::PushPsw => "PUSH \tPSW"@,
        Op::PopPsw => "POP \tPSW "@,
        Op::Jump { lo, hi } => "JMP \t$"@ + hex2(hi) + hex2(lo),
        Op::JumpIf { cond, lo, hi } => jump_prefix_chars(cond) + hex2(hi) + hex2(lo),
        Op::Call { lo, hi } => "CALL \t$"@ + hex2(hi) + hex2(lo),
        Op::CallIf { cond, lo, hi } => call_prefix_chars(cond) + hex2(hi) + hex2(lo),
        Op::Ret => "RET "@,
        Op::RetIf { cond } => ret_chars(cond),
        Op::Exchange => "XCHG "@,
        Op::ExchangeStackTop => "XTHL "@,
        Op::JumpHl => "PCHL "@,
        Op::InPort { port } => "IN \t\t#$"@ + hex2(port),
        Op::OutPort { port } => "OUT \t#$"@ + hex2(port),
        Op::EnableInterrupts => "EI "@,
    }
}

/// One whole line of disassembly: the instruction's offset as at
/// least four hexadecimal digits, a separator, then the mnemonic and
/// operands.
pub open spec fn render_line(d: Decoded, offset: usize) -> Seq<char> {
    hex_chars(offset as nat, 4) + ": \t"@ + op_text(d.op)
}

/// The mnemonic-and-operands column of one instruction.
#[verifier::rlimit(100)]
pub fn render_op(op: Op) -> (r: String)
    ensures
        r@ == op_text(op),
{
    match op {
        Op::Nop => String::from_str("NOP"),
        Op::LoadPairImm { pair, lo, hi } => {
            let mut t = String::from_str(lxi_prefix(pair));
            t.append(hex_byte(hi).as_str());
            t.append(hex_byte(lo).as_str());
            t
        },
        Op::MoveImm { dst, val } => {
            let mut t = String::from_str("MVI \t");
            t.append(mvi_reg_name(dst));
            t.append(hex_byte(val).as_str());
            t
        },
        Op::MoveImmWide { lo, hi } => {
            let mut t = String::from_str("MVI \t$");
            t.append(hex_byte(hi).as_str());
            t.append(hex_byte(lo).as_str());
            t
        },
        Op::Move { dst, src } => {
            let mut t = String::from_str("MOV \t");
            t.append(reg_name(dst));
            t.append(", ");
            t.append(reg_name(src));
            t
        },
        Op::Increment { target } => {
            let mut t = String::from_str("INR \t");
            t.append(reg_name(target));
            t
        },
        Op::Decrement { target } => {
            let mut t = String::from_str("DCR \t");
            t.append(reg_name(target));
            t
        },
        Op::IncrementPair { pair } => {
            let mut t = String::from_str("INX \t");
            t.append(pair_name(pair));
            t
        },
        Op::DecrementPair { pair } => {
            let mut t = String::from_str("DCX \t");
            t.append(pair_name(pair));
            t
        },
        Op::DoubleAdd { pair } => String::from_str(dad_text(pair)),
        Op::LoadAccIndirect { pair } => {
            let mut t = String::from_str("LDAX \t");
            t.append(pair_name(pair));
            t
        },
        Op::LoadAccDirect { lo, hi } => {
            let mut t = String::from_str("LDA \t$");
            t.append(hex_byte(hi).as_str());
            t.append(hex_byte(lo).as_str());
            t
        },
        Op::StoreAccDirect { lo, hi } => {
            let mut t = String::from_str("STA \t$");
            t.append(hex_byte(hi).as_str());
            t.append(hex_byte(lo).as_str());
            t
        },
        Op::LoadHlDirect { lo, hi } => {
            let mut t = String::from_str("LHLD \t$");
            t.append(hex_byte(hi).as_str());
            t.append(hex_byte(lo).as_str());
            t
        },
        Op::StoreHlDirect { lo, hi } => {
            let mut t = String::from_str("SHLD \t$");
            t.append(hex_byte(hi).as_str());
            t.append(hex_byte(lo).as_str());
            t
        },
        Op::AddReg { src } => {
            let mut t = String::from_str("ADD \t");
            t.append(reg_name(src));
            t
        },
        Op::AddCarryReg { src } => {
            let mut t = String::from_str("ADC \t");
            t.append(reg_name(src));
            t
        },
        Op::AndReg { src } => {
            let mut t = String::from_str("ANA \t");
            t.append(reg_name(src));
            t
        },
        Op::XorReg { src } => {
            let mut t = String::from_str("XRA \t");
            t.append(reg_name(src));
            t
        },
        Op::AddImm { val } => {
            let mut t = String::from_str("ADI \t#$");
            t.append(hex_byte(val).as_str());
            t
        },
        Op::SubBorrowImm { val } => {
            let mut t = String::from_str("SBI \t#$");
            t.append(hex_byte(val).as_str());
            t
        },
        Op::AndImm { val } => {
            let mut t = String::from_str("ANI \t#$");
            t.append(hex_byte(val).as_str());
            t
        },
        Op::CompareImm { val } => {
            let mut t = String::from_str("CPI \t#$");
            t.append(hex_byte(val).as_str());
            t
        },
        Op::RotateLeftCarry => String::from_str("RLC"),
        Op::RotateRightCarry => String::from_str("RRC"),
        Op::DecimalAdjust => String::from_str("DAA "),
        Op::Push { pair } => {
            let mut t = String::from_str("PUSH \t");
            t.append(pair_name(pair));
            t
        },
        Op::Pop { pair } => String::from_str(pop_text(pair)),
        Op::PushPsw => String::from_str("PUSH \tPSW"),
        Op::PopPsw => String::from_str("POP \tPSW "),
        Op::Jump { lo, hi } => {
            let mut t = String::from_str("JMP \t$");
            t.append(hex_byte(hi).as_str());
            t.append(hex_byte(lo).as_str());
            t
        },
        Op::JumpIf { cond, lo, hi } => {
            let mut t = String::from_str(jump_prefix(cond));
            t.append(hex_byte(hi).as_str());
            t.append(hex_byte(lo).as_str());
            t
        },
        Op::Call { lo, hi } => {
            let mut t = String::from_str("CALL \t$");
            t.append(hex_byte(hi).as_str());
            t.append(hex_byte(lo).as_str());
            t
        },
        Op::CallIf { cond, lo, hi } => {
            let mut t = String::from_str(call_prefix(cond));
            t.append(hex_byte(hi).as_str());
            t.append(hex_byte(lo).as_str());
            t
        },
        Op::Ret => String::from_str("RET "),
        Op::RetIf { cond } => String::from_str(ret_text(cond)),
        Op::Exchange => String::from_str("XCHG "),
        Op::ExchangeStackTop => String::from_str("XTHL "),
        Op::JumpHl => String::from_str("PCHL "),
        Op::InPort { port } => {
            let mut t = String::from_str("IN \t\t#$");
            t.append(hex_byte(port).as_str());
            t
        },
        Op::OutPort { port } => {
            let mut t = String::from_str("OUT \t#$");
            t.append(hex_byte(port).as_str());
            t
        },
        Op::EnableInterrupts => String::from_str("EI "),
    }
}

/// Renders one decoded instruction at its source offset into a line
/// of assembly text, newline excluded.
pub fn render(d: &Decoded, offset: usize) -> (r: String)
    ensures
        r@ == render_line(*d, offset),
{
    let mut s = hex_string(offset, 4);
    s.append(": \t");
    let body = render_op(d.op);
    s.append(body.as_str());
    s
}

/// The text "true" or "false", as the execution trace prints a flag.
pub open spec fn bool_chars(b: bool) -> Seq<char> {
    if b {
        "true"@
    } else {
        "false"@
    }
}

/// The text "true" or "false".
fn bool_str(b: bool) -> (s: &'static str)
    ensures
        s@ == bool_chars(b),
{
    if b {
        "true"
    } else {
        "false"
    }
}

/// The execution trace for one state: a line of flags, then a line of
/// registers and pointers in hexadecimal, joined by a newline.
pub open spec fn trace_chars(m: CpuModel) -> Seq<char> {
    "z:"@ + bool_chars(m.cc.z) + " s:"@ + bool_chars(m.cc.s) + " p:"@ + bool_chars(m.cc.p)
        + " cy:"@ + bool_chars(m.cc.cy) + " ac:"@ + bool_chars(m.cc.ac) + "\nA:"@ + hex2(m.a)
        + " B:"@ + hex2(m.b) + " C:"@ + hex2(m.c) + " D:"@ + hex2(m.d) + " E:"@ + hex2(m.e)
        + " H:"@ + hex2(m.h) + " L:"@ + hex2(m.l) + " SP:"@ + hex4(m.sp) + " PC:"@ + hex4(m.pc)
}

/// Writes the deterministic, diffable trace for the given state: the
/// flag bits on one line and all registers plus SP and PC in
/// hexadecimal on the next.
#[verifier::rlimit(100)]
pub fn trace_line(state: &crate::state::CpuState) -> (r: String)
    ensures
        r@ == trace_chars(state@),
{
    let mut s = String::from_str("z:");
    s.append(bool_str(state.cc.z));
    s.append(" s:");
    s.append(bool_str(state.cc.s));
    s.append(" p:");
    s.append(bool_str(state.cc.p));
    s.append(" cy:");
    s.append(bool_str(state.cc.cy));
    s.append(" ac:");
    s.append(bool_str(state.cc.ac));
    s.append("\nA:");
    s.append(hex_byte(state.a).as_str());
    s.append(" B:");
    s.append(hex_byte(state.b).as_str());
    s.append(" C:");
    s.append(hex_byte(state.c).as_str());
    s.append(" D:");
    s.append(hex_byte(state.d).as_str());
    s.append(" E:");
    s.append(hex_byte(state.e).as_str());
    s.append(" H:");
    s.append(hex_byte(state.h).as_str());
    s.append(" L:");
    s.append(hex_byte(state.l).as_str());
    s.append(" SP:");
    s.append(hex_word(state.sp).as_str());
    s.append(" PC:");
    s.append(hex_word(state.pc).as_str());
    s
}

} // verus!
