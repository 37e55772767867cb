//! The instruction decoder: a pure function from a memory buffer and
//! an offset to a decoded instruction descriptor.  Its opcode
//! catalogue is the single source of truth that both the executor and
//! the mnemonic renderer consume, so their notions of operand shape
//! and encoded size cannot drift apart.

use vstd::prelude::*;

verus! {

/// An 8-bit operand location: a register, or `M`, the memory byte
/// addressed by the HL pair.
#[derive(Clone, Copy, PartialEq, Eq, Structural, Debug)]
pub enum Reg8 {
    A,
    B,
    C,
    D,
    E,
    H,
    L,
    M,
}

/// A 16-bit register pair (high byte in the first-named register), or
/// the stack pointer where an instruction treats it as a pair.
#[derive(Clone, Copy, PartialEq, Eq, Structural, Debug)]
pub enum RegPair {
    Bc,
    De,
    Hl,
    Sp,
}

/// A branch condition, read from the condition flags.
#[derive(Clone, Copy, PartialEq, Eq, Structural, Debug)]
pub enum Cond {
    NotZero,
    Zero,
    NotCarry,
    Carry,
    Minus,
}

/// A decoded instruction's operation: the opcode categories of the
/// catalogue, each carrying the operand bytes present in the stream.
#[derive(Clone, Copy, PartialEq, Eq, Structural, Debug)]
pub enum Op {
    /// No operation.
    Nop,
    /// Load a 16-bit immediate into a register pair or SP; the stream
    /// holds the low byte first.
    LoadPairImm { pair: RegPair, lo: u8, hi: u8 },
    /// Load an 8-bit immediate into a register or into memory at HL.
    MoveImm { dst: Reg8, val: u8 },
    /// The catalogue's three-byte immediate-load form, rendered with a
    /// 16-bit literal.
    MoveImmWide { lo: u8, hi: u8 },
    /// Copy one 8-bit value between registers, or between a register
    /// and memory at HL.
    Move { dst: Reg8, src: Reg8 },
    /// Increment a register or memory at HL by one, wrapping.
    Increment { target: Reg8 },
    /// Decrement a register or memory at HL by one, wrapping.
    Decrement { target: Reg8 },
    /// Increment a register pair by one, wrapping modulo 2^16.
    IncrementPair { pair: RegPair },
    /// Decrement a register pair by one, wrapping modulo 2^16.
    DecrementPair { pair: RegPair },
    /// Add a register pair into HL (DAD).
    DoubleAdd { pair: RegPair },
    /// Load the accumulator from memory addressed by a register pair.
    LoadAccIndirect { pair: RegPair },
    /// Load the accumulator from a direct 16-bit address.
    LoadAccDirect { lo: u8, hi: u8 },
    /// Store the accumulator to a direct 16-bit address.
    StoreAccDirect { lo: u8, hi: u8 },
    /// Load HL from a direct 16-bit address.
    LoadHlDirect { lo: u8, hi: u8 },
    /// Store HL to a direct 16-bit address.
    StoreHlDirect { lo: u8, hi: u8 },
    /// Add a register or memory at HL into the accumulator.
    AddReg { src: Reg8 },
    /// Add a register and the carry flag into the accumulator.
    AddCarryReg { src: Reg8 },
    /// Bitwise-and a register into the accumulator.
    AndReg { src: Reg8 },
    /// Bitwise-xor a register into the accumulator.
    XorReg { src: Reg8 },
    /// Add an 8-bit immediate to the accumulator's value, setting the
    /// flags on the outcome.
    AddImm { val: u8 },
    /// Subtract an 8-bit immediate and the borrow from the accumulator.
    SubBorrowImm { val: u8 },
    /// Bitwise-and an 8-bit immediate into the accumulator.
    AndImm { val: u8 },
    /// Compare the accumulator with an 8-bit immediate: subtract
    /// without storing, setting the flags.
    CompareImm { val: u8 },
    /// Rotate the accumulator left through the carry (RLC).
    RotateLeftCarry,
    /// Rotate the accumulator right through the carry (RRC).
    RotateRightCarry,
    /// Decimal-adjust the accumulator (DAA).
    DecimalAdjust,
    /// Push a register pair onto the downward-growing stack.
    Push { pair: RegPair },
    /// Pop a register pair off the stack.
    Pop { pair: RegPair },
    /// Push the accumulator and flags word.
    PushPsw,
    /// Pop the accumulator and flags word.
    PopPsw,
    /// Unconditional jump to a 16-bit target.
    Jump { lo: u8, hi: u8 },
    /// Conditional jump: taken when the condition holds, else fall
    /// through past the three-byte instruction.
    JumpIf { cond: Cond, lo: u8, hi: u8 },
    /// Call: push the return address, then jump to the target.
    Call { lo: u8, hi: u8 },
    /// Conditional call.
    CallIf { cond: Cond, lo: u8, hi: u8 },
    /// Return: pop a 16-bit address off the stack into PC.
    Ret,
    /// Conditional return.
    RetIf { cond: Cond },
    /// Exchange the DE and HL register pairs (XCHG).
    Exchange,
    /// Exchange HL with the 16-bit word at the top of the stack (XTHL).
    ExchangeStackTop,
    /// Jump to the address held in HL (PCHL).
    JumpHl,
    /// Read from an input port: an I/O stub that only consumes its
    /// operand byte.
    InPort { port: u8 },
    /// Write to an output port: an I/O stub that only consumes its
    /// operand byte.
    OutPort { port: u8 },
    /// Set the interrupt-enable flag (EI).
    EnableInterrupts,
}

/// A decoded instruction descriptor: the raw opcode byte, its decoded
/// operation with the operand bytes, and its encoded size in the
/// stream (1, 2 or 3 bytes, determined solely by the operation's
/// category).
#[derive(Clone, Copy, PartialEq, Eq, Structural, Debug)]
pub struct Decoded {
    /// The raw opcode byte, the first byte of the encoding.
    pub opcode: u8,
    /// The decoded operation, carrying any operand bytes.
    pub op: Op,
    /// The number of bytes the instruction occupies in the stream.
    pub size: u8,
}

/// The closed failure taxonomy.  No error is retried or recovered
/// internally: each one stops the driver that met it.
#[derive(Clone, Copy, PartialEq, Eq, Structural, Debug)]
pub enum EmuError {
    /// Decode-time: the opcode byte at `offset` is not in the
    /// catalogue.
    UnknownOpcode { opcode: u8, offset: usize },
    /// Decode-time: the instruction at `offset` needs `needed` bytes
    /// but only `available` remain before the end of the buffer.
    TruncatedInstruction { offset: usize, needed: usize, available: usize },
    /// Execute-time: the opcode decodes but has no modeled effect;
    /// distinct from `UnknownOpcode` so a caller can tell "not a real
    /// instruction" from "real instruction, not yet modeled".
    UnsupportedOpcode { opcode: u8, offset: usize },
}

/// The encoded size of an instruction, in bytes: a function of the
/// operation's category alone, never of operand values.
pub open spec fn op_size(op: Op) -> u8 {
    match op {
        Op::Nop => 1,
        Op::LoadPairImm { .. } => 3,
        Op::MoveImm { .. } => 2,
        Op::MoveImmWide { .. } => 3,
        Op::Move { .. } => 1,
        Op::Increment { .. } => 1,
        Op::Decrement { .. } => 1,
        Op::IncrementPair { .. } => 1,
        Op::DecrementPair { .. } => 1,
        Op::DoubleAdd { .. } => 1,
        Op::LoadAccIndirect { .. } => 1,
        Op::LoadAccDirect { .. } => 3,
        Op::StoreAccDirect { .. } => 3,
        Op::LoadHlDirect { .. } => 3,
        Op::StoreHlDirect { .. } => 3,
        Op::AddReg { .. } => 1,
        Op::AddCarryReg { .. } => 1,
        Op::AndReg { .. } => 1,
        Op::XorReg { .. } => 1,
        Op::AddImm { .. } => 2,
        Op::SubBorrowImm { .. } => 2,
        Op::AndImm { .. } => 2,
        Op::CompareImm { .. } => 2,
        Op::RotateLeftCarry => 1,
        Op::RotateRightCarry => 1,
        Op::DecimalAdjust => 1,
        Op::Push { .. } => 1,
        Op::Pop { .. } => 1,
        Op::PushPsw => 1,
        Op::PopPsw => 1,
        Op::Jump { .. } => 3,
        Op::JumpIf { .. } => 3,
        Op::Call { .. } => 3,
        Op::CallIf { .. } => 3,
        Op::Ret => 1,
        Op::RetIf { .. } => 1,
        Op::Exchange => 1,
        Op::ExchangeStackTop => 1,
        Op::JumpHl => 1,
        Op::InPort { .. } => 2,
        Op::OutPort { .. } => 2,
        Op::EnableInterrupts => 1,
    }
}

/// The opcode catalogue: which operation an opcode byte selects,
/// given the one or two bytes that follow it in the stream.  Opcodes
/// whose category takes no operand ignore `a1` and `a2`.  `None`
/// means the byte is outside the catalogue.
pub open spec fn catalogue(opcode: u8, a1: u8, a2: u8) -> Option<Op> {
    match opcode {
        0x00 => Some(Op::Nop),
        0x01 => Some(Op::LoadPairImm { pair: RegPair::Bc, lo: a1, hi: a2 }),
        0x04 => Some(Op::Increment { target: Reg8::B }),
        0x05 => Some(Op::Decrement { target: Reg8::B }),
        0x06 => Some(Op::MoveImm { dst: Reg8::B, val: a1 }),
        0x07 => Some(Op::RotateLeftCarry),
        0x09 => Some(Op::DoubleAdd { pair: RegPair::Bc }),
        0x0d => Some(Op::Decrement { target: Reg8::C }),
        0x0e => Some(Op::MoveImm { dst: Reg8::C, val: a1 }),
        0x0f => Some(Op::RotateRightCarry),
        0x11 => Some(Op::LoadPairImm { pair: RegPair::De, lo: a1, hi: a2 }),
        0x13 => Some(Op::IncrementPair { pair: RegPair::De }),
        0x14 => Some(Op::Increment { target: Reg8::D }),
        0x15 => Some(Op::Decrement { target: Reg8::D }),
        0x16 => Some(Op::MoveImm { dst: Reg8::D, val: a1 }),
        0x19 => Some(Op::DoubleAdd { pair: RegPair::De }),
        0x1a => Some(Op::LoadAccIndirect { pair: RegPair::De }),
        0x20 => Some(Op::Nop),
        0x21 => Some(Op::LoadPairImm { pair: RegPair::Hl, lo: a1, hi: a2 }),
        0x22 => Some(Op::StoreHlDirect { lo: a1, hi: a2 }),
        0x23 => Some(Op::IncrementPair { pair: RegPair::Hl }),
        0x26 => Some(Op::MoveImm { dst: Reg8::H, val: a1 }),
        0x27 => Some(Op::DecimalAdjust),
        0x29 => Some(Op::DoubleAdd { pair: RegPair::Hl }),
        0x2a => Some(Op::LoadHlDirect { lo: a1, hi: a2 }),
        0x2b => Some(Op::DecrementPair { pair: RegPair::Hl }),
        0x2c => Some(Op::Increment { target: Reg8::L }),
        0x2e => Some(Op::MoveImmWide { lo: a1, hi: a2 }),
        0x31 => Some(Op::LoadPairImm { pair: RegPair::Sp, lo: a1, hi: a2 }),
        0x32 => Some(Op::StoreAccDirect { lo: a1, hi: a2 }),
        0x34 => Some(Op::Increment { target: Reg8::M }),
        0x35 => Some(Op::Decrement { target: Reg8::M }),
        0x36 => Some(Op::MoveImm { dst: Reg8::M, val: a1 }),
        0x3a => Some(Op::LoadAccDirect { lo: a1, hi: a2 }),
        0x3c => Some(Op::Increment { target: Reg8::A }),
        0x3d => Some(Op::Decrement { target: Reg8::A }),
        0x3e => Some(Op::MoveImm { dst: Reg8::A, val: a1 }),
        0x46 => Some(Op::Move { dst: Reg8::B, src: Reg8::M }),
        0x47 => Some(Op::Move { dst: Reg8::B, src: Reg8::A }),
        0x4e => Some(Op::Move { dst: Reg8::C, src: Reg8::M }),
        0x4f => Some(Op::Move { dst: Reg8::C, src: Reg8::A }),
        0x56 => Some(Op::Move { dst: Reg8::D, src: Reg8::M }),
        0x5e => Some(Op::Move { dst: Reg8::E, src: Reg8::M }),
        0x5f => Some(Op::Move { dst: Reg8::E, src: Reg8::A }),
        0x61 => Some(Op::Move { dst: Reg8::H, src: Reg8::C }),
        0x66 => Some(Op::Move { dst: Reg8::H, src: Reg8::M }),
        0x67 => Some(Op::Move { dst: Reg8::H, src: Reg8::A }),
        0x68 => Some(Op::Move { dst: Reg8::L, src: Reg8::B }),
        0x6f => Some(Op::Move { dst: Reg8::L, src: Reg8::A }),
        0x70 => Some(Op::Move { dst: Reg8::M, src: Reg8::B }),
        0x72 => Some(Op::Move { dst: Reg8::M, src: Reg8::D }),
        0x73 => Some(Op::Move { dst: Reg8::M, src: Reg8::E }),
        0x77 => Some(Op::Move { dst: Reg8::M, src: Reg8::A }),
        0x78 => Some(Op::Move { dst: Reg8::A, src: Reg8::B }),
        0x79 => Some(Op::Move { dst: Reg8::A, src: Reg8::C }),
        0x7a => Some(Op::Move { dst: Reg8::A, src: Reg8::D }),
        0x7b => Some(Op::Move { dst: Reg8::A, src: Reg8::E }),
        0x7c => Some(Op::Move { dst: Reg8::A, src: Reg8::H }),
        0x7d => Some(Op::Move { dst: Reg8::A, src: Reg8::L }),
        0x7e => Some(Op::Move { dst: Reg8::A, src: Reg8::M }),
        0x85 => Some(Op::AddReg { src: Reg8::L }),
        0x86 => Some(Op::AddReg { src: Reg8::M }),
        0x8d => Some(Op::AddCarryReg { src: Reg8::L }),
        0xa1 => Some(Op::AndReg { src: Reg8::C }),
        0xa7 => Some(Op::AndReg { src: Reg8::A }),
        0xaf => Some(Op::XorReg { src: Reg8::A }),
        0xb0 => Some(Op::DecrementPair { pair: RegPair::Bc }),
        0xc0 => Some(Op::RetIf { cond: Cond::NotZero }),
        0xc1 => Some(Op::Pop { pair: RegPair::Bc }),
        0xc2 => Some(Op::JumpIf { cond: Cond::NotZero, lo: a1, hi: a2 }),
        0xc3 => Some(Op::Jump { lo: a1, hi: a2 }),
        0xc4 => Some(Op::CallIf { cond: Cond::NotZero, lo: a1, hi: a2 }),
        0xc5 => Some(Op::Push { pair: RegPair::Bc }),
        0xc6 => Some(Op::AddImm { val: a1 }),
        0xc8 => Some(Op::RetIf { cond: Cond::Zero }),
        0xc9 => Some(Op::Ret),
        0xca => Some(Op::JumpIf { cond: Cond::Zero, lo: a1, hi: a2 }),
        0xcc => Some(Op::CallIf { cond: Cond::Zero, lo: a1, hi: a2 }),
        0xcd => Some(Op::Call { lo: a1, hi: a2 }),
        0xd0 => Some(Op::RetIf { cond: Cond::NotCarry }),
        0xd1 => Some(Op::Pop { pair: RegPair::De }),
        0xd2 => Some(Op::JumpIf { cond: Cond::NotCarry, lo: a1, hi: a2 }),
        0xd3 => Some(Op::OutPort { port: a1 }),
        0xd5 => Some(Op::Push { pair: RegPair::De }),
        0xda => Some(Op::JumpIf { cond: Cond::Carry, lo: a1, hi: a2 }),
        0xdb => Some(Op::InPort { port: a1 }),
        0xde => Some(Op::SubBorrowImm { val: a1 }),
        0xe1 => Some(Op::Pop { pair: RegPair::Hl }),
        0xe3 => Some(Op::ExchangeStackTop),
        0xe5 => Some(Op::Push { pair: RegPair::Hl }),
        0xe6 => Some(Op::AndImm { val: a1 }),
        0xe9 => Some(Op::JumpHl),
        0xeb => Some(Op::Exchange),
        0xf1 => Some(Op::PopPsw),
        0xf5 => Some(Op::PushPsw),
        0xfa => Some(Op::JumpIf { cond: Cond::Minus, lo: a1, hi: a2 }),
        0xfb => Some(Op::EnableInterrupts),
        0xfe => Some(Op::CompareImm { val: a1 }),
        _ => None,
    }
}

impl Decoded {
    /// A valid descriptor: the stored size is the one the operation's
    /// category prescribes.  Decoding only ever produces valid
    /// descriptors.
    pub open spec fn wf(self) -> bool {
        self.size == op_size(self.op)
    }
}

/// What decoding yields on a buffer at an offset: the descriptor, or
/// the one decode-time error that applies.  An opcode outside the
/// catalogue is `UnknownOpcode`; a known opcode whose operand bytes
/// run past the end of the buffer is `TruncatedInstruction`.
pub open spec fn decode_spec(mem: Seq<u8>, offset: usize) -> Result<Decoded, EmuError> {
    let opcode = mem[offset as int];
    let a1 = if offset + 1 < mem.len() { mem[offset + 1] } else { 0u8 };
    let a2 = if offset + 2 < mem.len() { mem[offset + 2] } else { 0u8 };
    match catalogue(opcode, a1, a2) {
        None => Err(EmuError::UnknownOpcode { opcode, offset }),
        Some(op) => {
            if offset + op_size(op) > mem.len() {
                Err(EmuError::TruncatedInstruction {
                    offset,
                    needed: op_size(op) as usize,
                    available: (mem.len() - offset) as usize,
                })
            } else {
                Ok(Decoded { opcode, op, size: op_size(op) })
            }
        },
    }
}

/// A successful decode always yields a valid descriptor.
pub proof fn lemma_decode_wf(mem: Seq<u8>, offset: usize)
    requires
        decode_spec(mem, offset) is Ok,
    ensures
        decode_spec(mem, offset)->Ok_0.wf(),
        1 <= decode_spec(mem, offset)->Ok_0.size <= 3,
        offset + decode_spec(mem, offset)->Ok_0.size <= mem.len(),
{
}

/// The catalogue as executable code.
fn catalogue_exec(opcode: u8, a1: u8, a2: u8) -> (r: Option<Op>)
    ensures
        r == catalogue(opcode, a1, a2),
{
    match opcode {
        0x00 => Some(Op::Nop),
        0x01 => Some(Op::LoadPairImm { pair: RegPair::Bc, lo: a1, hi: a2 }),
        0x04 => Some(Op::Increment { target: Reg8::B }),
        0x05 => Some(Op::Decrement { target: Reg8::B }),
        0x06 => Some(Op::MoveImm { dst: Reg8::B, val: a1 }),
        0x07 => Some(Op::RotateLeftCarry),
        0x09 => Some(Op::DoubleAdd { pair: RegPair::Bc }),
        0x0d => Some(Op::Decrement { target: Reg8::C }),
        0x0e => Some(Op::MoveImm { dst: Reg8::C, val: a1 }),
        0x0f => Some(Op::RotateRightCarry),
        0x11 => Some(Op::LoadPairImm { pair: RegPair::De, lo: a1, hi: a2 }),
        0x13 => Some(Op::IncrementPair { pair: RegPair::De }),
        0x14 => Some(Op::Increment { target: Reg8::D }),
        0x15 => Some(Op::Decrement { target: Reg8::D }),
        0x16 => Some(Op::MoveImm { dst: Reg8::D, val: a1 }),
        0x19 => Some(Op::DoubleAdd { pair: RegPair::De }),
        0x1a => Some(Op::LoadAccIndirect { pair: RegPair::De }),
        0x20 => Some(Op::Nop),
        0x21 => Some(Op::LoadPairImm { pair: RegPair::Hl, lo: a1, hi: a2 }),
        0x22 => Some(Op::StoreHlDirect { lo: a1, hi: a2 }),
        0x23 => Some(Op::IncrementPair { pair: RegPair::Hl }),
        0x26 => Some(Op::MoveImm { dst: Reg8::H, val: a1 }),
        0x27 => Some(Op::DecimalAdjust),
        0x29 => Some(Op::DoubleAdd { pair: RegPair::Hl }),
        0x2a => Some(Op::LoadHlDirect { lo: a1, hi: a2 }),
        0x2b => Some(Op::DecrementPair { pair: RegPair::Hl }),
        0x2c => Some(Op::Increment { target: Reg8::L }),
        0x2e => Some(Op::MoveImmWide { lo: a1, hi: a2 }),
        0x31 => Some(Op::LoadPairImm { pair: RegPair::Sp, lo: a1, hi: a2 }),
        0x32 => Some(Op::StoreAccDirect { lo: a1, hi: a2 }),
        0x34 => Some(Op::Increment { target: Reg8::M }),
        0x35 => Some(Op::Decrement { target: Reg8::M }),
        0x36 => Some(Op::MoveImm { dst: Reg8::M, val: a1 }),
        0x3a => Some(Op::LoadAccDirect { lo: a1, hi: a2 }),
        0x3c => Some(Op::Increment { target: Reg8::A }),
        0x3d => Some(Op::Decrement { target: Reg8::A }),
        0x3e => Some(Op::MoveImm { dst: Reg8::A, val: a1 }),
        0x46 => Some(Op::Move { dst: Reg8::B, src: Reg8::M }),
        0x47 => Some(Op::Move { dst: Reg8::B, src: Reg8::A }),
        0x4e => Some(Op::Move { dst: Reg8::C, src: Reg8::M }),
        0x4f => Some(Op::Move { dst: Reg8::C, src: Reg8::A }),
        0x56 => Some(Op::Move { dst: Reg8::D, src: Reg8::M }),
        0x5e => Some(Op::Move { dst: Reg8::E, src: Reg8::M }),
        0x5f => Some(Op::Move { dst: Reg8::E, src: Reg8::A }),
        0x61 => Some(Op::Move { dst: Reg8::H, src: Reg8::C }),
        0x66 => Some(Op::Move { dst: Reg8::H, src: Reg8::M }),
        0x67 => Some(Op::Move { dst: Reg8::H, src: Reg8::A }),
        0x68 => Some(Op::Move { dst: Reg8::L, src: Reg8::B }),
        0x6f => Some(Op::Move { dst: Reg8::L, src: Reg8::A }),
        0x70 => Some(Op::Move { dst: Reg8::M, src: Reg8::B }),
        0x72 => Some(Op::Move { dst: Reg8::M, src: Reg8::D }),
        0x73 => Some(Op::Move { dst: Reg8::M, src: Reg8::E }),
        0x77 => Some(Op::Move { dst: Reg8::M, src: Reg8::A }),
        0x78 => Some(Op::Move { dst: Reg8::A, src: Reg8::B }),
        0x79 => Some(Op::Move { dst: Reg8::A, src: Reg8::C }),
        0x7a => Some(Op::Move { dst: Reg8::A, src: Reg8::D }),
        0x7b => Some(Op::Move { dst: Reg8::A, src: Reg8::E }),
        0x7c => Some(Op::Move { dst: Reg8::A, src: Reg8::H }),
        0x7d => Some(Op::Move { dst: Reg8::A, src: Reg8::L }),
        0x7e => Some(Op::Move { dst: Reg8::A, src: Reg8::M }),
        0x85 => Some(Op::AddReg { src: Reg8::L }),
        0x86 => Some(Op::AddReg { src: Reg8::M }),
        0x8d => Some(Op::AddCarryReg { src: Reg8::L }),
        0xa1 => Some(Op::AndReg { src: Reg8::C }),
        0xa7 => Some(Op::AndReg { src: Reg8::A }),
        0xaf => Some(Op::XorReg { src: Reg8::A }),
        0xb0 => Some(Op::DecrementPair { pair: RegPair::Bc }),
        0xc0 => Some(Op::RetIf { cond: Cond::NotZero }),
        0xc1 => Some(Op::Pop { pair: RegPair::Bc }),
        0xc2 => Some(Op::JumpIf { cond: Cond::NotZero, lo: a1, hi: a2 }),
        0xc3 => Some(Op::Jump { lo: a1, hi: a2 }),
        0xc4 => Some(Op::CallIf { cond: Cond::NotZero, lo: a1, hi: a2 }),
        0xc5 => Some(Op::Push { pair: RegPair::Bc }),
        0xc6 => Some(Op::AddImm { val: a1 }),
        0xc8 => Some(Op::RetIf { cond: Cond::Zero }),
        0xc9 => Some(Op::Ret),
        0xca => Some(Op::JumpIf { cond: Cond::Zero, lo: a1, hi: a2 }),
        0xcc => Some(Op::CallIf { cond: Cond::Zero, lo: a1, hi: a2 }),
        0xcd => Some(Op::Call { lo: a1, hi: a2 }),
        0xd0 => Some(Op::RetIf { cond: Cond::NotCarry }),
        0xd1 => Some(Op::Pop { pair: RegPair::De }),
        0xd2 => Some(Op::JumpIf { cond: Cond::NotCarry, lo: a1, hi: a2 }),
        0xd3 => Some(Op::OutPort { port: a1 }),
        0xd5 => Some(Op::Push { pair: RegPair::De }),
        0xda => Some(Op::JumpIf { cond: Cond::Carry, lo: a1, hi: a2 }),
        0xdb => Some(Op::InPort { port: a1 }),
        0xde => Some(Op::SubBorrowImm { val: a1 }),
        0xe1 => Some(Op::Pop { pair: RegPair::Hl }),
        0xe3 => Some(Op::ExchangeStackTop),
        0xe5 => Some(Op::Push { pair: RegPair::Hl }),
        0xe6 => Some(Op::AndImm { val: a1 }),
        0xe9 => Some(Op::JumpHl),
        0xeb => Some(Op::Exchange),
        0xf1 => Some(Op::PopPsw),
        0xf5 => Some(Op::PushPsw),
        0xfa => Some(Op::JumpIf { cond: Cond::Minus, lo: a1, hi: a2 }),
        0xfb => Some(Op::EnableInterrupts),
        0xfe => Some(Op::CompareImm { val: a1 }),
        _ => None,
    }
}

/// The encoded size of an operation, as executable code.
pub fn encoded_size(op: Op) -> (s: u8)
    ensures
        s == op_size(op),
{
    match op {
        Op::Nop => 1,
        Op::LoadPairImm { .. } => 3,
        Op::MoveImm { .. } => 2,
        Op::MoveImmWide { .. } => 3,
        Op::Move { .. } => 1,
        Op::Increment { .. } => 1,
        Op::Decrement { .. } => 1,
        Op::IncrementPair { .. } => 1,
        Op::DecrementPair { .. } => 1,
        Op::DoubleAdd { .. } => 1,
        Op::LoadAccIndirect { .. } => 1,
        Op::LoadAccDirect { .. } => 3,
        Op::StoreAccDirect { .. } => 3,
        Op::LoadHlDirect { .. } => 3,
        Op::StoreHlDirect { .. } => 3,
        Op::AddReg { .. } => 1,
        Op::AddCarryReg { .. } => 1,
        Op::AndReg { .. } => 1,
        Op::XorReg { .. } => 1,
        Op::AddImm { .. } => 2,
        Op::SubBorrowImm { .. } => 2,
        Op::AndImm { .. } => 2,
        Op::CompareImm { .. } => 2,
        Op::RotateLeftCarry => 1,
        Op::RotateRightCarry => 1,
        Op::DecimalAdjust => 1,
        Op::Push { .. } => 1,
        Op::Pop { .. } => 1,
        Op::PushPsw => 1,
        Op::PopPsw => 1,
        Op::Jump { .. } => 3,
        Op::JumpIf { .. } => 3,
        Op::Call { .. } => 3,
        Op::CallIf { .. } => 3,
        Op::Ret => 1,
        Op::RetIf { .. } => 1,
        Op::Exchange => 1,
        Op::ExchangeStackTop => 1,
        Op::JumpHl => 1,
        Op::InPort { .. } => 2,
        Op::OutPort { .. } => 2,
        Op::EnableInterrupts => 1,
    }
}

/// Decodes the instruction that starts at `offset` in the buffer.
/// Reads the opcode byte and, per its category, zero, one or two
/// operand bytes; performs no mutation and has no side effects, so
/// the execution path and the rendering path share it.
pub fn decode(buf: &Vec<u8>, offset: usize) -> (r: Result<Decoded, EmuError>)
    requires
        offset < buf@.len(),
    ensures
        r == decode_spec(buf@, offset),
{
    let n = buf.len();
    let opcode = buf[offset];
    let a1 = if n - offset > 1 { buf[offset + 1] } else { 0 };
    let a2 = if n - offset > 2 { buf[offset + 2] } else { 0 };
    match catalogue_exec(opcode, a1, a2) {
        None => Err(EmuError::UnknownOpcode { opcode, offset }),
        Some(op) => {
            let size = encoded_size(op);
            if n - offset < size as usize {
                Err(EmuError::TruncatedInstruction {
                    offset,
                    needed: size as usize,
                    available: n - offset,
                })
            } else {
                Ok(Decoded { opcode, op, size })
            }
        },
    }
}

} // verus!
