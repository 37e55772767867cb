//! The machine state: register file, condition flags, program counter,
//! stack pointer, and the flat 64 KiB memory.  The state is created
//! once with everything zeroed, a ROM image is copied in at address
//! zero, and from then on only the executor mutates it.

use vstd::prelude::*;

use crate::arith::MEMORY_SIZE;

verus! {

/// The condition flags.  Each is set only by the instructions
/// documented to affect it; every other instruction leaves it alone.
#[derive(Clone, Copy, PartialEq, Eq, Structural, Debug)]
pub struct ConditionCodes {
    /// Zero: the last flag-setting result was zero.
    pub z: bool,
    /// Sign: bit 7 of the last flag-setting result was set.
    pub s: bool,
    /// Parity: the last flag-setting result had an even number of one bits.
    pub p: bool,
    /// Carry: the last addition carried out of bit 7, or the last
    /// subtraction required a borrow.
    pub cy: bool,
    /// Auxiliary carry: declared by the architecture but not computed
    /// by any instruction in this catalogue; it stays as initialised.
    pub ac: bool,
}

/// The registers, flags, and memory of the processor.
pub struct CpuState {
    /// The accumulator.
    pub a: u8,
    /// General-purpose register, high half of the BC pair.
    pub b: u8,
    /// General-purpose register, low half of the BC pair.
    pub c: u8,
    /// General-purpose register, high half of the DE pair.
    pub d: u8,
    /// General-purpose register, low half of the DE pair.
    pub e: u8,
    /// General-purpose register, high half of the HL pair.
    pub h: u8,
    /// General-purpose register, low half of the HL pair.
    pub l: u8,
    /// Stack pointer; wraps modulo 2^16.
    pub sp: u16,
    /// Program counter; wraps modulo 2^16.
    pub pc: u16,
    /// The entire addressable space, a fixed 65536-entry byte array.
    pub memory: Vec<u8>,
    /// The condition flags.
    pub cc: ConditionCodes,
    /// The interrupt-enable flag; set and cleared by dedicated opcodes,
    /// otherwise inert.
    pub int_enable: bool,
}

/// The mathematical image of a `CpuState`: the same fields with the
/// memory as a sequence.
#[verifier::ext_equal]
pub ghost struct CpuModel {
    pub a: u8,
    pub b: u8,
    pub c: u8,
    pub d: u8,
    pub e: u8,
    pub h: u8,
    pub l: u8,
    pub sp: u16,
    pub pc: u16,
    pub mem: Seq<u8>,
    pub cc: ConditionCodes,
    pub int_enable: bool,
}

impl View for CpuState {
    type V = CpuModel;

    open spec fn view(&self) -> CpuModel {
        CpuModel {
            a: self.a,
            b: self.b,
            c: self.c,
            d: self.d,
            e: self.e,
            h: self.h,
            l: self.l,
            sp: self.sp,
            pc: self.pc,
            mem: self.memory@,
            cc: self.cc,
            int_enable: self.int_enable,
        }
    }
}

impl CpuModel {
    /// Well-formed machine state: the memory covers the whole
    /// addressable space, so every 16-bit address is in bounds.
    pub open spec fn wf(self) -> bool {
        self.mem.len() == MEMORY_SIZE
    }
}

impl CpuState {
    /// Well-formed machine state.
    pub open spec fn wf(&self) -> bool {
        self@.wf()
    }
}

/// The state every run begins from: registers and flags zero, memory
/// zero-filled, interrupts disabled.
pub open spec fn initial_cpu() -> CpuModel {
    CpuModel {
        a: 0,
        b: 0,
        c: 0,
        d: 0,
        e: 0,
        h: 0,
        l: 0,
        sp: 0,
        pc: 0,
        mem: Seq::new(MEMORY_SIZE as nat, |i: int| 0u8),
        cc: ConditionCodes { z: false, s: false, p: false, cy: false, ac: false },
        int_enable: false,
    }
}

/// Builds the machine in its start state: all registers and flags
/// zero and the memory zero-filled.
pub fn init_cpu() -> (s: CpuState)
    ensures
        s.wf(),
        s@ == initial_cpu(),
{
    let mut memory: Vec<u8> = Vec::new();
    while memory.len() < MEMORY_SIZE
        invariant
            memory@.len() <= MEMORY_SIZE,
            forall|i: int| 0 <= i < memory@.len() ==> memory@[i] == 0u8,
        decreases MEMORY_SIZE - memory@.len(),
    {
        memory.push(0u8);
    }
    let s = CpuState {
        a: 0x00,
        b: 0x00,
        c: 0x00,
        d: 0x00,
        e: 0x00,
        h: 0x00,
        l: 0x00,
        sp: 0x0000,
        pc: 0x0000,
        memory,
        cc: ConditionCodes { z: false, s: false, p: false, cy: false, ac: false },
        int_enable: false,
    };
    proof {
        assert(s@.mem =~= initial_cpu().mem);
        assert(s@ =~= initial_cpu());
    }
    s
}

/// The memory after a ROM image is copied in at address zero: the
/// image's bytes first, the previous contents beyond it.
pub open spec fn loaded_mem(mem: Seq<u8>, rom: Seq<u8>) -> Seq<u8> {
    Seq::new(mem.len(), |i: int| if i < rom.len() { rom[i] } else { mem[i] })
}

/// Copies a ROM image into memory starting at address zero; every
/// byte past the image keeps its previous value, and nothing else in
/// the machine changes.
pub fn load_rom_to_memory(state: &mut CpuState, rom: &Vec<u8>)
    requires
        old(state).wf(),
        rom@.len() <= MEMORY_SIZE,
    ensures
        final(state).wf(),
        final(state)@ == (CpuModel { mem: loaded_mem(old(state)@.mem, rom@), ..old(state)@ }),
{
    let mut i: usize = 0;
    while i < rom.len()
        invariant
            i <= rom@.len(),
            rom@.len() <= MEMORY_SIZE,
            state@.mem.len() == MEMORY_SIZE,
            forall|j: int| 0 <= j < i ==> state@.mem[j] == rom@[j],
            forall|j: int| i <= j < MEMORY_SIZE ==> state@.mem[j] == old(state)@.mem[j],
            state@ == (CpuModel { mem: state@.mem, ..old(state)@ }),
        decreases rom@.len() - i,
    {
        state.memory[i] = rom[i];
        i = i + 1;
    }
    proof {
        assert(state@.mem =~= loaded_mem(old(state)@.mem, rom@));
        assert(state@ =~= (CpuModel { mem: loaded_mem(old(state)@.mem, rom@), ..old(state)@ }));
    }
}

} // verus!
