use emu8080::decode::{Cond, Decoded, EmuError, Op, Reg8, RegPair};
use emu8080::driver::{run, run_program, step, RunStatus};
use emu8080::exec::execute;
use emu8080::state::{init_cpu, load_rom_to_memory};

#[test]
fn init_cpu_zeroes_everything() {
    let cpu = init_cpu();
    assert_eq!(cpu.a, 0);
    assert_eq!(cpu.b, 0);
    assert_eq!(cpu.c, 0);
    assert_eq!(cpu.d, 0);
    assert_eq!(cpu.e, 0);
    assert_eq!(cpu.h, 0);
    assert_eq!(cpu.l, 0);
    assert_eq!(cpu.sp, 0);
    assert_eq!(cpu.pc, 0);
    assert_eq!(cpu.memory.len(), 0x10000);
    assert!(cpu.memory.iter().all(|&b| b == 0));
    assert!(!cpu.cc.z && !cpu.cc.s && !cpu.cc.p && !cpu.cc.cy && !cpu.cc.ac);
    assert!(!cpu.int_enable);
}

#[test]
fn load_rom_copies_at_address_zero() {
    let mut cpu = init_cpu();
    let rom = vec![0x11u8, 0x22, 0x33];
    load_rom_to_memory(&mut cpu, &rom);
    assert_eq!(cpu.memory[0], 0x11);
    assert_eq!(cpu.memory[1], 0x22);
    assert_eq!(cpu.memory[2], 0x33);
    assert_eq!(cpu.memory[3], 0x00); // bytes beyond the image stay zero
    assert_eq!(cpu.pc, 0);
}

#[test]
fn decrement_wraps_and_sets_flags() {
    // Decrementing 0x00 yields 0xff: zero clear, sign set, parity
    // even (eight set bits).
    let mut cpu = init_cpu();
    cpu.b = 0x00;
    let d = Decoded { opcode: 0x05, op: Op::Decrement { target: Reg8::B }, size: 1 };
    execute(&mut cpu, &d).unwrap();
    assert_eq!(cpu.b, 0xff);
    assert!(!cpu.cc.z);
    assert!(cpu.cc.s);
    assert!(cpu.cc.p);
    assert!(!cpu.cc.cy); // carry untouched
    assert_eq!(cpu.pc, 1);
}

#[test]
fn increment_wraps_and_sets_flags() {
    let mut cpu = init_cpu();
    cpu.a = 0xff;
    let d = Decoded { opcode: 0x3c, op: Op::Increment { target: Reg8::A }, size: 1 };
    execute(&mut cpu, &d).unwrap();
    assert_eq!(cpu.a, 0x00);
    assert!(cpu.cc.z);
    assert!(!cpu.cc.s);
    assert!(cpu.cc.p); // zero set bits, even
}

#[test]
fn double_add_low_carry_clear() {
    // HL=0x00ff + BC=0x0001 -> HL=0x0100, carry clear.
    let mut cpu = init_cpu();
    cpu.h = 0x00;
    cpu.l = 0xff;
    cpu.b = 0x00;
    cpu.c = 0x01;
    let d = Decoded { opcode: 0x09, op: Op::DoubleAdd { pair: RegPair::Bc }, size: 1 };
    execute(&mut cpu, &d).unwrap();
    assert_eq!(cpu.h, 0x01);
    assert_eq!(cpu.l, 0x00);
    assert!(!cpu.cc.cy);
    // The addend pair is read, never overwritten.
    assert_eq!(cpu.b, 0x00);
    assert_eq!(cpu.c, 0x01);
}

#[test]
fn double_add_wraps_with_carry() {
    // HL=0xffff + BC=0x0001 -> HL=0x0000, carry set.
    let mut cpu = init_cpu();
    cpu.h = 0xff;
    cpu.l = 0xff;
    cpu.b = 0x00;
    cpu.c = 0x01;
    let d = Decoded { opcode: 0x09, op: Op::DoubleAdd { pair: RegPair::Bc }, size: 1 };
    execute(&mut cpu, &d).unwrap();
    assert_eq!(cpu.h, 0x00);
    assert_eq!(cpu.l, 0x00);
    assert!(cpu.cc.cy);
}

#[test]
fn stack_push_pop_round_trip() {
    // Push BC at SP=0x2400: high byte lands at 0x23ff, low at 0x23fe,
    // SP drops to 0x23fe; the pop restores everything.
    let mut cpu = init_cpu();
    cpu.b = 0x12;
    cpu.c = 0x34;
    cpu.sp = 0x2400;
    let push = Decoded { opcode: 0xc5, op: Op::Push { pair: RegPair::Bc }, size: 1 };
    let cycles = execute(&mut cpu, &push).unwrap();
    assert_eq!(cycles, 11);
    assert_eq!(cpu.memory[0x23ff], 0x12);
    assert_eq!(cpu.memory[0x23fe], 0x34);
    assert_eq!(cpu.sp, 0x23fe);
    cpu.b = 0x00;
    cpu.c = 0x00;
    let pop = Decoded { opcode: 0xc1, op: Op::Pop { pair: RegPair::Bc }, size: 1 };
    execute(&mut cpu, &pop).unwrap();
    assert_eq!(cpu.b, 0x12);
    assert_eq!(cpu.c, 0x34);
    assert_eq!(cpu.sp, 0x2400);
}

#[test]
fn call_ret_round_trip() {
    // CALL at PC=0x1000 to 0x0200 with SP=0x2400 pushes the return
    // address 0x1003; RET restores PC=0x1003 and SP=0x2400.
    let mut cpu = init_cpu();
    cpu.pc = 0x1000;
    cpu.sp = 0x2400;
    let call = Decoded { opcode: 0xcd, op: Op::Call { lo: 0x00, hi: 0x02 }, size: 3 };
    execute(&mut cpu, &call).unwrap();
    assert_eq!(cpu.pc, 0x0200);
    assert_eq!(cpu.sp, 0x23fe);
    assert_eq!(cpu.memory[0x23ff], 0x10); // high byte of 0x1003
    assert_eq!(cpu.memory[0x23fe], 0x03); // low byte of 0x1003
    let ret = Decoded { opcode: 0xc9, op: Op::Ret, size: 1 };
    execute(&mut cpu, &ret).unwrap();
    assert_eq!(cpu.pc, 0x1003);
    assert_eq!(cpu.sp, 0x2400);
}

#[test]
fn conditional_jump_not_zero() {
    let jnz = Decoded {
        opcode: 0xc2,
        op: Op::JumpIf { cond: Cond::NotZero, lo: 0x00, hi: 0x02 },
        size: 3,
    };
    // Zero flag set: fall through by three bytes.
    let mut cpu = init_cpu();
    cpu.pc = 0x0100;
    cpu.cc.z = true;
    execute(&mut cpu, &jnz).unwrap();
    assert_eq!(cpu.pc, 0x0103);
    // Zero flag clear: land on the encoded target.
    let mut cpu2 = init_cpu();
    cpu2.pc = 0x0100;
    cpu2.cc.z = false;
    execute(&mut cpu2, &jnz).unwrap();
    assert_eq!(cpu2.pc, 0x0200);
}

#[test]
fn compare_immediate_sets_borrow() {
    let mut cpu = init_cpu();
    cpu.a = 0x10;
    let d = Decoded { opcode: 0xfe, op: Op::CompareImm { val: 0x20 }, size: 2 };
    execute(&mut cpu, &d).unwrap();
    assert_eq!(cpu.a, 0x10); // compare never stores
    assert!(cpu.cc.cy); // 0x10 < 0x20: borrow
    assert!(!cpu.cc.z);
    assert!(cpu.cc.s); // 0x10 - 0x20 wraps to 0xf0, bit 7 set
    assert!(cpu.cc.p); // 0xf0 has four set bits
    assert_eq!(cpu.pc, 2);
}

#[test]
fn compare_immediate_equal_sets_zero() {
    let mut cpu = init_cpu();
    cpu.a = 0x42;
    let d = Decoded { opcode: 0xfe, op: Op::CompareImm { val: 0x42 }, size: 2 };
    execute(&mut cpu, &d).unwrap();
    assert!(cpu.cc.z);
    assert!(!cpu.cc.cy);
}

#[test]
fn add_immediate_sets_flags_without_storing() {
    let mut cpu = init_cpu();
    cpu.a = 0xf0;
    let d = Decoded { opcode: 0xc6, op: Op::AddImm { val: 0x20 }, size: 2 };
    execute(&mut cpu, &d).unwrap();
    assert_eq!(cpu.a, 0xf0); // the additive immediate form stores nothing
    assert!(cpu.cc.cy); // 0xf0 + 0x20 carries out of bit 7
    assert!(!cpu.cc.z); // result byte 0x10
    assert!(!cpu.cc.s);
    assert!(!cpu.cc.p); // 0x10 has one set bit
}

#[test]
fn move_between_register_and_memory() {
    let mut cpu = init_cpu();
    cpu.h = 0x01;
    cpu.l = 0x23;
    cpu.a = 0x5a;
    let mov_ma = Decoded { opcode: 0x77, op: Op::Move { dst: Reg8::M, src: Reg8::A }, size: 1 };
    let cycles = execute(&mut cpu, &mov_ma).unwrap();
    assert_eq!(cycles, 7);
    assert_eq!(cpu.memory[0x0123], 0x5a);
    cpu.a = 0;
    let mov_am = Decoded { opcode: 0x7e, op: Op::Move { dst: Reg8::A, src: Reg8::M }, size: 1 };
    execute(&mut cpu, &mov_am).unwrap();
    assert_eq!(cpu.a, 0x5a);
    let mov_ah = Decoded { opcode: 0x7c, op: Op::Move { dst: Reg8::A, src: Reg8::H }, size: 1 };
    execute(&mut cpu, &mov_ah).unwrap();
    assert_eq!(cpu.a, 0x01);
}

#[test]
fn load_immediates_and_memory_loads() {
    let mut cpu = init_cpu();
    // LXI SP: low byte first in the stream.
    let lxi_sp = Decoded {
        opcode: 0x31,
        op: Op::LoadPairImm { pair: RegPair::Sp, lo: 0x00, hi: 0x24 },
        size: 3,
    };
    execute(&mut cpu, &lxi_sp).unwrap();
    assert_eq!(cpu.sp, 0x2400);
    // MVI M writes through HL.
    cpu.h = 0x20;
    cpu.l = 0x10;
    let mvi_m = Decoded { opcode: 0x36, op: Op::MoveImm { dst: Reg8::M, val: 0xab }, size: 2 };
    execute(&mut cpu, &mvi_m).unwrap();
    assert_eq!(cpu.memory[0x2010], 0xab);
    // LDA reads a direct address.
    let lda = Decoded { opcode: 0x3a, op: Op::LoadAccDirect { lo: 0x10, hi: 0x20 }, size: 3 };
    execute(&mut cpu, &lda).unwrap();
    assert_eq!(cpu.a, 0xab);
    // LDAX reads through DE.
    cpu.d = 0x20;
    cpu.e = 0x10;
    cpu.a = 0;
    let ldax = Decoded { opcode: 0x1a, op: Op::LoadAccIndirect { pair: RegPair::De }, size: 1 };
    execute(&mut cpu, &ldax).unwrap();
    assert_eq!(cpu.a, 0xab);
}

#[test]
fn increment_pair_carries_into_high_byte() {
    let mut cpu = init_cpu();
    cpu.d = 0x00;
    cpu.e = 0xff;
    let inx_d = Decoded { opcode: 0x13, op: Op::IncrementPair { pair: RegPair::De }, size: 1 };
    execute(&mut cpu, &inx_d).unwrap();
    assert_eq!(cpu.d, 0x01);
    assert_eq!(cpu.e, 0x00);
    cpu.h = 0xff;
    cpu.l = 0xff;
    let inx_h = Decoded { opcode: 0x23, op: Op::IncrementPair { pair: RegPair::Hl }, size: 1 };
    execute(&mut cpu, &inx_h).unwrap();
    assert_eq!(cpu.h, 0x00);
    assert_eq!(cpu.l, 0x00);
}

#[test]
fn exchange_swaps_de_and_hl() {
    let mut cpu = init_cpu();
    cpu.d = 0x11;
    cpu.e = 0x22;
    cpu.h = 0x33;
    cpu.l = 0x44;
    let d = Decoded { opcode: 0xeb, op: Op::Exchange, size: 1 };
    execute(&mut cpu, &d).unwrap();
    assert_eq!((cpu.d, cpu.e, cpu.h, cpu.l), (0x33, 0x44, 0x11, 0x22));
}

#[test]
fn enable_interrupts_sets_the_flag() {
    let mut cpu = init_cpu();
    cpu.memory[0] = 0xfb;
    let cycles = step(&mut cpu).unwrap();
    assert_eq!(cycles, 4);
    assert!(cpu.int_enable);
    assert_eq!(cpu.pc, 1);
}

#[test]
fn io_stubs_only_advance_the_counter() {
    let mut cpu = init_cpu();
    cpu.memory[0] = 0xd3; // OUT
    cpu.memory[1] = 0x42;
    cpu.memory[2] = 0xdb; // IN
    cpu.memory[3] = 0x17;
    step(&mut cpu).unwrap();
    assert_eq!(cpu.pc, 2);
    step(&mut cpu).unwrap();
    assert_eq!(cpu.pc, 4);
    assert_eq!(cpu.a, 0); // no port device is modeled
}

#[test]
fn unsupported_opcode_is_fatal_and_leaves_state() {
    // 0x27 (DAA) decodes but has no modeled effect.
    let mut cpu = init_cpu();
    cpu.memory[0] = 0x27;
    cpu.a = 0x99;
    let e = step(&mut cpu).unwrap_err();
    assert_eq!(e, EmuError::UnsupportedOpcode { opcode: 0x27, offset: 0 });
    assert_eq!(cpu.pc, 0); // nothing moved
    assert_eq!(cpu.a, 0x99);
}

#[test]
fn unknown_opcode_halts_run_without_mutation() {
    let mut cpu = init_cpu();
    cpu.memory[0] = 0xff;
    cpu.a = 0x55;
    let e = run(&mut cpu, 0x2000, 100).unwrap_err();
    assert_eq!(e, EmuError::UnknownOpcode { opcode: 0xff, offset: 0 });
    assert_eq!(cpu.pc, 0);
    assert_eq!(cpu.a, 0x55);
}

#[test]
fn run_reaches_the_sentinel() {
    // Four NOPs, then the sentinel at 0x0004.
    let mut cpu = init_cpu();
    let status = run(&mut cpu, 0x0004, 100).unwrap();
    assert_eq!(status, RunStatus::Halted);
    assert_eq!(cpu.pc, 0x0004);
}

#[test]
fn run_respects_the_step_budget() {
    let mut cpu = init_cpu();
    let status = run(&mut cpu, 0x2000, 3).unwrap();
    assert_eq!(status, RunStatus::StepLimit);
    assert_eq!(cpu.pc, 3); // three NOPs stepped
}

#[test]
fn run_program_loads_and_runs() {
    // MVI B,0x42 then JMP 0x2000 (the sentinel).
    let rom = vec![0x06u8, 0x42, 0xc3, 0x00, 0x20];
    let (cpu, res) = run_program(&rom, 0x0000, 0x2000, 100);
    assert_eq!(res.unwrap(), RunStatus::Halted);
    assert_eq!(cpu.b, 0x42);
    assert_eq!(cpu.pc, 0x2000);
}

#[test]
fn step_decodes_and_advances_by_size() {
    let mut cpu = init_cpu();
    cpu.memory[0] = 0x01; // LXI B,0x1234
    cpu.memory[1] = 0x34;
    cpu.memory[2] = 0x12;
    let cycles = step(&mut cpu).unwrap();
    assert_eq!(cycles, 10);
    assert_eq!(cpu.b, 0x12);
    assert_eq!(cpu.c, 0x34);
    assert_eq!(cpu.pc, 3);
}
