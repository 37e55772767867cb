use emu8080::decode::{Cond, Decoded, EmuError, Op, Reg8, RegPair};
use emu8080::driver::disassemble_all;
use emu8080::render::{hex_string, render, trace_line};
use emu8080::state::init_cpu;

#[test]
fn hex_formatting_pads_and_extends() {
    assert_eq!(hex_string(0, 4), "0000");
    assert_eq!(hex_string(0x1a, 2), "1a");
    assert_eq!(hex_string(0x1a, 4), "001a");
    assert_eq!(hex_string(0xbeef, 4), "beef");
    assert_eq!(hex_string(0x12345, 4), "12345"); // wider than the pad
    assert_eq!(hex_string(7, 1), "7");
    assert_eq!(hex_string(7, 0), "7");
}

#[test]
fn disassemble_nop_then_jump() {
    // A NOP at 0000, then an unconditional jump to 0x0200 at 0001,
    // consuming the remaining three bytes exactly.
    let buf = vec![0x00u8, 0xc3, 0x00, 0x02];
    let lines = disassemble_all(&buf).unwrap();
    assert_eq!(lines.len(), 2);
    assert_eq!(lines[0], "0000: \tNOP");
    assert_eq!(lines[1], "0001: \tJMP \t$0200");
}

#[test]
fn disassembly_aborts_on_unknown_opcode() {
    let buf = vec![0x00u8, 0x00, 0xff];
    let e = disassemble_all(&buf).unwrap_err();
    assert_eq!(e, EmuError::UnknownOpcode { opcode: 0xff, offset: 2 });
}

#[test]
fn disassembly_aborts_on_truncation() {
    let buf = vec![0x00u8, 0x3a, 0x10];
    let e = disassemble_all(&buf).unwrap_err();
    assert_eq!(e, EmuError::TruncatedInstruction { offset: 1, needed: 3, available: 2 });
}

#[test]
fn render_immediates_and_pairs() {
    let mvi_b = Decoded { opcode: 0x06, op: Op::MoveImm { dst: Reg8::B, val: 0x7f }, size: 2 };
    assert_eq!(render(&mvi_b, 5), "0005: \tMVI \tB, #$7f");
    let lxi_b = Decoded {
        opcode: 0x01,
        op: Op::LoadPairImm { pair: RegPair::Bc, lo: 0x34, hi: 0x12 },
        size: 3,
    };
    assert_eq!(render(&lxi_b, 0), "0000: \tLXI \tB, #$1234");
    let lxi_sp = Decoded {
        opcode: 0x31,
        op: Op::LoadPairImm { pair: RegPair::Sp, lo: 0x00, hi: 0x24 },
        size: 3,
    };
    assert_eq!(render(&lxi_sp, 0), "0000: \tLXI \tSP, $2400");
    let mvi_h = Decoded { opcode: 0x26, op: Op::MoveImm { dst: Reg8::H, val: 0x12 }, size: 2 };
    assert_eq!(render(&mvi_h, 0), "0000: \tMVI \tH #$12");
}

#[test]
fn render_moves_arithmetic_and_stack() {
    let mov = Decoded { opcode: 0x7e, op: Op::Move { dst: Reg8::A, src: Reg8::M }, size: 1 };
    assert_eq!(render(&mov, 0x10), "0010: \tMOV \tA, M");
    let dcr = Decoded { opcode: 0x05, op: Op::Decrement { target: Reg8::B }, size: 1 };
    assert_eq!(render(&dcr, 0), "0000: \tDCR \tB");
    let dad_h = Decoded { opcode: 0x29, op: Op::DoubleAdd { pair: RegPair::Hl }, size: 1 };
    assert_eq!(render(&dad_h, 0), "0000: \tDAD \tH ");
    let push = Decoded { opcode: 0xd5, op: Op::Push { pair: RegPair::De }, size: 1 };
    assert_eq!(render(&push, 0), "0000: \tPUSH \tD");
    let pop = Decoded { opcode: 0xc1, op: Op::Pop { pair: RegPair::Bc }, size: 1 };
    assert_eq!(render(&pop, 0), "0000: \tPOP \tB ");
    let cpi = Decoded { opcode: 0xfe, op: Op::CompareImm { val: 0x0a }, size: 2 };
    assert_eq!(render(&cpi, 0), "0000: \tCPI \t#$0a");
}

#[test]
fn render_branches_and_stubs() {
    let jz = Decoded {
        opcode: 0xca,
        op: Op::JumpIf { cond: Cond::Zero, lo: 0xcd, hi: 0xab },
        size: 3,
    };
    assert_eq!(render(&jz, 0), "0000: \tJZ \t\t$abcd");
    let call = Decoded { opcode: 0xcd, op: Op::Call { lo: 0x00, hi: 0x02 }, size: 3 };
    assert_eq!(render(&call, 0), "0000: \tCALL \t$0200");
    let ret = Decoded { opcode: 0xc9, op: Op::Ret, size: 1 };
    assert_eq!(render(&ret, 0), "0000: \tRET ");
    let inp = Decoded { opcode: 0xdb, op: Op::InPort { port: 0x01 }, size: 2 };
    assert_eq!(render(&inp, 0), "0000: \tIN \t\t#$01");
    let outp = Decoded { opcode: 0xd3, op: Op::OutPort { port: 0x02 }, size: 2 };
    assert_eq!(render(&outp, 0), "0000: \tOUT \t#$02");
    let ei = Decoded { opcode: 0xfb, op: Op::EnableInterrupts, size: 1 };
    assert_eq!(render(&ei, 0), "0000: \tEI ");
}

#[test]
fn render_covers_unexecuted_catalogue_entries() {
    // Disassembly coverage is broader than execution coverage.
    let shld = Decoded { opcode: 0x22, op: Op::StoreHlDirect { lo: 0x34, hi: 0x12 }, size: 3 };
    assert_eq!(render(&shld, 0), "0000: \tSHLD \t$1234");
    let daa = Decoded { opcode: 0x27, op: Op::DecimalAdjust, size: 1 };
    assert_eq!(render(&daa, 0), "0000: \tDAA ");
    let rlc = Decoded { opcode: 0x07, op: Op::RotateLeftCarry, size: 1 };
    assert_eq!(render(&rlc, 0), "0000: \tRLC");
    let dcx_b = Decoded { opcode: 0xb0, op: Op::DecrementPair { pair: RegPair::Bc }, size: 1 };
    assert_eq!(render(&dcx_b, 0), "0000: \tDCX \tB");
    let rnc = Decoded { opcode: 0xd0, op: Op::RetIf { cond: Cond::NotCarry }, size: 1 };
    assert_eq!(render(&rnc, 0), "0000: \tRNC \tD");
    let psw = Decoded { opcode: 0xf1, op: Op::PopPsw, size: 1 };
    assert_eq!(render(&psw, 0), "0000: \tPOP \tPSW ");
    let xthl = Decoded { opcode: 0xe3, op: Op::ExchangeStackTop, size: 1 };
    assert_eq!(render(&xthl, 0), "0000: \tXTHL ");
    let wide = Decoded { opcode: 0x2e, op: Op::MoveImmWide { lo: 0x02, hi: 0x01 }, size: 3 };
    assert_eq!(render(&wide, 0), "0000: \tMVI \t$0102");
}

#[test]
fn trace_line_prints_flags_and_registers() {
    let mut cpu = init_cpu();
    assert_eq!(
        trace_line(&cpu),
        "z:false s:false p:false cy:false ac:false\nA:00 B:00 C:00 D:00 E:00 H:00 L:00 SP:0000 PC:0000"
    );
    cpu.a = 0xab;
    cpu.sp = 0x2400;
    cpu.cc.z = true;
    assert_eq!(
        trace_line(&cpu),
        "z:true s:false p:false cy:false ac:false\nA:ab B:00 C:00 D:00 E:00 H:00 L:00 SP:2400 PC:0000"
    );
}
