use emu8080::decode::{decode, encoded_size, Cond, Decoded, EmuError, Op, Reg8, RegPair};

#[test]
fn decode_nop() {
    let buf = vec![0x00u8];
    let d = decode(&buf, 0).unwrap();
    assert_eq!(d, Decoded { opcode: 0x00, op: Op::Nop, size: 1 });
}

#[test]
fn decode_one_operand_byte() {
    let buf = vec![0x06u8, 0x7f];
    let d = decode(&buf, 0).unwrap();
    assert_eq!(d, Decoded { opcode: 0x06, op: Op::MoveImm { dst: Reg8::B, val: 0x7f }, size: 2 });
}

#[test]
fn decode_two_operand_bytes() {
    // The stream holds the low byte first.
    let buf = vec![0x01u8, 0x34, 0x12];
    let d = decode(&buf, 0).unwrap();
    assert_eq!(
        d,
        Decoded {
            opcode: 0x01,
            op: Op::LoadPairImm { pair: RegPair::Bc, lo: 0x34, hi: 0x12 },
            size: 3,
        }
    );
}

#[test]
fn decode_at_offset_reports_that_offset() {
    let buf = vec![0x00u8, 0xc2, 0x10, 0x20];
    let d = decode(&buf, 1).unwrap();
    assert_eq!(
        d,
        Decoded {
            opcode: 0xc2,
            op: Op::JumpIf { cond: Cond::NotZero, lo: 0x10, hi: 0x20 },
            size: 3,
        }
    );
}

#[test]
fn unknown_opcode_carries_byte_and_offset() {
    // 0xff is outside the catalogue.
    let buf = vec![0x00u8, 0xff];
    let e = decode(&buf, 1).unwrap_err();
    assert_eq!(e, EmuError::UnknownOpcode { opcode: 0xff, offset: 1 });
}

#[test]
fn truncated_instruction_reports_needed_and_available() {
    // A jump needs three bytes; only one remains.
    let buf = vec![0xc3u8];
    let e = decode(&buf, 0).unwrap_err();
    assert_eq!(e, EmuError::TruncatedInstruction { offset: 0, needed: 3, available: 1 });

    // Two bytes present, still one short.
    let buf2 = vec![0xcdu8, 0x00];
    let e2 = decode(&buf2, 0).unwrap_err();
    assert_eq!(e2, EmuError::TruncatedInstruction { offset: 0, needed: 3, available: 2 });
}

#[test]
fn encoded_sizes_per_category() {
    assert_eq!(encoded_size(Op::Nop), 1);
    assert_eq!(encoded_size(Op::MoveImm { dst: Reg8::A, val: 0 }), 2);
    assert_eq!(encoded_size(Op::LoadPairImm { pair: RegPair::Sp, lo: 0, hi: 0 }), 3);
    assert_eq!(encoded_size(Op::Jump { lo: 0, hi: 0 }), 3);
    assert_eq!(encoded_size(Op::OutPort { port: 0 }), 2);
    assert_eq!(encoded_size(Op::Push { pair: RegPair::Hl }), 1);
    assert_eq!(encoded_size(Op::MoveImmWide { lo: 0, hi: 0 }), 3);
}

#[test]
fn decode_reports_size_from_category() {
    // Size agreement, concretely: the descriptor's size is the
    // category's encoded size, whatever the operand values.
    let buf = vec![0xfeu8, 0x00, 0xc9, 0x3a, 0x22, 0x11];
    let d0 = decode(&buf, 0).unwrap();
    assert_eq!(d0.size, encoded_size(d0.op));
    let d1 = decode(&buf, 2).unwrap();
    assert_eq!(d1.size, encoded_size(d1.op));
    let d2 = decode(&buf, 3).unwrap();
    assert_eq!(d2.size, encoded_size(d2.op));
    assert_eq!(d2.op, Op::LoadAccDirect { lo: 0x22, hi: 0x11 });
}
