use avr_core::decoder::Decoder;
use avr_core::instruction::{Instruction, PointerRegister};

#[test]
fn decode_zero_is_nop() {
    assert_eq!(Decoder::decode(0x0000), Instruction::Nop);
}

#[test]
fn decode_is_total_over_the_whole_domain() {
    // Every 16-bit value decodes to a defined variant with in-range fields.
    for raw in 0..=0xFFFFu16 {
        match Decoder::decode(raw) {
            Instruction::Nop => assert_eq!(raw, 0),
            Instruction::TwoRegOp { op, rd, rr } => {
                assert!(op < 64 && rd < 32 && rr < 32);
            }
            Instruction::RegConstOp { op, rd, constant: _ } => {
                assert!(op < 16 && rd < 16);
            }
            Instruction::OneRegOp { fields } => assert!(fields.is_none()),
            Instruction::TransferIndirect { reg, offset, .. } => {
                assert!(reg < 32 && offset < 64);
            }
            Instruction::PushPop { reg, .. } => assert!(reg < 32),
            Instruction::InOut { reg, address, .. } => assert!(reg < 32 && address < 64),
            Instruction::CallJmp { relative, address, .. } => {
                assert!(relative && address < 0x1000);
            }
            Instruction::Ret { .. } => panic!("this encoding never yields Ret"),
            Instruction::Branch { .. } => panic!("this encoding never yields Branch"),
            Instruction::Unsupported { instruction } => assert_eq!(instruction, raw),
        }
    }
}

#[test]
fn decode_two_reg_fields() {
    // 0x1234: op = raw >> 10 = 4, rd = bits 8:4 = 3, rr = bits 3:0 = 4
    // plus 16 because bit 9 is set.
    assert_eq!(
        Decoder::decode(0x1234),
        Instruction::TwoRegOp { op: 4, rd: 3, rr: 20 }
    );
    // Bit 9 clear keeps rr in the lower half.
    assert_eq!(
        Decoder::decode(0x0C12),
        Instruction::TwoRegOp { op: 3, rd: 1, rr: 2 }
    );
}

#[test]
fn decode_reg_const_fields() {
    // 0x5A3C: op = 5, rd = 3, constant = 0xA0 + 0x0C = 0xAC.
    assert_eq!(
        Decoder::decode(0x5A3C),
        Instruction::RegConstOp { op: 5, rd: 3, constant: 0xAC }
    );
    // 0xE055: load-immediate family, op = 0xE, rd = 5, constant = 0x05.
    assert_eq!(
        Decoder::decode(0xE055),
        Instruction::RegConstOp { op: 0xE, rd: 5, constant: 0x05 }
    );
}

#[test]
fn decode_transfer_indirect_fields() {
    // 0xA155: load (bit 9 clear), Z (bit 3 clear), reg = 21,
    // offset = 5 + 0 + 32 = 37.
    assert_eq!(
        Decoder::decode(0xA155),
        Instruction::TransferIndirect {
            is_load: true,
            base_reg: PointerRegister::Z,
            reg: 21,
            offset: 37
        }
    );
    // 0x8A3A: store (bit 9 set), Y (bit 3 set), reg = 3,
    // offset = 2 + 16 + 0 = 18.
    assert_eq!(
        Decoder::decode(0x8A3A),
        Instruction::TransferIndirect {
            is_load: false,
            base_reg: PointerRegister::Y,
            reg: 3,
            offset: 18
        }
    );
}

#[test]
fn decode_push_pop_fields() {
    // Low nibble 0xF with sub-field 000/001 selects push/pop.
    assert_eq!(
        Decoder::decode(0x900F),
        Instruction::PushPop { is_pop: true, reg: 0 }
    );
    assert_eq!(
        Decoder::decode(0x917F),
        Instruction::PushPop { is_pop: true, reg: 23 }
    );
    assert_eq!(
        Decoder::decode(0x920F),
        Instruction::PushPop { is_pop: false, reg: 0 }
    );
    assert_eq!(
        Decoder::decode(0x93FF),
        Instruction::PushPop { is_pop: false, reg: 31 }
    );
}

#[test]
fn decode_0x9010_falls_back_to_undecoded_marker() {
    // In the 0x9000 family with a low nibble other than 0xF the decoder
    // recognises a single-register instruction but extracts no fields.
    assert_eq!(Decoder::decode(0x9010), Instruction::OneRegOp { fields: None });
    // A sub-field above 001 gives the same marker whatever the low nibble.
    assert_eq!(Decoder::decode(0x940F), Instruction::OneRegOp { fields: None });
}

#[test]
fn decode_in_out_fields() {
    // 0xBEAF: out (bit 11 set), reg = 10, address = 0x30 + 0x0F = 0x3F.
    assert_eq!(
        Decoder::decode(0xBEAF),
        Instruction::InOut { is_in: false, reg: 10, address: 0x3F }
    );
    // 0xB0A5: in (bit 11 clear), reg = 10, address = 5.
    assert_eq!(
        Decoder::decode(0xB0A5),
        Instruction::InOut { is_in: true, reg: 10, address: 5 }
    );
}

#[test]
fn decode_call_jmp_fields() {
    assert_eq!(
        Decoder::decode(0xC123),
        Instruction::CallJmp { is_call: false, relative: true, address: 0x123 }
    );
    assert_eq!(
        Decoder::decode(0xD123),
        Instruction::CallJmp { is_call: true, relative: true, address: 0x123 }
    );
}

#[test]
fn decode_unsupported_keeps_the_raw_word() {
    // Opcodes 0x3000 and 0xF000 fall in no listed range.
    assert_eq!(
        Decoder::decode(0x3123),
        Instruction::Unsupported { instruction: 0x3123 }
    );
    assert_eq!(
        Decoder::decode(0xF00C),
        Instruction::Unsupported { instruction: 0xF00C }
    );
}
