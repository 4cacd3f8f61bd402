use avr_core::decoder::Decoder;
use avr_core::instruction::{Instruction, OneRegFields, PointerRegister};

#[test]
fn render_nop() {
    assert_eq!(Instruction::Nop.disassemble(), "nop");
}

#[test]
fn render_two_reg_op() {
    let i = Instruction::TwoRegOp { op: 4, rd: 3, rr: 20 };
    assert_eq!(
        i.disassemble(),
        "Two register operation -> op: 4 rd: 3, rr:20"
    );
}

#[test]
fn render_reg_const_op() {
    let i = Instruction::RegConstOp { op: 5, rd: 3, constant: 172 };
    assert_eq!(
        i.disassemble(),
        "Operation against constant -> op: 5 rd: 3, constant:172"
    );
}

#[test]
fn render_push_pop() {
    assert_eq!(
        Instruction::PushPop { is_pop: true, reg: 5 }.disassemble(),
        "pop r5"
    );
    assert_eq!(
        Instruction::PushPop { is_pop: false, reg: 31 }.disassemble(),
        "push r31"
    );
}

#[test]
fn render_transfer_indirect() {
    let i = Instruction::TransferIndirect {
        is_load: true,
        base_reg: PointerRegister::Z,
        reg: 21,
        offset: 37,
    };
    assert_eq!(i.disassemble(), "ldd Z+37, r21");
    let i = Instruction::TransferIndirect {
        is_load: false,
        base_reg: PointerRegister::Y,
        reg: 3,
        offset: 18,
    };
    assert_eq!(i.disassemble(), "std Y+18, r3");
}

#[test]
fn render_call_jmp() {
    let i = Instruction::CallJmp { is_call: true, relative: true, address: 291 };
    assert_eq!(i.disassemble(), "rcall, $291");
    let i = Instruction::CallJmp { is_call: false, relative: true, address: 291 };
    assert_eq!(i.disassemble(), "rjmp, $291");
    let i = Instruction::CallJmp { is_call: false, relative: false, address: 4095 };
    assert_eq!(i.disassemble(), "jmp, $4095");
}

#[test]
fn render_in_out_uses_hex_addresses() {
    let i = Instruction::InOut { is_in: false, reg: 26, address: 0x3F };
    assert_eq!(i.disassemble(), "out r26 $3f");
    let i = Instruction::InOut { is_in: true, reg: 10, address: 5 };
    assert_eq!(i.disassemble(), "in r10 $5");
}

#[test]
fn render_one_reg_op() {
    assert_eq!(
        Instruction::OneRegOp { fields: None }.disassemble(),
        "Parsed but unsupported instruction"
    );
    let i = Instruction::OneRegOp { fields: Some(OneRegFields { op: 3, rd: 17 }) };
    assert_eq!(i.disassemble(), "One register operation -> op: 3 rd: 17");
}

#[test]
fn render_ret_and_reti() {
    assert_eq!(Instruction::Ret { is_interrupt: false }.disassemble(), "ret");
    assert_eq!(Instruction::Ret { is_interrupt: true }.disassemble(), "reti");
}

#[test]
fn render_branch_with_signed_offset() {
    let i = Instruction::Branch { op: 1, test_set: true, offset: -5 };
    assert_eq!(i.disassemble(), "brbs 1, -5");
    let i = Instruction::Branch { op: 0, test_set: false, offset: 127 };
    assert_eq!(i.disassemble(), "brbc 0, 127");
    let i = Instruction::Branch { op: 2, test_set: true, offset: -128 };
    assert_eq!(i.disassemble(), "brbs 2, -128");
}

#[test]
fn render_unsupported_in_hex() {
    let i = Instruction::Unsupported { instruction: 0x3F2A };
    assert_eq!(i.disassemble(), "Unsupported instruction: 3f2a");
    let i = Instruction::Unsupported { instruction: 0xF000 };
    assert_eq!(i.disassemble(), "Unsupported instruction: f000");
}

#[test]
fn render_decoded_word() {
    assert_eq!(Decoder::decode(0x900F).disassemble(), "pop r0");
    assert_eq!(Decoder::decode(0xD123).disassemble(), "rcall, $291");
}
