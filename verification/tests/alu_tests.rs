use avr_core::alu::Alu;
use avr_core::instruction::{ControlSignal, Instruction, OneRegFields, PointerRegister};
use avr_core::memory_bank::MemoryBank;
use avr_core::register_bank::RegisterBank;

fn fresh(mem_size: usize) -> (RegisterBank, MemoryBank) {
    (RegisterBank::new(), MemoryBank::new(mem_size))
}

#[test]
fn add_without_carry_wraps_and_sets_carry_and_zero() {
    let (mut rb, mut mb) = fresh(256);
    rb.registers[2] = 0xFF;
    rb.registers[3] = 0x01;
    let instr = Instruction::TwoRegOp { op: 0x3, rd: 2, rr: 3 };
    let signal = Alu::execute(&instr, 0, &mut rb, &mut mb);
    assert_eq!(signal, ControlSignal::Proceed);
    assert_eq!(rb.registers[2], 0x00);
    assert!(rb.flags.carry);
    assert!(rb.flags.zero);
    assert!(!rb.flags.negative);
    assert!(!rb.flags.overflow);
    assert!(rb.flags.half_carry);
}

#[test]
fn add_signed_overflow() {
    // 0x7F + 0x01 = 0x80: no carry, negative, signed overflow.
    let (mut rb, _) = fresh(64);
    rb.registers[0] = 0x7F;
    rb.registers[1] = 0x01;
    Alu::add(0, 1, &mut rb, 0);
    assert_eq!(rb.registers[0], 0x80);
    assert!(!rb.flags.carry);
    assert!(!rb.flags.zero);
    assert!(rb.flags.negative);
    assert!(rb.flags.overflow);
    assert!(rb.flags.half_carry);
}

#[test]
fn add_with_carry_in_consumes_the_flag() {
    let (mut rb, mut mb) = fresh(64);
    rb.registers[4] = 0x10;
    rb.registers[5] = 0x20;
    rb.flags.carry = true;
    let instr = Instruction::TwoRegOp { op: 0x7, rd: 4, rr: 5 };
    Alu::execute(&instr, 0, &mut rb, &mut mb);
    assert_eq!(rb.registers[4], 0x31);
    assert!(!rb.flags.carry);
}

#[test]
fn subtract_sets_borrow_and_negative() {
    // 0x10 - 0x20 = 0xF0 with a borrow.
    let (mut rb, _) = fresh(64);
    rb.registers[6] = 0x10;
    rb.registers[7] = 0x20;
    Alu::substract(6, 7, &mut rb, 0);
    assert_eq!(rb.registers[6], 0xF0);
    assert!(rb.flags.carry);
    assert!(!rb.flags.zero);
    assert!(rb.flags.negative);
    assert!(!rb.flags.overflow);
}

#[test]
fn subtract_signed_overflow() {
    // 0x80 - 0x01 = 0x7F: operand signs differ and the result carries the
    // sign of the value removed, so signed overflow is set.
    let (mut rb, _) = fresh(64);
    rb.registers[0] = 0x80;
    rb.registers[1] = 0x01;
    Alu::substract(0, 1, &mut rb, 0);
    assert_eq!(rb.registers[0], 0x7F);
    assert!(rb.flags.overflow);
    assert!(!rb.flags.carry);
    assert!(!rb.flags.negative);
    assert!(rb.flags.half_carry); // borrow out of the low nibble
}

#[test]
fn subtract_with_borrow_in_through_execute() {
    let (mut rb, mut mb) = fresh(64);
    rb.registers[2] = 0x10;
    rb.registers[3] = 0x08;
    rb.flags.carry = true;
    // Subcode 0x2 is subtract-with-borrow-in.
    let instr = Instruction::TwoRegOp { op: 0x2, rd: 2, rr: 3 };
    Alu::execute(&instr, 0, &mut rb, &mut mb);
    assert_eq!(rb.registers[2], 0x07);

    // Subcode 0x1 is compare-with-borrow-in: flags only.
    rb.registers[4] = 0x05;
    rb.registers[5] = 0x04;
    rb.flags.carry = true;
    let instr = Instruction::TwoRegOp { op: 0x1, rd: 4, rr: 5 };
    Alu::execute(&instr, 0, &mut rb, &mut mb);
    assert_eq!(rb.registers[4], 0x05);
    assert!(rb.flags.zero); // 5 - 4 - 1 == 0
}

#[test]
fn compare_writes_flags_but_no_register() {
    let (mut rb, mut mb) = fresh(64);
    rb.registers[1] = 7;
    rb.registers[2] = 7;
    let instr = Instruction::TwoRegOp { op: 0x5, rd: 1, rr: 2 };
    Alu::execute(&instr, 0, &mut rb, &mut mb);
    assert_eq!(rb.registers[1], 7);
    assert_eq!(rb.registers[2], 7);
    assert!(rb.flags.zero);
    assert!(!rb.flags.carry);
}

#[test]
fn compare_skip_signals_skip_only_on_equality() {
    let (mut rb, mut mb) = fresh(64);
    rb.registers[1] = 5;
    rb.registers[2] = 5;
    let instr = Instruction::TwoRegOp { op: 0x4, rd: 1, rr: 2 };
    assert_eq!(Alu::execute(&instr, 0, &mut rb, &mut mb), ControlSignal::Skip);
    rb.registers[2] = 6;
    assert_eq!(Alu::execute(&instr, 0, &mut rb, &mut mb), ControlSignal::Proceed);
}

#[test]
fn logic_ops_update_zero_negative_and_clear_overflow() {
    let (mut rb, _) = fresh(64);
    rb.registers[0] = 0xF0;
    rb.registers[1] = 0x0F;
    rb.flags.carry = true;
    rb.flags.overflow = true;
    Alu::and(0, 1, &mut rb);
    assert_eq!(rb.registers[0], 0x00);
    assert!(rb.flags.zero);
    assert!(!rb.flags.negative);
    assert!(!rb.flags.overflow);
    assert!(rb.flags.carry); // carry unaffected by logic ops

    rb.registers[2] = 0xF0;
    rb.registers[3] = 0x0F;
    Alu::or(2, 3, &mut rb);
    assert_eq!(rb.registers[2], 0xFF);
    assert!(rb.flags.negative);

    rb.registers[4] = 0xAA;
    rb.registers[5] = 0xFF;
    Alu::eor(4, 5, &mut rb);
    assert_eq!(rb.registers[4], 0x55);
    assert!(!rb.flags.negative);
}

#[test]
fn every_move_subcode_copies_the_register() {
    // The whole subcode range 0xB..=0xF is the register move.
    for op in 0xB..=0xFu16 {
        let (mut rb, mut mb) = fresh(64);
        rb.registers[9] = 0x5A;
        let instr = Instruction::TwoRegOp { op, rd: 8, rr: 9 };
        Alu::execute(&instr, 0, &mut rb, &mut mb);
        assert_eq!(rb.registers[8], 0x5A);
        assert!(!rb.flags.zero); // mov leaves flags alone
    }
}

#[test]
fn immediate_family_addresses_upper_registers() {
    let (mut rb, mut mb) = fresh(64);
    // ldi r21 <- 0x42 is RegConstOp op 0xE with rd = 5.
    let instr = Instruction::RegConstOp { op: 0xE, rd: 5, constant: 0x42 };
    Alu::execute(&instr, 0, &mut rb, &mut mb);
    assert_eq!(rb.registers[21], 0x42);

    // subi r21, 0x02
    let instr = Instruction::RegConstOp { op: 0x5, rd: 5, constant: 0x02 };
    Alu::execute(&instr, 0, &mut rb, &mut mb);
    assert_eq!(rb.registers[21], 0x40);
    assert!(!rb.flags.carry);

    // cpi r21, 0x40 sets zero, writes nothing.
    let instr = Instruction::RegConstOp { op: 0x3, rd: 5, constant: 0x40 };
    Alu::execute(&instr, 0, &mut rb, &mut mb);
    assert_eq!(rb.registers[21], 0x40);
    assert!(rb.flags.zero);

    // ori r21, 0x0F then andi r21, 0xF0
    let instr = Instruction::RegConstOp { op: 0x6, rd: 5, constant: 0x0F };
    Alu::execute(&instr, 0, &mut rb, &mut mb);
    assert_eq!(rb.registers[21], 0x4F);
    let instr = Instruction::RegConstOp { op: 0x7, rd: 5, constant: 0xF0 };
    Alu::execute(&instr, 0, &mut rb, &mut mb);
    assert_eq!(rb.registers[21], 0x40);
}

#[test]
fn sbci_consumes_the_borrow_flag() {
    let (mut rb, _) = fresh(64);
    rb.registers[20] = 0x10;
    rb.flags.carry = true;
    Alu::sbci(20, 0x01, &mut rb);
    assert_eq!(rb.registers[20], 0x0E);
    assert!(!rb.flags.carry);
}

#[test]
fn adiw_carries_into_the_high_byte_and_wraps() {
    let (mut rb, _) = fresh(64);
    // Pair r24:r25 = 0x00FF; + 2 = 0x0101.
    rb.registers[24] = 0xFF;
    rb.registers[25] = 0x00;
    Alu::adiw(24, 2, &mut rb);
    assert_eq!(rb.registers[24], 0x01);
    assert_eq!(rb.registers[25], 0x01);
    assert!(!rb.flags.carry);
    assert!(!rb.flags.zero);

    // 0xFFFF + 1 wraps to 0 with carry and zero.
    rb.registers[24] = 0xFF;
    rb.registers[25] = 0xFF;
    Alu::adiw(24, 1, &mut rb);
    assert_eq!(rb.registers[24], 0x00);
    assert_eq!(rb.registers[25], 0x00);
    assert!(rb.flags.carry);
    assert!(rb.flags.zero);
}

#[test]
fn adiw_signed_overflow_at_the_sign_boundary() {
    let (mut rb, _) = fresh(64);
    // Pair value 0x7FFF + 1 = 0x8000: a sign appears, so overflow and
    // negative are set without a carry.
    rb.registers[28] = 0xFF;
    rb.registers[29] = 0x7F;
    Alu::adiw(28, 1, &mut rb);
    assert_eq!(rb.registers[28], 0x00);
    assert_eq!(rb.registers[29], 0x80);
    assert!(rb.flags.overflow);
    assert!(rb.flags.negative);
    assert!(!rb.flags.carry);
}

#[test]
fn sbiw_borrows_from_the_high_byte() {
    let (mut rb, _) = fresh(64);
    // Pair r26:r27 = 0x0100; - 1 = 0x00FF.
    rb.registers[26] = 0x00;
    rb.registers[27] = 0x01;
    Alu::sbiw(26, 1, &mut rb);
    assert_eq!(rb.registers[26], 0xFF);
    assert_eq!(rb.registers[27], 0x00);
    assert!(!rb.flags.carry);

    // 0 - 1 wraps to 0xFFFF with a borrow.
    rb.registers[26] = 0x00;
    rb.registers[27] = 0x00;
    Alu::sbiw(26, 1, &mut rb);
    assert_eq!(rb.registers[26], 0xFF);
    assert_eq!(rb.registers[27], 0xFF);
    assert!(rb.flags.carry);
    assert!(rb.flags.negative);
}

#[test]
fn one_reg_family_results_and_flags() {
    let (mut rb, _) = fresh(64);
    rb.registers[1] = 0x55;
    Alu::com(1, &mut rb);
    assert_eq!(rb.registers[1], 0xAA);
    assert!(rb.flags.negative);

    rb.registers[2] = 0x01;
    Alu::neg(2, &mut rb);
    assert_eq!(rb.registers[2], 0xFF);
    assert!(!rb.flags.overflow);
    rb.registers[3] = 0x80;
    Alu::neg(3, &mut rb);
    assert_eq!(rb.registers[3], 0x80);
    assert!(rb.flags.overflow); // the signed-extreme input

    rb.registers[4] = 0xA5;
    Alu::swap(4, &mut rb);
    assert_eq!(rb.registers[4], 0x5A);

    rb.registers[5] = 0x7F;
    Alu::inc(5, &mut rb);
    assert_eq!(rb.registers[5], 0x80);
    assert!(rb.flags.overflow); // the signed-extreme input
    rb.registers[5] = 0xFF;
    Alu::inc(5, &mut rb);
    assert_eq!(rb.registers[5], 0x00);
    assert!(rb.flags.zero);

    rb.registers[6] = 0x81;
    Alu::asr(6, &mut rb);
    assert_eq!(rb.registers[6], 0xC0); // sign kept
    assert!(rb.flags.carry); // bit shifted out

    rb.registers[7] = 0x81;
    Alu::lsr(7, &mut rb);
    assert_eq!(rb.registers[7], 0x40);
    assert!(rb.flags.carry);

    rb.registers[8] = 0x02;
    rb.flags.carry = true;
    Alu::ror(8, &mut rb);
    assert_eq!(rb.registers[8], 0x81); // old carry enters from the left
    assert!(!rb.flags.carry); // bit 0 was clear
}

#[test]
fn one_reg_dispatch_through_execute() {
    let (mut rb, mut mb) = fresh(64);
    rb.registers[9] = 0x0F;
    let instr = Instruction::OneRegOp {
        fields: Some(OneRegFields { op: 0x0, rd: 9 }),
    };
    Alu::execute(&instr, 0, &mut rb, &mut mb);
    assert_eq!(rb.registers[9], 0xF0);
}

#[test]
fn in_out_round_trip_touches_the_mapped_cell() {
    let (mut rb, mut mb) = fresh(256);
    rb.registers[5] = 0x77;
    let out = Instruction::InOut { is_in: false, reg: 5, address: 0x10 };
    Alu::execute(&out, 0, &mut rb, &mut mb);
    // The physical cell touched is the address plus the 0x20 window.
    assert_eq!(mb.data[0x30], 0x77);

    let into = Instruction::InOut { is_in: true, reg: 6, address: 0x10 };
    Alu::execute(&into, 0, &mut rb, &mut mb);
    assert_eq!(rb.registers[6], 0x77);
}

#[test]
fn push_pop_moves_the_stack_pointer() {
    let (mut rb, mut mb) = fresh(256);
    rb.stack_pointer = 10;
    rb.registers[5] = 0x42;
    mb.data[10] = 0x99;
    let push = Instruction::PushPop { is_pop: false, reg: 5 };
    Alu::execute(&push, 0, &mut rb, &mut mb);
    // Push moves down one byte and writes the cell it then names.
    assert_eq!(rb.stack_pointer, 9);
    assert_eq!(mb.data[9], 0x42);

    let pop = Instruction::PushPop { is_pop: true, reg: 5 };
    Alu::execute(&pop, 0, &mut rb, &mut mb);
    // Pop moves back up and rereads the cell at the original pointer.
    assert_eq!(rb.stack_pointer, 10);
    assert_eq!(rb.registers[5], 0x99);
}

#[test]
fn push_at_zero_wraps_to_the_top_of_memory() {
    let (mut rb, mut mb) = fresh(128);
    rb.stack_pointer = 0;
    rb.registers[7] = 0xAB;
    let push = Instruction::PushPop { is_pop: false, reg: 7 };
    Alu::execute(&push, 0, &mut rb, &mut mb);
    assert_eq!(rb.stack_pointer, 127);
    assert_eq!(mb.data[127], 0xAB);
}

#[test]
fn transfer_indirect_store_then_load_round_trip() {
    let (mut rb, mut mb) = fresh(512);
    // Y pair (r28:r29) = 0x0100; offset 4 -> address 0x0104.
    rb.registers[28] = 0x00;
    rb.registers[29] = 0x01;
    rb.registers[3] = 0x5C;
    let store = Instruction::TransferIndirect {
        is_load: false,
        base_reg: PointerRegister::Y,
        reg: 3,
        offset: 4,
    };
    Alu::execute(&store, 0, &mut rb, &mut mb);
    assert_eq!(mb.data[0x104], 0x5C);

    rb.registers[3] = 0x00;
    let load = Instruction::TransferIndirect {
        is_load: true,
        base_reg: PointerRegister::Y,
        reg: 3,
        offset: 4,
    };
    Alu::execute(&load, 0, &mut rb, &mut mb);
    assert_eq!(rb.registers[3], 0x5C);
}

#[test]
fn transfer_indirect_address_wraps_modulo_64k() {
    let (mut rb, mut mb) = fresh(256);
    // Z pair (r30:r31) = 0xFFFF; offset 3 wraps to address 0x0002.
    rb.registers[30] = 0xFF;
    rb.registers[31] = 0xFF;
    rb.registers[2] = 0x33;
    Alu::transfer_indirect(false, PointerRegister::Z, 2, 3, &mut rb, &mut mb);
    assert_eq!(mb.data[2], 0x33);
}

#[test]
fn call_pushes_the_return_address_and_signals_the_target() {
    let (mut rb, mut mb) = fresh(256);
    rb.stack_pointer = 100;
    let call = Instruction::CallJmp { is_call: true, relative: true, address: 0x123 };
    let signal = Alu::execute(&call, 0x0456, &mut rb, &mut mb);
    assert_eq!(signal, ControlSignal::Jump { relative: true, address: 0x123 });
    assert_eq!(rb.stack_pointer, 98);
    assert_eq!(mb.data[99], 0x04); // high byte pushed first
    assert_eq!(mb.data[98], 0x56);
}

#[test]
fn jump_pushes_nothing() {
    let (mut rb, mut mb) = fresh(256);
    rb.stack_pointer = 100;
    let jmp = Instruction::CallJmp { is_call: false, relative: true, address: 0x7FF };
    let signal = Alu::execute(&jmp, 0x0456, &mut rb, &mut mb);
    assert_eq!(signal, ControlSignal::Jump { relative: true, address: 0x7FF });
    assert_eq!(rb.stack_pointer, 100);
}

#[test]
fn ret_pops_the_address_and_reti_restores_interrupts() {
    let (mut rb, mut mb) = fresh(256);
    rb.stack_pointer = 97;
    mb.data[98] = 0x56; // low byte popped first
    mb.data[99] = 0x04;
    let ret = Instruction::Ret { is_interrupt: false };
    let signal = Alu::execute(&ret, 0, &mut rb, &mut mb);
    assert_eq!(signal, ControlSignal::Return { address: 0x0456 });
    assert_eq!(rb.stack_pointer, 99);
    assert!(!rb.flags.interrupt);

    rb.stack_pointer = 97;
    let reti = Instruction::Ret { is_interrupt: true };
    Alu::execute(&reti, 0, &mut rb, &mut mb);
    assert!(rb.flags.interrupt);
}

#[test]
fn branch_reports_the_decision_and_offset() {
    let (mut rb, mut mb) = fresh(64);
    rb.flags.zero = true;
    // Branch-if-set on the zero flag (subcode 1) is taken.
    let brbs = Instruction::Branch { op: 1, test_set: true, offset: -3 };
    assert_eq!(
        Alu::execute(&brbs, 0, &mut rb, &mut mb),
        ControlSignal::Branch { taken: true, offset: -3 }
    );
    // Branch-if-clear on the same flag is not.
    let brbc = Instruction::Branch { op: 1, test_set: false, offset: 7 };
    assert_eq!(
        Alu::execute(&brbc, 0, &mut rb, &mut mb),
        ControlSignal::Branch { taken: false, offset: 7 }
    );
    // A subcode naming no flag of this core is never taken.
    let unknown = Instruction::Branch { op: 4, test_set: false, offset: 2 };
    assert_eq!(
        Alu::execute(&unknown, 0, &mut rb, &mut mb),
        ControlSignal::Branch { taken: false, offset: 2 }
    );
}

#[test]
fn unsupported_and_undecoded_change_nothing() {
    let (mut rb, mut mb) = fresh(128);
    rb.registers[3] = 9;
    rb.stack_pointer = 17;
    rb.flags.carry = true;
    mb.data[5] = 0xEE;
    let regs_before = rb.registers.clone();
    let flags_before = rb.flags;
    let mem_before = mb.data.clone();

    let unsupported = Instruction::Unsupported { instruction: 0x3123 };
    assert_eq!(
        Alu::execute(&unsupported, 0, &mut rb, &mut mb),
        ControlSignal::Proceed
    );
    assert_eq!(rb.registers, regs_before);
    assert_eq!(rb.stack_pointer, 17);
    assert_eq!(rb.flags, flags_before);
    assert_eq!(mb.data, mem_before);

    let marker = Instruction::OneRegOp { fields: None };
    assert_eq!(Alu::execute(&marker, 0, &mut rb, &mut mb), ControlSignal::Proceed);
    assert_eq!(rb.registers, regs_before);
    assert_eq!(rb.stack_pointer, 17);
    assert_eq!(rb.flags, flags_before);
    assert_eq!(mb.data, mem_before);
}

#[test]
fn nop_does_nothing_and_proceeds() {
    let (mut rb, mut mb) = fresh(64);
    let regs_before = rb.registers.clone();
    assert_eq!(
        Alu::execute(&Instruction::Nop, 0, &mut rb, &mut mb),
        ControlSignal::Proceed
    );
    assert_eq!(rb.registers, regs_before);
}

#[test]
fn load_immediate_writes_without_flags() {
    let (mut rb, _) = fresh(64);
    rb.flags.zero = true;
    Alu::load_immediate(17, 0x00, &mut rb);
    assert_eq!(rb.registers[17], 0x00);
    assert!(rb.flags.zero); // untouched even for a zero value
}
