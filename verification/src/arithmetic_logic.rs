//! Arithmetic and logic instructions: the two-register family, the
//! register-versus-immediate family, and the single-register family, with
//! the exact status-flag arithmetic each one performs.
//!
//! The spec functions state every 8-bit result and every flag as a direct
//! formula; the executable primitives are proved equal to them.

use vstd::prelude::*;
use crate::alu::Alu;
use crate::register_bank::{RegisterBank, StatusFlags};

verus! {

/// Sign bit of an 8-bit value.
pub open spec fn bit7(v: u8) -> bool {
    v >= 0x80
}

/// Sign bit of a 16-bit value.
pub open spec fn bit15(v: int) -> bool {
    v >= 0x8000
}

/// 8-bit wrapped sum `rd + rr + c` (with `c` a 0/1 carry-in).
pub open spec fn add_result(rd: u8, rr: u8, c: u8) -> u8 {
    ((rd + rr + c) % 256) as u8
}

/// Carry-out of the 8-bit addition: a ninth bit was produced.
pub open spec fn add_carry(rd: u8, rr: u8, c: u8) -> bool {
    rd + rr + c > 0xFF
}

/// Carry out of bit 3 into bit 4 of the addition.
pub open spec fn add_half(rd: u8, rr: u8, c: u8) -> bool {
    (rd & 0x0F) + (rr & 0x0F) + c > 0x0F
}

/// Signed overflow of the addition: both operands share a sign that the
/// result does not.
pub open spec fn add_overflow(rd: u8, rr: u8, c: u8) -> bool {
    bit7(rd) == bit7(rr) && bit7(add_result(rd, rr, c)) != bit7(rd)
}

/// The full flag outcome of an addition; the interrupt flag is untouched.
pub open spec fn add_flags(rd: u8, rr: u8, c: u8, f: StatusFlags) -> StatusFlags {
    StatusFlags {
        carry: add_carry(rd, rr, c),
        zero: add_result(rd, rr, c) == 0,
        negative: bit7(add_result(rd, rr, c)),
        overflow: add_overflow(rd, rr, c),
        half_carry: add_half(rd, rr, c),
        interrupt: f.interrupt,
    }
}

/// 8-bit wrapped difference `rd - rr - c` (with `c` a 0/1 borrow-in).
pub open spec fn sub_result(rd: u8, rr: u8, c: u8) -> u8 {
    ((rd + 256 - rr - c) % 256) as u8
}

/// Borrow-out of the 8-bit subtraction.
pub open spec fn sub_borrow(rd: u8, rr: u8, c: u8) -> bool {
    rd < rr + c
}

/// Borrow out of bit 3 into bit 4 of the subtraction.
pub open spec fn sub_half(rd: u8, rr: u8, c: u8) -> bool {
    (rd & 0x0F) < (rr & 0x0F) + c
}

/// Signed overflow of the subtraction, which treats `rr` as the value being
/// removed: the operands' signs differ and the result carries the sign of
/// `rr`.
pub open spec fn sub_overflow(rd: u8, rr: u8, c: u8) -> bool {
    bit7(rd) != bit7(rr) && bit7(sub_result(rd, rr, c)) == bit7(rr)
}

/// The full flag outcome of a subtraction or compare; the interrupt flag is
/// untouched.
pub open spec fn sub_flags(rd: u8, rr: u8, c: u8, f: StatusFlags) -> StatusFlags {
    StatusFlags {
        carry: sub_borrow(rd, rr, c),
        zero: sub_result(rd, rr, c) == 0,
        negative: bit7(sub_result(rd, rr, c)),
        overflow: sub_overflow(rd, rr, c),
        half_carry: sub_half(rd, rr, c),
        interrupt: f.interrupt,
    }
}

/// Flag outcome of the bitwise operations AND, XOR and OR: zero and
/// negative follow the result, overflow is cleared, carry and half-carry
/// are unaffected.
pub open spec fn logic_flags(result: u8, f: StatusFlags) -> StatusFlags {
    StatusFlags {
        carry: f.carry,
        zero: result == 0,
        negative: bit7(result),
        overflow: false,
        half_carry: f.half_carry,
        interrupt: f.interrupt,
    }
}

/// Flag outcome of a single-register operation that updates only zero and
/// negative.
pub open spec fn zn_flags(result: u8, f: StatusFlags) -> StatusFlags {
    StatusFlags {
        carry: f.carry,
        zero: result == 0,
        negative: bit7(result),
        overflow: f.overflow,
        half_carry: f.half_carry,
        interrupt: f.interrupt,
    }
}

/// Flag outcome of a single-register operation that also writes overflow.
pub open spec fn znv_flags(result: u8, overflow: bool, f: StatusFlags) -> StatusFlags {
    StatusFlags {
        carry: f.carry,
        zero: result == 0,
        negative: bit7(result),
        overflow,
        half_carry: f.half_carry,
        interrupt: f.interrupt,
    }
}

/// Flag outcome of a shift or rotate: carry takes the bit shifted out,
/// zero and negative follow the result.
pub open spec fn shift_flags(result: u8, bit_out: bool, f: StatusFlags) -> StatusFlags {
    StatusFlags {
        carry: bit_out,
        zero: result == 0,
        negative: bit7(result),
        overflow: f.overflow,
        half_carry: f.half_carry,
        interrupt: f.interrupt,
    }
}

/// The 16-bit value held by a register pair, low byte first.
pub open spec fn pair_value(lo: u8, hi: u8) -> int {
    lo + 256 * hi
}

/// 16-bit wrapped sum of a pair value and a constant.
pub open spec fn adiw_result(value: int, k: u8) -> int {
    (value + k) % 0x10000
}

/// 16-bit wrapped difference of a pair value and a constant.
pub open spec fn sbiw_result(value: int, k: u8) -> int {
    if value >= k {
        value - k
    } else {
        value + 0x10000 - k
    }
}

/// Flag outcome of the word-wide add-to-pointer: carry is the bit beyond
/// bit 15, overflow is a sign appearing out of a non-negative operand.
pub open spec fn adiw_flags(value: int, k: u8, f: StatusFlags) -> StatusFlags {
    StatusFlags {
        carry: value + k > 0xFFFF,
        zero: adiw_result(value, k) == 0,
        negative: bit15(adiw_result(value, k)),
        overflow: !bit15(value) && bit15(adiw_result(value, k)),
        half_carry: f.half_carry,
        interrupt: f.interrupt,
    }
}

/// Flag outcome of the word-wide subtract-from-pointer: carry is the
/// borrow, overflow is a sign vanishing from a negative operand.
pub open spec fn sbiw_flags(value: int, k: u8, f: StatusFlags) -> StatusFlags {
    StatusFlags {
        carry: value < k,
        zero: sbiw_result(value, k) == 0,
        negative: bit15(sbiw_result(value, k)),
        overflow: bit15(value) && !bit15(sbiw_result(value, k)),
        half_carry: f.half_carry,
        interrupt: f.interrupt,
    }
}

/// One's complement.
pub open spec fn com_result(v: u8) -> u8 {
    (0xFF - v) as u8
}

/// Two's-complement negation, wrapped to 8 bits.
pub open spec fn neg_result(v: u8) -> u8 {
    ((256 - v) % 256) as u8
}

/// The two nibbles exchanged.
pub open spec fn swap_result(v: u8) -> u8 {
    ((v % 16) * 16 + v / 16) as u8
}

/// Increment, wrapped to 8 bits.
pub open spec fn inc_result(v: u8) -> u8 {
    ((v + 1) % 256) as u8
}

/// Arithmetic shift right: the sign bit is kept.
pub open spec fn asr_result(v: u8) -> u8 {
    (v / 2 + if bit7(v) { 0x80int } else { 0int }) as u8
}

/// Logical shift right: a zero enters from the left.
pub open spec fn lsr_result(v: u8) -> u8 {
    v / 2
}

/// Rotate right through carry: the carry flag enters from the left.
pub open spec fn ror_result(v: u8, carry: bool) -> u8 {
    (v / 2 + if carry { 0x80int } else { 0int }) as u8
}

/// Effect of one two-register instruction on the registers and flags,
/// together with the compare-and-skip outcome.  The subcode is the raw
/// word shifted right by 10; the whole range 0xB..=0xF is the register
/// move, a deliberate many-to-one tie-break.  A subcode outside the family
/// leaves the state untouched, so the dispatcher is total.
pub open spec fn spec_arithmetic(op: u16, rd: u8, rr: u8, regs: Seq<u8>, flags: StatusFlags)
    -> (Seq<u8>, StatusFlags, bool) {
    let c = if flags.carry { 1u8 } else { 0u8 };
    let rdv = regs[rd as int];
    let rrv = regs[rr as int];
    if op == 0x1 {  // compare with borrow-in
        (regs, sub_flags(rdv, rrv, c, flags), false)
    } else if op == 0x2 {  // subtract with borrow-in
        (regs.update(rd as int, sub_result(rdv, rrv, c)), sub_flags(rdv, rrv, c, flags), false)
    } else if op == 0x3 {  // add without carry
        (regs.update(rd as int, add_result(rdv, rrv, 0)), add_flags(rdv, rrv, 0, flags), false)
    } else if op == 0x4 {  // compare and skip if equal
        (regs, flags, rdv == rrv)
    } else if op == 0x5 {  // compare without carry
        (regs, sub_flags(rdv, rrv, 0, flags), false)
    } else if op == 0x6 {  // subtract without borrow-in
        (regs.update(rd as int, sub_result(rdv, rrv, 0)), sub_flags(rdv, rrv, 0, flags), false)
    } else if op == 0x7 {  // add with carry-in
        (regs.update(rd as int, add_result(rdv, rrv, c)), add_flags(rdv, rrv, c, flags), false)
    } else if op == 0x8 {  // bitwise AND
        (regs.update(rd as int, rdv & rrv), logic_flags(rdv & rrv, flags), false)
    } else if op == 0x9 {  // bitwise XOR
        (regs.update(rd as int, rdv ^ rrv), logic_flags(rdv ^ rrv, flags), false)
    } else if op == 0xA {  // bitwise OR
        (regs.update(rd as int, rdv | rrv), logic_flags(rdv | rrv, flags), false)
    } else if 0xB <= op && op <= 0xF {  // register move
        (regs.update(rd as int, rrv), flags, false)
    } else {
        (regs, flags, false)
    }
}

/// Effect of one register-versus-immediate instruction.  Subcodes 0x3-0x7
/// and 0xE address register `rd + 16`; the word-wide pointer operations
/// 0x96 and 0x97 address the pair at `rd` directly.  An unknown subcode
/// leaves the state untouched.
pub open spec fn spec_arith_with_constant(op: u16, rd: u8, k: u8, regs: Seq<u8>,
    flags: StatusFlags) -> (Seq<u8>, StatusFlags) {
    let c = if flags.carry { 1u8 } else { 0u8 };
    let i = rd + 16;
    let v = regs[i as int];
    if op == 0x3 {  // compare immediate
        (regs, sub_flags(v, k, 0, flags))
    } else if op == 0x4 {  // subtract immediate with borrow-in
        (regs.update(i as int, sub_result(v, k, c)), sub_flags(v, k, c, flags))
    } else if op == 0x5 {  // subtract immediate
        (regs.update(i as int, sub_result(v, k, 0)), sub_flags(v, k, 0, flags))
    } else if op == 0x6 {  // OR immediate
        (regs.update(i as int, v | k), logic_flags(v | k, flags))
    } else if op == 0x7 {  // AND immediate
        (regs.update(i as int, v & k), logic_flags(v & k, flags))
    } else if op == 0xE {  // load immediate; a transfer, no flags
        (regs.update(i as int, k), flags)
    } else if op == 0x96 {  // add word to pointer pair
        let value = pair_value(regs[rd as int], regs[rd + 1]);
        let r = adiw_result(value, k);
        (regs.update(rd as int, (r % 256) as u8).update(rd + 1, (r / 256) as u8),
            adiw_flags(value, k, flags))
    } else if op == 0x97 {  // subtract word from pointer pair
        let value = pair_value(regs[rd as int], regs[rd + 1]);
        let r = sbiw_result(value, k);
        (regs.update(rd as int, (r % 256) as u8).update(rd + 1, (r / 256) as u8),
            sbiw_flags(value, k, flags))
    } else {
        (regs, flags)
    }
}

/// Effect of one single-register instruction.  An unknown subcode leaves
/// the state untouched.
pub open spec fn spec_one_reg(op: u8, rd: u8, regs: Seq<u8>, flags: StatusFlags)
    -> (Seq<u8>, StatusFlags) {
    let v = regs[rd as int];
    if op == 0x0 {  // one's complement
        (regs.update(rd as int, com_result(v)), zn_flags(com_result(v), flags))
    } else if op == 0x1 {  // two's-complement negate
        (regs.update(rd as int, neg_result(v)), znv_flags(neg_result(v), v == 0x80, flags))
    } else if op == 0x2 {  // nibble swap
        (regs.update(rd as int, swap_result(v)), zn_flags(swap_result(v), flags))
    } else if op == 0x3 {  // increment
        (regs.update(rd as int, inc_result(v)), znv_flags(inc_result(v), v == 0x7F, flags))
    } else if op == 0x5 {  // arithmetic shift right
        (regs.update(rd as int, asr_result(v)), shift_flags(asr_result(v), v % 2 == 1, flags))
    } else if op == 0x6 {  // logical shift right
        (regs.update(rd as int, lsr_result(v)), shift_flags(lsr_result(v), v % 2 == 1, flags))
    } else if op == 0x7 {  // rotate right through carry
        (regs.update(rd as int, ror_result(v, flags.carry)),
            shift_flags(ror_result(v, flags.carry), v % 2 == 1, flags))
    } else {
        (regs, flags)
    }
}

/// The low nibble of a byte never exceeds 0xF.
proof fn lemma_low_nibble(x: u8)
    by (bit_vector)
    ensures
        x & 0x0F <= 0x0F,
{
}

impl Alu {
    /// Addition with explicit 0/1 carry-in: writes the wrapped sum into
    /// `rdu` and computes all five arithmetic flags.
    pub fn add(rdu: usize, rru: usize, register_bank: &mut RegisterBank, carry: u8)
        requires
            old(register_bank).wf(),
            rdu < 32,
            rru < 32,
            carry <= 1,
        ensures
            final(register_bank).wf(),
            final(register_bank).registers@ == old(register_bank).registers@.update(rdu as int,
                add_result(old(register_bank).registers@[rdu as int],
                    old(register_bank).registers@[rru as int], carry)),
            final(register_bank).flags == add_flags(old(register_bank).registers@[rdu as int],
                old(register_bank).registers@[rru as int], carry, old(register_bank).flags),
            final(register_bank).stack_pointer == old(register_bank).stack_pointer,
    {
        let rd_val = register_bank.registers[rdu];
        let rr_val = register_bank.registers[rru];
        proof {
            lemma_low_nibble(rd_val);
            lemma_low_nibble(rr_val);
        }
        let sum: u16 = rd_val as u16 + rr_val as u16 + carry as u16;
        let result: u8 = (sum % 256) as u8;
        register_bank.registers.set(rdu, result);
        register_bank.flags = StatusFlags {
            carry: sum > 0xFF,
            zero: result == 0,
            negative: result >= 0x80,
            overflow: (rd_val >= 0x80) == (rr_val >= 0x80) && (result >= 0x80) != (rd_val >= 0x80),
            half_carry: (rd_val & 0x0F) + (rr_val & 0x0F) + carry > 0x0F,
            interrupt: register_bank.flags.interrupt,
        };
    }

    /// Subtraction with explicit 0/1 borrow-in: writes the wrapped
    /// difference into `rdu` and computes all five arithmetic flags.
    pub fn substract(rdu: usize, rru: usize, register_bank: &mut RegisterBank, carry: u8)
        requires
            old(register_bank).wf(),
            rdu < 32,
            rru < 32,
            carry <= 1,
        ensures
            final(register_bank).wf(),
            final(register_bank).registers@ == old(register_bank).registers@.update(rdu as int,
                sub_result(old(register_bank).registers@[rdu as int],
                    old(register_bank).registers@[rru as int], carry)),
            final(register_bank).flags == sub_flags(old(register_bank).registers@[rdu as int],
                old(register_bank).registers@[rru as int], carry, old(register_bank).flags),
            final(register_bank).stack_pointer == old(register_bank).stack_pointer,
    {
        let rd_val = register_bank.registers[rdu];
        let rr_val = register_bank.registers[rru];
        let result = Alu::sub_with_borrow_value(rd_val, rr_val, carry);
        register_bank.registers.set(rdu, result);
        register_bank.flags = Alu::sub_flag_values(rd_val, rr_val, carry,
            register_bank.flags.interrupt);
    }

    /// Compare: the flags of a subtraction, with no register written.
    pub fn compare(rdu: usize, rru: usize, register_bank: &mut RegisterBank, carry: u8)
        requires
            old(register_bank).wf(),
            rdu < 32,
            rru < 32,
            carry <= 1,
        ensures
            final(register_bank).wf(),
            final(register_bank).registers@ == old(register_bank).registers@,
            final(register_bank).flags == sub_flags(old(register_bank).registers@[rdu as int],
                old(register_bank).registers@[rru as int], carry, old(register_bank).flags),
            final(register_bank).stack_pointer == old(register_bank).stack_pointer,
    {
        let rd_val = register_bank.registers[rdu];
        let rr_val = register_bank.registers[rru];
        register_bank.flags = Alu::sub_flag_values(rd_val, rr_val, carry,
            register_bank.flags.interrupt);
    }

    /// The wrapped 8-bit difference `rd - rr - carry`.
    fn sub_with_borrow_value(rd_val: u8, rr_val: u8, carry: u8) -> (r: u8)
        requires
            carry <= 1,
        ensures
            r == sub_result(rd_val, rr_val, carry),
    {
        let minuend: u16 = rd_val as u16 + 256;
        let diff: u16 = minuend - rr_val as u16 - carry as u16;
        (diff % 256) as u8
    }

    /// The flag outcome of `rd - rr - carry`.
    fn sub_flag_values(rd_val: u8, rr_val: u8, carry: u8, interrupt: bool) -> (f: StatusFlags)
        requires
            carry <= 1,
        ensures
            f == sub_flags(rd_val, rr_val, carry,
                (StatusFlags {
                    carry: false,
                    zero: false,
                    negative: false,
                    overflow: false,
                    half_carry: false,
                    interrupt,
                })),
    {
        proof {
            lemma_low_nibble(rd_val);
            lemma_low_nibble(rr_val);
        }
        let result = Alu::sub_with_borrow_value(rd_val, rr_val, carry);
        StatusFlags {
            carry: (rd_val as u16) < rr_val as u16 + carry as u16,
            zero: result == 0,
            negative: result >= 0x80,
            overflow: (rd_val >= 0x80) != (rr_val >= 0x80) && (result >= 0x80) == (rr_val >= 0x80),
            half_carry: (rd_val & 0x0F) < (rr_val & 0x0F) + carry,
            interrupt,
        }
    }

    /// Compare-and-skip-if-equal: no register or flag changes; reports
    /// whether the fetch loop must skip one extra instruction word.
    pub fn comp_skip(rdu: usize, rru: usize, register_bank: &mut RegisterBank) -> (skip: bool)
        requires
            old(register_bank).wf(),
            rdu < 32,
            rru < 32,
        ensures
            *final(register_bank) == *old(register_bank),
            skip == (old(register_bank).registers@[rdu as int]
                == old(register_bank).registers@[rru as int]),
    {
        let rd_val = register_bank.registers[rdu];
        let rr_val = register_bank.registers[rru];
        rd_val == rr_val
    }

    /// Bitwise AND of two registers.
    pub fn and(rdu: usize, rru: usize, register_bank: &mut RegisterBank)
        requires
            old(register_bank).wf(),
            rdu < 32,
            rru < 32,
        ensures
            final(register_bank).wf(),
            final(register_bank).registers@ == old(register_bank).registers@.update(rdu as int,
                old(register_bank).registers@[rdu as int]
                    & old(register_bank).registers@[rru as int]),
            final(register_bank).flags == logic_flags(old(register_bank).registers@[rdu as int]
                & old(register_bank).registers@[rru as int], old(register_bank).flags),
            final(register_bank).stack_pointer == old(register_bank).stack_pointer,
    {
        let result = register_bank.registers[rdu] & register_bank.registers[rru];
        register_bank.registers.set(rdu, result);
        register_bank.flags = Alu::logic_flag_values(result, register_bank.flags);
    }

    /// Bitwise exclusive OR of two registers.
    pub fn eor(rdu: usize, rru: usize, register_bank: &mut RegisterBank)
        requires
            old(register_bank).wf(),
            rdu < 32,
            rru < 32,
        ensures
            final(register_bank).wf(),
            final(register_bank).registers@ == old(register_bank).registers@.update(rdu as int,
                old(register_bank).registers@[rdu as int]
                    ^ old(register_bank).registers@[rru as int]),
            final(register_bank).flags == logic_flags(old(register_bank).registers@[rdu as int]
                ^ old(register_bank).registers@[rru as int], old(register_bank).flags),
            final(register_bank).stack_pointer == old(register_bank).stack_pointer,
    {
        let result = register_bank.registers[rdu] ^ register_bank.registers[rru];
        register_bank.registers.set(rdu, result);
        register_bank.flags = Alu::logic_flag_values(result, register_bank.flags);
    }

    /// Bitwise OR of two registers.
    pub fn or(rdu: usize, rru: usize, register_bank: &mut RegisterBank)
        requires
            old(register_bank).wf(),
            rdu < 32,
            rru < 32,
        ensures
            final(register_bank).wf(),
            final(register_bank).registers@ == old(register_bank).registers@.update(rdu as int,
                old(register_bank).registers@[rdu as int]
                    | old(register_bank).registers@[rru as int]),
            final(register_bank).flags == logic_flags(old(register_bank).registers@[rdu as int]
                | old(register_bank).registers@[rru as int], old(register_bank).flags),
            final(register_bank).stack_pointer == old(register_bank).stack_pointer,
    {
        let result = register_bank.registers[rdu] | register_bank.registers[rru];
        register_bank.registers.set(rdu, result);
        register_bank.flags = Alu::logic_flag_values(result, register_bank.flags);
    }

    /// The flag outcome of a bitwise operation.
    fn logic_flag_values(result: u8, f: StatusFlags) -> (out: StatusFlags)
        ensures
            out == logic_flags(result, f),
    {
        StatusFlags {
            carry: f.carry,
            zero: result == 0,
            negative: result >= 0x80,
            overflow: false,
            half_carry: f.half_carry,
            interrupt: f.interrupt,
        }
    }

    /// Register move: copies `rru` into `rdu`, no flags.
    pub fn mov(rdu: usize, rru: usize, register_bank: &mut RegisterBank)
        requires
            old(register_bank).wf(),
            rdu < 32,
            rru < 32,
        ensures
            final(register_bank).wf(),
            final(register_bank).registers@ == old(register_bank).registers@.update(rdu as int,
                old(register_bank).registers@[rru as int]),
            final(register_bank).flags == old(register_bank).flags,
            final(register_bank).stack_pointer == old(register_bank).stack_pointer,
    {
        let value = register_bank.registers[rru];
        register_bank.registers.set(rdu, value);
    }

    /// Compare register `rdu` against an immediate.
    pub fn cpi(rdu: usize, constant: u8, register_bank: &mut RegisterBank)
        requires
            old(register_bank).wf(),
            rdu < 32,
        ensures
            final(register_bank).wf(),
            final(register_bank).registers@ == old(register_bank).registers@,
            final(register_bank).flags == sub_flags(old(register_bank).registers@[rdu as int],
                constant, 0, old(register_bank).flags),
            final(register_bank).stack_pointer == old(register_bank).stack_pointer,
    {
        let rd_val = register_bank.registers[rdu];
        register_bank.flags = Alu::sub_flag_values(rd_val, constant, 0,
            register_bank.flags.interrupt);
    }

    /// Subtract an immediate with borrow-in from register `rdu`.
    pub fn sbci(rdu: usize, constant: u8, register_bank: &mut RegisterBank)
        requires
            old(register_bank).wf(),
            rdu < 32,
        ensures
            final(register_bank).wf(),
            final(register_bank).registers@ == old(register_bank).registers@.update(rdu as int,
                sub_result(old(register_bank).registers@[rdu as int], constant,
                    if old(register_bank).flags.carry { 1u8 } else { 0u8 })),
            final(register_bank).flags == sub_flags(old(register_bank).registers@[rdu as int],
                constant, if old(register_bank).flags.carry { 1u8 } else { 0u8 },
                old(register_bank).flags),
            final(register_bank).stack_pointer == old(register_bank).stack_pointer,
    {
        let carry = register_bank.get_carry_as_u8();
        let rd_val = register_bank.registers[rdu];
        let result = Alu::sub_with_borrow_value(rd_val, constant, carry);
        register_bank.registers.set(rdu, result);
        register_bank.flags = Alu::sub_flag_values(rd_val, constant, carry,
            register_bank.flags.interrupt);
    }

    /// Subtract an immediate from register `rdu`.
    pub fn subi(rdu: usize, constant: u8, register_bank: &mut RegisterBank)
        requires
            old(register_bank).wf(),
            rdu < 32,
        ensures
            final(register_bank).wf(),
            final(register_bank).registers@ == old(register_bank).registers@.update(rdu as int,
                sub_result(old(register_bank).registers@[rdu as int], constant, 0)),
            final(register_bank).flags == sub_flags(old(register_bank).registers@[rdu as int],
                constant, 0, old(register_bank).flags),
            final(register_bank).stack_pointer == old(register_bank).stack_pointer,
    {
        let rd_val = register_bank.registers[rdu];
        let result = Alu::sub_with_borrow_value(rd_val, constant, 0);
        register_bank.registers.set(rdu, result);
        register_bank.flags = Alu::sub_flag_values(rd_val, constant, 0,
            register_bank.flags.interrupt);
    }

    /// OR register `rdu` with an immediate.
    pub fn ori(rdu: usize, constant: u8, register_bank: &mut RegisterBank)
        requires
            old(register_bank).wf(),
            rdu < 32,
        ensures
            final(register_bank).wf(),
            final(register_bank).registers@ == old(register_bank).registers@.update(rdu as int,
                old(register_bank).registers@[rdu as int] | constant),
            final(register_bank).flags == logic_flags(old(register_bank).registers@[rdu as int]
                | constant, old(register_bank).flags),
            final(register_bank).stack_pointer == old(register_bank).stack_pointer,
    {
        let result = register_bank.registers[rdu] | constant;
        register_bank.registers.set(rdu, result);
        register_bank.flags = Alu::logic_flag_values(result, register_bank.flags);
    }

    /// AND register `rdu` with an immediate.
    pub fn andi(rdu: usize, constant: u8, register_bank: &mut RegisterBank)
        requires
            old(register_bank).wf(),
            rdu < 32,
        ensures
            final(register_bank).wf(),
            final(register_bank).registers@ == old(register_bank).registers@.update(rdu as int,
                old(register_bank).registers@[rdu as int] & constant),
            final(register_bank).flags == logic_flags(old(register_bank).registers@[rdu as int]
                & constant, old(register_bank).flags),
            final(register_bank).stack_pointer == old(register_bank).stack_pointer,
    {
        let result = register_bank.registers[rdu] & constant;
        register_bank.registers.set(rdu, result);
        register_bank.flags = Alu::logic_flag_values(result, register_bank.flags);
    }

    /// Word-wide add-to-pointer: adds the constant to the 16-bit value of
    /// the register pair at `rdu` (low byte) and `rdu + 1` (high byte),
    /// wrapping modulo 2^16, and writes both bytes back.
    pub fn adiw(rdu: usize, constant: u8, register_bank: &mut RegisterBank)
        requires
            old(register_bank).wf(),
            rdu + 1 < 32,
        ensures
            final(register_bank).wf(),
            ({
                let value = pair_value(old(register_bank).registers@[rdu as int],
                    old(register_bank).registers@[rdu + 1]);
                let r = adiw_result(value, constant);
                final(register_bank).registers@ == old(register_bank).registers@
                    .update(rdu as int, (r % 256) as u8).update(rdu + 1, (r / 256) as u8)
                && final(register_bank).flags
                    == adiw_flags(value, constant, old(register_bank).flags)
            }),
            final(register_bank).stack_pointer == old(register_bank).stack_pointer,
    {
        let lo = register_bank.registers[rdu];
        let hi = register_bank.registers[rdu + 1];
        let value: u32 = lo as u32 + 256 * (hi as u32);
        let sum: u32 = value + constant as u32;
        let result: u32 = sum % 0x10000;
        register_bank.registers.set(rdu, (result % 256) as u8);
        register_bank.registers.set(rdu + 1, (result / 256) as u8);
        register_bank.flags = StatusFlags {
            carry: sum > 0xFFFF,
            zero: result == 0,
            negative: result >= 0x8000,
            overflow: value < 0x8000 && result >= 0x8000,
            half_carry: register_bank.flags.half_carry,
            interrupt: register_bank.flags.interrupt,
        };
    }

    /// Word-wide subtract-from-pointer: subtracts the constant from the
    /// 16-bit value of the register pair at `rdu` and `rdu + 1`, wrapping
    /// modulo 2^16, and writes both bytes back.
    pub fn sbiw(rdu: usize, constant: u8, register_bank: &mut RegisterBank)
        requires
            old(register_bank).wf(),
            rdu + 1 < 32,
        ensures
            final(register_bank).wf(),
            ({
                let value = pair_value(old(register_bank).registers@[rdu as int],
                    old(register_bank).registers@[rdu + 1]);
                let r = sbiw_result(value, constant);
                final(register_bank).registers@ == old(register_bank).registers@
                    .update(rdu as int, (r % 256) as u8).update(rdu + 1, (r / 256) as u8)
                && final(register_bank).flags
                    == sbiw_flags(value, constant, old(register_bank).flags)
            }),
            final(register_bank).stack_pointer == old(register_bank).stack_pointer,
    {
        let lo = register_bank.registers[rdu];
        let hi = register_bank.registers[rdu + 1];
        let value: u32 = lo as u32 + 256 * (hi as u32);
        let result: u32 = if value >= constant as u32 {
            value - constant as u32
        } else {
            value + 0x10000 - constant as u32
        };
        register_bank.registers.set(rdu, (result % 256) as u8);
        register_bank.registers.set(rdu + 1, (result / 256) as u8);
        register_bank.flags = StatusFlags {
            carry: value < constant as u32,
            zero: result == 0,
            negative: result >= 0x8000,
            overflow: value >= 0x8000 && result < 0x8000,
            half_carry: register_bank.flags.half_carry,
            interrupt: register_bank.flags.interrupt,
        };
    }

    /// One's complement of register `rdu`; zero and negative follow the
    /// result.
    pub fn com(rdu: usize, register_bank: &mut RegisterBank)
        requires
            old(register_bank).wf(),
            rdu < 32,
        ensures
            final(register_bank).wf(),
            final(register_bank).registers@ == old(register_bank).registers@.update(rdu as int,
                com_result(old(register_bank).registers@[rdu as int])),
            final(register_bank).flags == zn_flags(
                com_result(old(register_bank).registers@[rdu as int]),
                old(register_bank).flags),
            final(register_bank).stack_pointer == old(register_bank).stack_pointer,
    {
        let v = register_bank.registers[rdu];
        let result: u8 = 0xFF - v;
        register_bank.registers.set(rdu, result);
        register_bank.flags = Alu::zn_flag_values(result, register_bank.flags);
    }

    /// Two's-complement negate of register `rdu`; overflow is set exactly
    /// at the signed-extreme input 0x80.
    pub fn neg(rdu: usize, register_bank: &mut RegisterBank)
        requires
            old(register_bank).wf(),
            rdu < 32,
        ensures
            final(register_bank).wf(),
            final(register_bank).registers@ == old(register_bank).registers@.update(rdu as int,
                neg_result(old(register_bank).registers@[rdu as int])),
            final(register_bank).flags == znv_flags(
                neg_result(old(register_bank).registers@[rdu as int]),
                old(register_bank).registers@[rdu as int] == 0x80,
                old(register_bank).flags),
            final(register_bank).stack_pointer == old(register_bank).stack_pointer,
    {
        let v = register_bank.registers[rdu];
        let result: u8 = if v == 0 {
            0
        } else {
            (0xFF - v) + 1
        };
        let f = register_bank.flags;
        register_bank.registers.set(rdu, result);
        register_bank.flags = StatusFlags {
            carry: f.carry,
            zero: result == 0,
            negative: result >= 0x80,
            overflow: v == 0x80,
            half_carry: f.half_carry,
            interrupt: f.interrupt,
        };
    }

    /// Exchange the two nibbles of register `rdu`.
    pub fn swap(rdu: usize, register_bank: &mut RegisterBank)
        requires
            old(register_bank).wf(),
            rdu < 32,
        ensures
            final(register_bank).wf(),
            final(register_bank).registers@ == old(register_bank).registers@.update(rdu as int,
                swap_result(old(register_bank).registers@[rdu as int])),
            final(register_bank).flags == zn_flags(
                swap_result(old(register_bank).registers@[rdu as int]),
                old(register_bank).flags),
            final(register_bank).stack_pointer == old(register_bank).stack_pointer,
    {
        let v = register_bank.registers[rdu];
        let result: u8 = (v % 16) * 16 + v / 16;
        register_bank.registers.set(rdu, result);
        register_bank.flags = Alu::zn_flag_values(result, register_bank.flags);
    }

    /// Increment register `rdu`; overflow is set exactly at the
    /// signed-extreme input 0x7F.
    pub fn inc(rdu: usize, register_bank: &mut RegisterBank)
        requires
            old(register_bank).wf(),
            rdu < 32,
        ensures
            final(register_bank).wf(),
            final(register_bank).registers@ == old(register_bank).registers@.update(rdu as int,
                inc_result(old(register_bank).registers@[rdu as int])),
            final(register_bank).flags == znv_flags(
                inc_result(old(register_bank).registers@[rdu as int]),
                old(register_bank).registers@[rdu as int] == 0x7F,
                old(register_bank).flags),
            final(register_bank).stack_pointer == old(register_bank).stack_pointer,
    {
        let v = register_bank.registers[rdu];
        let result: u8 = if v == 0xFF {
            0
        } else {
            v + 1
        };
        let f = register_bank.flags;
        register_bank.registers.set(rdu, result);
        register_bank.flags = StatusFlags {
            carry: f.carry,
            zero: result == 0,
            negative: result >= 0x80,
            overflow: v == 0x7F,
            half_carry: f.half_carry,
            interrupt: f.interrupt,
        };
    }

    /// Arithmetic shift right of register `rdu`: the sign bit is kept and
    /// the bit shifted out becomes the carry.
    pub fn asr(rdu: usize, register_bank: &mut RegisterBank)
        requires
            old(register_bank).wf(),
            rdu < 32,
        ensures
            final(register_bank).wf(),
            final(register_bank).registers@ == old(register_bank).registers@.update(rdu as int,
                asr_result(old(register_bank).registers@[rdu as int])),
            final(register_bank).flags == shift_flags(
                asr_result(old(register_bank).registers@[rdu as int]),
                old(register_bank).registers@[rdu as int] % 2 == 1,
                old(register_bank).flags),
            final(register_bank).stack_pointer == old(register_bank).stack_pointer,
    {
        let v = register_bank.registers[rdu];
        let result: u8 = v / 2 + if v >= 0x80 { 0x80 } else { 0 };
        register_bank.registers.set(rdu, result);
        register_bank.flags = Alu::shift_flag_values(result, v % 2 == 1, register_bank.flags);
    }

    /// Logical shift right of register `rdu`: a zero enters from the left
    /// and the bit shifted out becomes the carry.
    pub fn lsr(rdu: usize, register_bank: &mut RegisterBank)
        requires
            old(register_bank).wf(),
            rdu < 32,
        ensures
            final(register_bank).wf(),
            final(register_bank).registers@ == old(register_bank).registers@.update(rdu as int,
                lsr_result(old(register_bank).registers@[rdu as int])),
            final(register_bank).flags == shift_flags(
                lsr_result(old(register_bank).registers@[rdu as int]),
                old(register_bank).registers@[rdu as int] % 2 == 1,
                old(register_bank).flags),
            final(register_bank).stack_pointer == old(register_bank).stack_pointer,
    {
        let v = register_bank.registers[rdu];
        let result: u8 = v / 2;
        register_bank.registers.set(rdu, result);
        register_bank.flags = Alu::shift_flag_values(result, v % 2 == 1, register_bank.flags);
    }

    /// Rotate right through carry of register `rdu`: the old carry enters
    /// from the left and the bit shifted out becomes the new carry.
    pub fn ror(rdu: usize, register_bank: &mut RegisterBank)
        requires
            old(register_bank).wf(),
            rdu < 32,
        ensures
            final(register_bank).wf(),
            final(register_bank).registers@ == old(register_bank).registers@.update(rdu as int,
                ror_result(old(register_bank).registers@[rdu as int],
                    old(register_bank).flags.carry)),
            final(register_bank).flags == shift_flags(
                ror_result(old(register_bank).registers@[rdu as int],
                    old(register_bank).flags.carry),
                old(register_bank).registers@[rdu as int] % 2 == 1,
                old(register_bank).flags),
            final(register_bank).stack_pointer == old(register_bank).stack_pointer,
    {
        let v = register_bank.registers[rdu];
        let result: u8 = v / 2 + if register_bank.flags.carry { 0x80 } else { 0 };
        register_bank.registers.set(rdu, result);
        register_bank.flags = Alu::shift_flag_values(result, v % 2 == 1, register_bank.flags);
    }

    /// The flag outcome of a single-register operation touching only zero
    /// and negative.
    fn zn_flag_values(result: u8, f: StatusFlags) -> (out: StatusFlags)
        ensures
            out == zn_flags(result, f),
    {
        StatusFlags {
            carry: f.carry,
            zero: result == 0,
            negative: result >= 0x80,
            overflow: f.overflow,
            half_carry: f.half_carry,
            interrupt: f.interrupt,
        }
    }

    /// The flag outcome of a shift or rotate.
    fn shift_flag_values(result: u8, bit_out: bool, f: StatusFlags) -> (out: StatusFlags)
        ensures
            out == shift_flags(result, bit_out, f),
    {
        StatusFlags {
            carry: bit_out,
            zero: result == 0,
            negative: result >= 0x80,
            overflow: f.overflow,
            half_carry: f.half_carry,
            interrupt: f.interrupt,
        }
    }
}

} // verus!
