//! Textual rendering of instructions for tracing and debugging: a pure
//! `Instruction -> text` operation with a fixed template per variant.
//! The spec functions state the exact character sequence produced,
//! including the decimal and lowercase-hexadecimal digit expansions.

use vstd::prelude::*;
use vstd::string::StringExecFns;
use crate::instruction::{Instruction, PointerRegister};

verus! {

/// The decimal digit character for a value below ten.
pub open spec fn dec_digit(d: int) -> char {
    if d == 0 {
        '0'
    } else if d == 1 {
        '1'
    } else if d == 2 {
        '2'
    } else if d == 3 {
        '3'
    } else if d == 4 {
        '4'
    } else if d == 5 {
        '5'
    } else if d == 6 {
        '6'
    } else if d == 7 {
        '7'
    } else if d == 8 {
        '8'
    } else {
        '9'
    }
}

/// The lowercase hexadecimal digit character for a value below sixteen.
pub open spec fn hex_digit(d: int) -> char {
    if d < 10 {
        dec_digit(d)
    } else if d == 10 {
        'a'
    } else if d == 11 {
        'b'
    } else if d == 12 {
        'c'
    } else if d == 13 {
        'd'
    } else if d == 14 {
        'e'
    } else {
        'f'
    }
}

/// Decimal rendering of a byte, without leading zeros.
pub open spec fn dec_u8_chars(v: u8) -> Seq<char> {
    if v >= 100 {
        seq![dec_digit(v as int / 100), dec_digit((v as int / 10) % 10), dec_digit(v as int % 10)]
    } else if v >= 10 {
        seq![dec_digit(v as int / 10), dec_digit(v as int % 10)]
    } else {
        seq![dec_digit(v as int)]
    }
}

/// Decimal rendering of a 16-bit word, without leading zeros.
pub open spec fn dec_u16_chars(v: u16) -> Seq<char> {
    if v >= 10000 {
        seq![dec_digit(v as int / 10000), dec_digit((v as int / 1000) % 10),
            dec_digit((v as int / 100) % 10), dec_digit((v as int / 10) % 10),
            dec_digit(v as int % 10)]
    } else if v >= 1000 {
        seq![dec_digit(v as int / 1000), dec_digit((v as int / 100) % 10),
            dec_digit((v as int / 10) % 10), dec_digit(v as int % 10)]
    } else if v >= 100 {
        seq![dec_digit(v as int / 100), dec_digit((v as int / 10) % 10), dec_digit(v as int % 10)]
    } else if v >= 10 {
        seq![dec_digit(v as int / 10), dec_digit(v as int % 10)]
    } else {
        seq![dec_digit(v as int)]
    }
}

/// Decimal rendering of a signed byte: a minus sign before the magnitude.
pub open spec fn dec_i8_chars(v: i8) -> Seq<char> {
    if v < 0 {
        seq!['-'] + dec_u8_chars((-(v as int)) as u8)
    } else {
        dec_u8_chars(v as u8)
    }
}

/// Lowercase hexadecimal rendering of a byte, without leading zeros.
pub open spec fn hex_u8_chars(v: u8) -> Seq<char> {
    if v >= 16 {
        seq![hex_digit(v as int / 16), hex_digit(v as int % 16)]
    } else {
        seq![hex_digit(v as int)]
    }
}

/// Lowercase hexadecimal rendering of a 16-bit word, without leading
/// zeros.
pub open spec fn hex_u16_chars(v: u16) -> Seq<char> {
    if v >= 0x1000 {
        seq![hex_digit(v as int / 0x1000), hex_digit((v as int / 0x100) % 16),
            hex_digit((v as int / 16) % 16), hex_digit(v as int % 16)]
    } else if v >= 0x100 {
        seq![hex_digit(v as int / 0x100), hex_digit((v as int / 16) % 16),
            hex_digit(v as int % 16)]
    } else if v >= 16 {
        seq![hex_digit(v as int / 16), hex_digit(v as int % 16)]
    } else {
        seq![hex_digit(v as int)]
    }
}

/// The fixed-format disassembly of an instruction, one template per
/// variant.
pub open spec fn spec_disassembly(i: Instruction) -> Seq<char> {
    match i {
        Instruction::Nop => "nop"@,
        Instruction::TwoRegOp { op, rd, rr } => "Two register operation -> op: "@
            + dec_u16_chars(op) + " rd: "@ + dec_u8_chars(rd) + ", rr:"@ + dec_u8_chars(rr),
        Instruction::RegConstOp { op, rd, constant } => "Operation against constant -> op: "@
            + dec_u16_chars(op) + " rd: "@ + dec_u8_chars(rd) + ", constant:"@
            + dec_u8_chars(constant),
        Instruction::PushPop { is_pop, reg } => (if is_pop {
            "pop r"@
        } else {
            "push r"@
        }) + dec_u8_chars(reg),
        Instruction::TransferIndirect { is_load, base_reg, reg, offset } => (if is_load {
            "ldd "@
        } else {
            "std "@
        }) + (match base_reg {
            PointerRegister::X => "X"@,
            PointerRegister::Y => "Y"@,
            PointerRegister::Z => "Z"@,
        }) + "+"@ + dec_u8_chars(offset) + ", r"@ + dec_u8_chars(reg),
        Instruction::CallJmp { is_call, relative, address } => (if relative {
            "r"@
        } else {
            Seq::<char>::empty()
        }) + (if is_call {
            "call, $"@
        } else {
            "jmp, $"@
        }) + dec_u16_chars(address),
        Instruction::InOut { is_in, reg, address } => (if is_in {
            "in r"@
        } else {
            "out r"@
        }) + dec_u8_chars(reg) + " $"@ + hex_u8_chars(address),
        Instruction::OneRegOp { fields } => match fields {
            Some(f) => "One register operation -> op: "@ + dec_u8_chars(f.op) + " rd: "@
                + dec_u8_chars(f.rd),
            None => "Parsed but unsupported instruction"@,
        },
        Instruction::Ret { is_interrupt } => if is_interrupt {
            "reti"@
        } else {
            "ret"@
        },
        Instruction::Branch { op, test_set, offset } => (if test_set {
            "brbs "@
        } else {
            "brbc "@
        }) + dec_u8_chars(op) + ", "@ + dec_i8_chars(offset),
        Instruction::Unsupported { instruction } => "Unsupported instruction: "@
            + hex_u16_chars(instruction),
    }
}

/// Appends one decimal digit character.
fn append_dec_digit(s: &mut String, d: u8)
    requires
        d < 10,
    ensures
        final(s)@ == old(s)@.push(dec_digit(d as int)),
{
    if d == 0 {
        proof {
            reveal_strlit("0");
        }
        s.append("0");
    } else if d == 1 {
        proof {
            reveal_strlit("1");
        }
        s.append("1");
    } else if d == 2 {
        proof {
            reveal_strlit("2");
        }
        s.append("2");
    } else if d == 3 {
        proof {
            reveal_strlit("3");
        }
        s.append("3");
    } else if d == 4 {
        proof {
            reveal_strlit("4");
        }
        s.append("4");
    } else if d == 5 {
        proof {
            reveal_strlit("5");
        }
        s.append("5");
    } else if d == 6 {
        proof {
            reveal_strlit("6");
        }
        s.append("6");
    } else if d == 7 {
        proof {
            reveal_strlit("7");
        }
        s.append("7");
    } else if d == 8 {
        proof {
            reveal_strlit("8");
        }
        s.append("8");
    } else {
        proof {
            reveal_strlit("9");
        }
        s.append("9");
    }
    proof {
        assert(s@ =~= old(s)@.push(dec_digit(d as int)));
    }
}

/// Appends one lowercase hexadecimal digit character.
fn append_hex_digit(s: &mut String, d: u8)
    requires
        d < 16,
    ensures
        final(s)@ == old(s)@.push(hex_digit(d as int)),
{
    if d < 10 {
        append_dec_digit(s, d);
    } else if d == 10 {
        proof {
            reveal_strlit("a");
        }
        s.append("a");
    } else if d == 11 {
        proof {
            reveal_strlit("b");
        }
        s.append("b");
    } else if d == 12 {
        proof {
            reveal_strlit("c");
        }
        s.append("c");
    } else if d == 13 {
        proof {
            reveal_strlit("d");
        }
        s.append("d");
    } else if d == 14 {
        proof {
            reveal_strlit("e");
        }
        s.append("e");
    } else {
        proof {
            reveal_strlit("f");
        }
        s.append("f");
    }
    proof {
        assert(s@ =~= old(s)@.push(hex_digit(d as int)));
    }
}

/// Appends the decimal rendering of a byte.
fn append_dec_u8(s: &mut String, v: u8)
    ensures
        final(s)@ == old(s)@ + dec_u8_chars(v),
{
    if v >= 100 {
        append_dec_digit(s, v / 100);
        append_dec_digit(s, (v / 10) % 10);
        append_dec_digit(s, v % 10);
    } else if v >= 10 {
        append_dec_digit(s, v / 10);
        append_dec_digit(s, v % 10);
    } else {
        append_dec_digit(s, v);
    }
    proof {
        assert(s@ =~= old(s)@ + dec_u8_chars(v));
    }
}

/// Appends the decimal rendering of a 16-bit word.
fn append_dec_u16(s: &mut String, v: u16)
    ensures
        final(s)@ == old(s)@ + dec_u16_chars(v),
{
    if v >= 10000 {
        append_dec_digit(s, (v / 10000) as u8);
        append_dec_digit(s, ((v / 1000) % 10) as u8);
        append_dec_digit(s, ((v / 100) % 10) as u8);
        append_dec_digit(s, ((v / 10) % 10) as u8);
        append_dec_digit(s, (v % 10) as u8);
    } else if v >= 1000 {
        append_dec_digit(s, (v / 1000) as u8);
        append_dec_digit(s, ((v / 100) % 10) as u8);
        append_dec_digit(s, ((v / 10) % 10) as u8);
        append_dec_digit(s, (v % 10) as u8);
    } else if v >= 100 {
        append_dec_digit(s, (v / 100) as u8);
        append_dec_digit(s, ((v / 10) % 10) as u8);
        append_dec_digit(s, (v % 10) as u8);
    } else if v >= 10 {
        append_dec_digit(s, (v / 10) as u8);
        append_dec_digit(s, (v % 10) as u8);
    } else {
        append_dec_digit(s, v as u8);
    }
    proof {
        assert(s@ =~= old(s)@ + dec_u16_chars(v));
    }
}

/// Appends the decimal rendering of a signed byte.
fn append_dec_i8(s: &mut String, v: i8)
    ensures
        final(s)@ == old(s)@ + dec_i8_chars(v),
{
    if v < 0 {
        proof {
            reveal_strlit("-");
        }
        s.append("-");
        assert(s@ =~= old(s)@.push('-'));
        assert(s@ =~= old(s)@ + seq!['-']);
    }
    let magnitude: u8 = if v < 0 {
        (0 - (v as i16)) as u8
    } else {
        v as u8
    };
    append_dec_u8(s, magnitude);
    proof {
        assert(s@ =~= old(s)@ + dec_i8_chars(v));
    }
}

/// Appends the lowercase hexadecimal rendering of a byte.
fn append_hex_u8(s: &mut String, v: u8)
    ensures
        final(s)@ == old(s)@ + hex_u8_chars(v),
{
    if v >= 16 {
        append_hex_digit(s, v / 16);
        append_hex_digit(s, v % 16);
    } else {
        append_hex_digit(s, v);
    }
    proof {
        assert(s@ =~= old(s)@ + hex_u8_chars(v));
    }
}

/// Appends the lowercase hexadecimal rendering of a 16-bit word.
fn append_hex_u16(s: &mut String, v: u16)
    ensures
        final(s)@ == old(s)@ + hex_u16_chars(v),
{
    if v >= 0x1000 {
        append_hex_digit(s, (v / 0x1000) as u8);
        append_hex_digit(s, ((v / 0x100) % 16) as u8);
        append_hex_digit(s, ((v / 16) % 16) as u8);
        append_hex_digit(s, (v % 16) as u8);
    } else if v >= 0x100 {
        append_hex_digit(s, (v / 0x100) as u8);
        append_hex_digit(s, ((v / 16) % 16) as u8);
        append_hex_digit(s, (v % 16) as u8);
    } else if v >= 16 {
        append_hex_digit(s, (v / 16) as u8);
        append_hex_digit(s, (v % 16) as u8);
    } else {
        append_hex_digit(s, v as u8);
    }
    proof {
        assert(s@ =~= old(s)@ + hex_u16_chars(v));
    }
}

impl Instruction {
    /// The fixed-format disassembly text of this instruction, character
    /// for character the sequence `spec_disassembly` states.
    pub fn disassemble(&self) -> (text: String)
        ensures
            text@ == spec_disassembly(*self),
    {
        let mut out = String::new();
        match self {
            Instruction::Nop => {
                out.append("nop");
            },
            Instruction::TwoRegOp { op, rd, rr } => {
                out.append("Two register operation -> op: ");
                append_dec_u16(&mut out, *op);
                out.append(" rd: ");
                append_dec_u8(&mut out, *rd);
                out.append(", rr:");
                append_dec_u8(&mut out, *rr);
            },
            Instruction::RegConstOp { op, rd, constant } => {
                out.append("Operation against constant -> op: ");
                append_dec_u16(&mut out, *op);
                out.append(" rd: ");
                append_dec_u8(&mut out, *rd);
                out.append(", constant:");
                append_dec_u8(&mut out, *constant);
            },
            Instruction::PushPop { is_pop, reg } => {
                if *is_pop {
                    out.append("pop r");
                } else {
                    out.append("push r");
                }
                append_dec_u8(&mut out, *reg);
            },
            Instruction::TransferIndirect { is_load, base_reg, reg, offset } => {
                if *is_load {
                    out.append("ldd ");
                } else {
                    out.append("std ");
                }
                match base_reg {
                    PointerRegister::X => out.append("X"),
                    PointerRegister::Y => out.append("Y"),
                    PointerRegister::Z => out.append("Z"),
                }
                out.append("+");
                append_dec_u8(&mut out, *offset);
                out.append(", r");
                append_dec_u8(&mut out, *reg);
            },
            Instruction::CallJmp { is_call, relative, address } => {
                if *relative {
                    out.append("r");
                }
                if *is_call {
                    out.append("call, $");
                } else {
                    out.append("jmp, $");
                }
                append_dec_u16(&mut out, *address);
            },
            Instruction::InOut { is_in, reg, address } => {
                if *is_in {
                    out.append("in r");
                } else {
                    out.append("out r");
                }
                append_dec_u8(&mut out, *reg);
                out.append(" $");
                append_hex_u8(&mut out, *address);
            },
            Instruction::OneRegOp { fields } => {
                match fields {
                    Some(f) => {
                        out.append("One register operation -> op: ");
                        append_dec_u8(&mut out, f.op);
                        out.append(" rd: ");
                        append_dec_u8(&mut out, f.rd);
                    },
                    None => {
                        out.append("Parsed but unsupported instruction");
                    },
                }
            },
            Instruction::Ret { is_interrupt } => {
                if *is_interrupt {
                    out.append("reti");
                } else {
                    out.append("ret");
                }
            },
            Instruction::Branch { op, test_set, offset } => {
                if *test_set {
                    out.append("brbs ");
                } else {
                    out.append("brbc ");
                }
                append_dec_u8(&mut out, *op);
                out.append(", ");
                append_dec_i8(&mut out, *offset);
            },
            Instruction::Unsupported { instruction } => {
                out.append("Unsupported instruction: ");
                append_hex_u16(&mut out, *instruction);
            },
        }
        proof {
            assert(out@ =~= spec_disassembly(*self));
        }
        out
    }
}

} // verus!
