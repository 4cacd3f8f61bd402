//! The decoder: a total, pure function from a raw 16-bit instruction word to
//! a structured `Instruction`.  Every opcode family packs its operands into
//! overlapping, non-contiguous bit fields; the spec functions here state the
//! exact extraction formulas and the executable decoder is proved equal to
//! them.

use vstd::prelude::*;
use crate::instruction::{Instruction, PointerRegister, RawInstruction};

verus! {

/// Mask selecting the four most significant bits, the primary opcode.
pub const MAIN_OPCODE_MASK: RawInstruction = 0xF000;

/// Field extraction for the two-register ALU family (primary opcodes
/// 0x0000, 0x1000, 0x2000): `rd` is bits 8:4, `rr` is bits 3:0 with bit 9
/// selecting the upper register half, and `op` is the word shifted right by
/// 10, a 6-bit family discriminator kept unreduced.
pub open spec fn spec_decode_two_reg(raw: RawInstruction) -> Instruction {
    Instruction::TwoRegOp {
        op: raw >> 10,
        rd: ((raw & 0x01F0) >> 4) as u8,
        rr: if raw & 0x0200 != 0 {
            (((raw & 0x000F) as u8) + 16) as u8
        } else {
            (raw & 0x000F) as u8
        },
    }
}

/// Field extraction for the register-versus-immediate family (primary
/// opcodes 0x4000-0x7000 and 0xE000): `rd` is bits 7:4; the constant is
/// reassembled by adding the high-nibble field (bits 11:8 shifted right by
/// 4) to the low nibble (bits 3:0) — the two fields occupy disjoint bit
/// ranges after the shift, so the sum equals the concatenation; `op` is the
/// word shifted right by 12.
pub open spec fn spec_decode_reg_const(raw: RawInstruction) -> Instruction {
    Instruction::RegConstOp {
        op: raw >> 12,
        rd: ((raw & 0x00F0) >> 4) as u8,
        constant: ((((raw & 0x0F00) >> 4) + (raw & 0x000F)) as u8),
    }
}

/// Field extraction for the indexed load/store family (primary opcodes
/// 0x8000, 0xA000): bit 9 clear means load; bit 3 clear selects the Z pair,
/// set selects Y (X is not reachable in this encoding); `reg` is bits 8:4;
/// the displacement is the sum of three disjoint groups: bits 2:0, bits
/// 11:10 shifted right by 7, and bit 13 shifted right by 8.
pub open spec fn spec_decode_transfer_indirect(raw: RawInstruction) -> Instruction {
    Instruction::TransferIndirect {
        is_load: raw & 0x0200 == 0,
        base_reg: if raw & 0x0008 == 0 {
            PointerRegister::Z
        } else {
            PointerRegister::Y
        },
        reg: ((raw & 0x01F0) >> 4) as u8,
        offset: (((raw & 0x0007) + ((raw & 0x0C00) >> 7) + ((raw & 0x2000) >> 8)) as u8),
    }
}

/// Sub-dispatch of the 0x9000 family on bits 11:9.  When that field is
/// 0b000 or 0b001 and the low four bits are 0xF the word is a push (bit 9
/// set) or pop (bit 9 clear) of register bits 8:4.  Every other word of the
/// family is a single-register ALU instruction whose fields this decoder
/// does not extract: it emits the undecoded marker.
pub open spec fn spec_decode_one_reg_family(raw: RawInstruction) -> Instruction {
    if (raw & 0x0E00 == 0 || raw & 0x0E00 == 0x0200) && raw & 0x000F == 0xF {
        Instruction::PushPop {
            is_pop: raw & 0x0200 == 0,
            reg: ((raw & 0x01F0) >> 4) as u8,
        }
    } else {
        Instruction::OneRegOp { fields: None }
    }
}

/// Field extraction for the memory-mapped I/O family (primary opcode
/// 0xB000): bit 11 clear means read into the register; `reg` is bits 8:4;
/// the I/O-space address is bits 3:0 plus bits 10:9 shifted right by 5.
pub open spec fn spec_decode_in_out(raw: RawInstruction) -> Instruction {
    Instruction::InOut {
        is_in: raw & 0x0800 == 0,
        reg: ((raw & 0x01F0) >> 4) as u8,
        address: ((((raw & 0x0600) >> 5) + (raw & 0x000F)) as u8),
    }
}

/// Field extraction for the relative call/jump family (primary opcodes
/// 0xC000, 0xD000): 0xD000 is the call; the target is the low 12 bits,
/// an unsigned word offset applied by the fetch loop.
pub open spec fn spec_decode_call_jmp(raw: RawInstruction) -> Instruction {
    Instruction::CallJmp {
        is_call: raw & 0xF000 == 0xD000,
        relative: true,
        address: raw & 0x0FFF,
    }
}

/// The complete decode map: a fast path returns `Nop` for the all-zero
/// word, then the four top bits select the opcode family.  Total: every
/// 16-bit value maps to exactly one instruction, with `Unsupported`
/// carrying any word outside the listed families.
pub open spec fn spec_decode(raw: RawInstruction) -> Instruction {
    if raw == 0 {
        Instruction::Nop
    } else {
        let opcode = raw & 0xF000;
        if opcode == 0x0000 || opcode == 0x1000 || opcode == 0x2000 {
            spec_decode_two_reg(raw)
        } else if opcode == 0x4000 || opcode == 0x5000 || opcode == 0x6000 || opcode == 0x7000
            || opcode == 0xE000 {
            spec_decode_reg_const(raw)
        } else if opcode == 0x8000 || opcode == 0xA000 {
            spec_decode_transfer_indirect(raw)
        } else if opcode == 0x9000 {
            spec_decode_one_reg_family(raw)
        } else if opcode == 0xB000 {
            spec_decode_in_out(raw)
        } else if opcode == 0xC000 || opcode == 0xD000 {
            spec_decode_call_jmp(raw)
        } else {
            Instruction::Unsupported { instruction: raw }
        }
    }
}

/// Range invariants of a decoded instruction, as the data model states
/// them: register indices fit the 32-cell bank, the immediate family only
/// ever addresses the upper half (index field below 16), and the relative
/// branch target fits in 12 bits.  `spec_decode` establishes this for every
/// raw word.
pub open spec fn instruction_wf(i: Instruction) -> bool {
    match i {
        Instruction::Nop => true,
        Instruction::TwoRegOp { op, rd, rr } => op < 64 && rd < 32 && rr < 32,
        Instruction::RegConstOp { op, rd, constant } => op < 16 && rd < 16,
        Instruction::OneRegOp { fields } => match fields {
            Some(f) => f.rd < 32,
            None => true,
        },
        Instruction::TransferIndirect { is_load, base_reg, reg, offset } => reg < 32 && offset < 64,
        Instruction::PushPop { is_pop, reg } => reg < 32,
        Instruction::InOut { is_in, reg, address } => reg < 32 && address < 64,
        Instruction::CallJmp { is_call, relative, address } => address < 0x1000,
        Instruction::Ret { is_interrupt } => true,
        Instruction::Branch { op, test_set, offset } => true,
        Instruction::Unsupported { instruction } => true,
    }
}

/// Bounds of every bit field the decoder extracts, so that the narrowing
/// casts and nibble sums are known not to truncate.
proof fn lemma_field_bounds(raw: RawInstruction)
    by (bit_vector)
    ensures
        (raw & 0x01F0) >> 4 <= 0x1F,
        raw & 0x000F <= 0xF,
        (raw & 0x00F0) >> 4 <= 0xF,
        (raw & 0x0F00) >> 4 <= 0xF0,
        raw & 0x0007 <= 0x7,
        (raw & 0x0C00) >> 7 <= 0x18,
        (raw & 0x2000) >> 8 <= 0x20,
        (raw & 0x0600) >> 5 <= 0x30,
        raw & 0x0FFF <= 0xFFF,
        raw >> 10 <= 0x3F,
        raw >> 12 <= 0xF,
{
}

/// Decodes raw instruction words.
pub struct Decoder;

impl Decoder {
    /// Decodes a 2-byte instruction word into a structured instruction with
    /// decoded operands.  Total and pure: the result is exactly
    /// `spec_decode(raw_instruction)`, and its fields always satisfy the
    /// data-model range invariants.
    pub fn decode(raw_instruction: RawInstruction) -> (decoded: Instruction)
        ensures
            decoded == spec_decode(raw_instruction),
            instruction_wf(decoded),
    {
        proof {
            lemma_field_bounds(raw_instruction);
        }
        // This one is pretty common
        if raw_instruction == 0 {
            return Instruction::Nop;
        }
        let opcode = raw_instruction & MAIN_OPCODE_MASK;  // 4 most sig. bits
        match opcode {
            0x0000 | 0x1000 | 0x2000 => {
                let rd = ((raw_instruction & 0x01F0) >> 4) as u8;
                let mut rr = (raw_instruction & 0x000F) as u8;
                if raw_instruction & 0x0200 != 0 {
                    rr = rr + 16;
                }
                Instruction::TwoRegOp { op: raw_instruction >> 10, rd, rr }
            },
            0x4000 | 0x5000 | 0x6000 | 0x7000 | 0xE000 => {
                let rd = ((raw_instruction & 0x00F0) >> 4) as u8;
                let constant_upper = ((raw_instruction & 0x0F00) >> 4) as u8;
                let constant_lower = (raw_instruction & 0x000F) as u8;
                let constant = constant_upper + constant_lower;
                Instruction::RegConstOp { op: raw_instruction >> 12, rd, constant }
            },
            0x8000 | 0xA000 => {  // LDD / STD
                let is_load = raw_instruction & 0x0200 == 0;
                let base_reg = if raw_instruction & 0x0008 == 0 {
                    PointerRegister::Z
                } else {
                    PointerRegister::Y
                };
                let reg = ((raw_instruction & 0x01F0) >> 4) as u8;
                let offset_lo = raw_instruction & 0x0007;
                let offset_mid = (raw_instruction & 0x0C00) >> 7;
                let offset_hi = (raw_instruction & 0x2000) >> 8;
                let offset = offset_lo + offset_mid + offset_hi;
                Instruction::TransferIndirect { is_load, base_reg, reg, offset: offset as u8 }
            },
            0x9000 => {  // One register operations?
                let sub = raw_instruction & 0x0E00;
                if sub == 0 || sub == 0x0200 {
                    let is_pop = raw_instruction & 0x0200 == 0;
                    let reg = ((raw_instruction & 0x01F0) >> 4) as u8;
                    if raw_instruction & 0x000F == 0xF {
                        Instruction::PushPop { is_pop, reg }
                    } else {
                        Instruction::OneRegOp { fields: None }
                    }
                } else {
                    Instruction::OneRegOp { fields: None }
                }
            },
            0xB000 => {
                let is_in = raw_instruction & 0x0800 == 0;
                let reg = ((raw_instruction & 0x01F0) >> 4) as u8;
                let address_low = (raw_instruction & 0x000F) as u8;
                let address_hi = ((raw_instruction & 0x0600) >> 5) as u8;
                let address = address_hi + address_low;
                Instruction::InOut { is_in, reg, address }
            },
            0xC000 | 0xD000 => {
                let is_call = opcode == 0xD000;
                let offset = raw_instruction & 0x0FFF;
                Instruction::CallJmp { is_call, relative: true, address: offset }
            },
            _ => Instruction::Unsupported { instruction: raw_instruction },
        }
    }
}

} // verus!
