use vstd::prelude::*;

use crate::instruction::{Instruction, Operand};

verus! {

/// Why a byte stream could not be decoded.
#[derive(Clone, Copy, Debug, PartialEq, Eq, Structural)]
pub enum DecodeError {
    /// The opcode byte matches none of the recognized `mov` forms.
    UnsupportedOpcode { byte: u8 },
    /// An instruction needs more bytes than remain in the stream.
    UnexpectedEndOfStream,
}

/// The instruction forms that the classifier recognizes.
#[derive(Clone, Copy, Debug, PartialEq, Eq, Structural)]
pub enum Form {
    /// `1011 w reg`, followed by an 8- or 16-bit immediate.
    ImmediateToRegister,
    /// `100010 d w`, followed by a ModRM byte and any displacement.
    RegisterMemory,
    /// `1010000 w`, followed by a 16-bit address.
    MemoryToAccumulator,
    /// `1010001 w`, followed by a 16-bit address.
    AccumulatorToMemory,
}

/// The form selected by an opcode byte, testing the 4-bit, 6-bit and 7-bit prefixes in turn.
pub open spec fn form_of(b: u8) -> Option<Form> {
    if b >> 4u8 == 0b1011u8 {
        Some(Form::ImmediateToRegister)
    } else if b >> 2u8 == 0b100010u8 {
        Some(Form::RegisterMemory)
    } else if b >> 1u8 == 0b1010000u8 {
        Some(Form::MemoryToAccumulator)
    } else if b >> 1u8 == 0b1010001u8 {
        Some(Form::AccumulatorToMemory)
    } else {
        None
    }
}

/// Mode field of a ModRM byte (top two bits).
pub open spec fn mode_of(m: u8) -> u8 {
    m >> 6u8
}

/// Register field of a ModRM byte (middle three bits).
pub open spec fn reg_of(m: u8) -> u8 {
    (m >> 3u8) & 7u8
}

/// Register/memory field of a ModRM byte (low three bits).
pub open spec fn rm_of(m: u8) -> u8 {
    m & 7u8
}

/// Direction bit of a register/memory opcode: set when the `reg` operand is the destination.
pub open spec fn direction_of(b: u8) -> bool {
    (b >> 1u8) & 1u8 == 1u8
}

/// Width bit of a register/memory or accumulator opcode: set for word operands.
pub open spec fn width_of(b: u8) -> bool {
    b & 1u8 == 1u8
}

/// Width bit of an immediate-to-register opcode (bit 3).
pub open spec fn immediate_width_of(b: u8) -> bool {
    (b >> 3u8) & 1u8 == 1u8
}

/// An 8-bit value read as two's complement.
pub open spec fn sign_extend8(b: u8) -> int {
    if b < 128 {
        b as int
    } else {
        b - 256
    }
}

/// A 16-bit value from its low and high bytes.
pub open spec fn le16(lo: u8, hi: u8) -> int {
    lo + 256 * hi
}

/// A 16-bit value read as two's complement.
pub open spec fn signed16(v: int) -> int {
    if v < 32768 {
        v
    } else {
        v - 65536
    }
}

/// The register/memory operand selected by ModRM byte `m`, with the number of bytes it
/// consumes from `at` on, or `None` when those bytes run past the end of `bytes`.
pub open spec fn rm_operand(bytes: Seq<u8>, at: int, m: u8, wide: bool) -> Option<(Operand, nat)> {
    let mode = mode_of(m);
    let rm = rm_of(m);
    if mode == 3 {
        Some((Operand::Register { index: rm, wide }, 0))
    } else if mode == 0 && rm == 6 {
        if at + 2 <= bytes.len() {
            Some((Operand::Direct { address: le16(bytes[at], bytes[at + 1]) as u16 }, 2))
        } else {
            None
        }
    } else if mode == 0 {
        Some((Operand::Memory { base: rm, disp: 0 }, 0))
    } else if mode == 1 {
        if at + 1 <= bytes.len() {
            Some((Operand::Memory { base: rm, disp: sign_extend8(bytes[at]) as i16 }, 1))
        } else {
            None
        }
    } else {
        if at + 2 <= bytes.len() {
            Some(
                (
                    Operand::Memory {
                        base: rm,
                        disp: signed16(le16(bytes[at], bytes[at + 1])) as i16,
                    },
                    2,
                ),
            )
        } else {
            None
        }
    }
}

/// The register/memory form at `pos`: the instruction and its length.
pub open spec fn register_memory_at(bytes: Seq<u8>, pos: int) -> Result<(Instruction, nat), DecodeError> {
    let b = bytes[pos];
    if pos + 2 > bytes.len() {
        Err(DecodeError::UnexpectedEndOfStream)
    } else {
        let m = bytes[pos + 1];
        let wide = width_of(b);
        match rm_operand(bytes, pos + 2, m, wide) {
            None => Err(DecodeError::UnexpectedEndOfStream),
            Some((rm_op, k)) => {
                let reg_op = Operand::Register { index: reg_of(m), wide };
                if direction_of(b) {
                    Ok((Instruction { dest: reg_op, src: rm_op }, 2 + k))
                } else {
                    Ok((Instruction { dest: rm_op, src: reg_op }, 2 + k))
                }
            },
        }
    }
}

/// The immediate-to-register form at `pos`: the instruction and its length.
pub open spec fn immediate_at(bytes: Seq<u8>, pos: int) -> Result<(Instruction, nat), DecodeError> {
    let b = bytes[pos];
    let wide = immediate_width_of(b);
    let dest = Operand::Register { index: rm_of(b), wide };
    if wide {
        if pos + 3 <= bytes.len() {
            let value = signed16(le16(bytes[pos + 1], bytes[pos + 2])) as i16;
            Ok((Instruction { dest, src: Operand::Immediate { value } }, 3))
        } else {
            Err(DecodeError::UnexpectedEndOfStream)
        }
    } else {
        if pos + 2 <= bytes.len() {
            let value = sign_extend8(bytes[pos + 1]) as i16;
            Ok((Instruction { dest, src: Operand::Immediate { value } }, 2))
        } else {
            Err(DecodeError::UnexpectedEndOfStream)
        }
    }
}

/// An accumulator form at `pos`: `ax` and a direct address, in the order the form fixes.
pub open spec fn accumulator_at(bytes: Seq<u8>, pos: int, to_memory: bool) -> Result<
    (Instruction, nat),
    DecodeError,
> {
    if pos + 3 <= bytes.len() {
        let acc = Operand::Register { index: 0, wide: true };
        let mem = Operand::Direct { address: le16(bytes[pos + 1], bytes[pos + 2]) as u16 };
        if to_memory {
            Ok((Instruction { dest: mem, src: acc }, 3))
        } else {
            Ok((Instruction { dest: acc, src: mem }, 3))
        }
    } else {
        Err(DecodeError::UnexpectedEndOfStream)
    }
}

/// The instruction that starts at `pos`, with its length in bytes.
pub open spec fn decode_at(bytes: Seq<u8>, pos: int) -> Result<(Instruction, nat), DecodeError> {
    match form_of(bytes[pos]) {
        None => Err(DecodeError::UnsupportedOpcode { byte: bytes[pos] }),
        Some(Form::ImmediateToRegister) => immediate_at(bytes, pos),
        Some(Form::RegisterMemory) => register_memory_at(bytes, pos),
        Some(Form::MemoryToAccumulator) => accumulator_at(bytes, pos, false),
        Some(Form::AccumulatorToMemory) => accumulator_at(bytes, pos, true),
    }
}

/// The 3-bit fields of an opcode or ModRM byte stay below 8.
pub proof fn lemma_fields_bounded(b: u8)
    ensures
        reg_of(b) < 8,
        rm_of(b) < 8,
        mode_of(b) < 4,
{
    assert((b >> 3u8) & 7u8 < 8u8) by (bit_vector);
    assert(b & 7u8 < 8u8) by (bit_vector);
    assert(b >> 6u8 < 4u8) by (bit_vector);
}

/// A decoded instruction is well formed and takes at least one byte.
pub proof fn lemma_decode_at_wf(bytes: Seq<u8>, pos: int)
    requires
        0 <= pos < bytes.len(),
    ensures
        decode_at(bytes, pos) matches Ok((inst, n)) ==> inst.wf() && 0 < n && pos + n <= bytes.len(),
{
    lemma_fields_bounded(bytes[pos]);
    if pos + 1 < bytes.len() {
        lemma_fields_bounded(bytes[pos + 1]);
    }
}

/// The instructions decoded from `pos` to the end of `bytes`, or the first failure.
pub open spec fn decode_from(bytes: Seq<u8>, pos: int) -> Result<Seq<Instruction>, DecodeError>
    decreases bytes.len() - pos,
    via decode_from_decreases
{
    if pos < 0 || pos >= bytes.len() {
        Ok(Seq::empty())
    } else {
        match decode_at(bytes, pos) {
            Err(e) => Err(e),
            Ok((inst, n)) => match decode_from(bytes, pos + n) {
                Err(e) => Err(e),
                Ok(rest) => Ok(seq![inst] + rest),
            },
        }
    }
}

#[via_fn]
proof fn decode_from_decreases(bytes: Seq<u8>, pos: int) {
    if 0 <= pos < bytes.len() {
        lemma_decode_at_wf(bytes, pos);
    }
}

/// The instructions of a whole byte stream, or the first failure.
pub open spec fn decode_spec(bytes: Seq<u8>) -> Result<Seq<Instruction>, DecodeError> {
    decode_from(bytes, 0)
}

} // verus!
