use vstd::prelude::*;

use crate::model::{
    decode_at, direction_of, form_of, le16, lemma_fields_bounded, mode_of, reg_of, rm_of,
    sign_extend8, signed16, width_of, DecodeError, Form,
};
use crate::instruction::{base_expr, decimal, instruction_text, operand_text, signed_decimal, Instruction, Operand};
use crate::registers::register_name;

verus! {

/// The operand that the `rm` field of a register/memory instruction selected.
pub open spec fn rm_side(inst: Instruction, direction: bool) -> Operand {
    if direction {
        inst.src
    } else {
        inst.dest
    }
}

/// In register mode (mode bits `11`) a register/memory `mov` is two bytes long, and its
/// operands are spelled exactly as the register table gives the `reg` and `rm` fields at the
/// opcode's width: `reg` is the destination when the direction bit is set, else the source.
pub proof fn lemma_register_mode_names(bytes: Seq<u8>, pos: int)
    requires
        0 <= pos,
        pos + 2 <= bytes.len(),
        form_of(bytes[pos]) == Some(Form::RegisterMemory),
        mode_of(bytes[pos + 1]) == 3,
    ensures
        ({
            let b = bytes[pos];
            let m = bytes[pos + 1];
            let reg_text = register_name(reg_of(m), width_of(b));
            let rm_text = register_name(rm_of(m), width_of(b));
            &&& decode_at(bytes, pos) matches Ok((inst, n))
            &&& n == 2
            &&& direction_of(b) ==> operand_text(inst.dest) == reg_text && operand_text(inst.src)
                == rm_text
            &&& !direction_of(b) ==> operand_text(inst.dest) == rm_text && operand_text(inst.src)
                == reg_text
        }),
{
}

/// Flipping the direction bit of a register/memory opcode keeps its form and width, and
/// decodes the same bytes into the same operands with destination and source swapped.
pub proof fn lemma_direction_swaps(bytes: Seq<u8>, pos: int)
    requires
        0 <= pos < bytes.len(),
        form_of(bytes[pos]) == Some(Form::RegisterMemory),
    ensures
        ({
            let flipped = bytes.update(pos, bytes[pos] ^ 2u8);
            &&& form_of(flipped[pos]) == Some(Form::RegisterMemory)
            &&& width_of(flipped[pos]) == width_of(bytes[pos])
            &&& direction_of(flipped[pos]) != direction_of(bytes[pos])
            &&& match (decode_at(bytes, pos), decode_at(flipped, pos)) {
                (Ok((a, n)), Ok((b, k))) => {
                    &&& b.dest == a.src
                    &&& b.src == a.dest
                    &&& k == n
                    &&& instruction_text(b) == "mov "@ + operand_text(a.src) + ", "@
                        + operand_text(a.dest)
                },
                (Err(e), Err(f)) => e == f,
                _ => false,
            }
        }),
{
    let b = bytes[pos];
    let c = b ^ 2u8;
    assert(b >> 2u8 == 0b100010u8 ==> c >> 2u8 == 0b100010u8 && c >> 4u8 != 0b1011u8)
        by (bit_vector)
        requires
            c == b ^ 2u8,
    ;
    assert(c & 1u8 == b & 1u8 && ((c >> 1u8) & 1u8 == 1u8) != ((b >> 1u8) & 1u8 == 1u8))
        by (bit_vector)
        requires
            c == b ^ 2u8,
    ;
    let flipped = bytes.update(pos, c);
    assert(flipped.len() == bytes.len());
    assert forall|i: int| 0 <= i < bytes.len() && i != pos implies flipped[i] == bytes[i] by {}
}

/// With mode `01` or `10`, the memory operand carries the sign-extended displacement that
/// follows the ModRM byte; a zero displacement is spelled `[expr]`, any other `[expr + N]`
/// with `N` in signed decimal.
pub proof fn lemma_displacement_text(bytes: Seq<u8>, pos: int)
    requires
        0 <= pos,
        pos + 2 <= bytes.len(),
        form_of(bytes[pos]) == Some(Form::RegisterMemory),
        mode_of(bytes[pos + 1]) == 1 || mode_of(bytes[pos + 1]) == 2,
    ensures
        ({
            let b = bytes[pos];
            let m = bytes[pos + 1];
            let k = mode_of(m) as int;
            let disp = if k == 1 {
                sign_extend8(bytes[pos + 2])
            } else {
                signed16(le16(bytes[pos + 2], bytes[pos + 3]))
            };
            let text = if disp == 0 {
                "["@ + base_expr(rm_of(m)) + "]"@
            } else {
                "["@ + base_expr(rm_of(m)) + " + "@ + signed_decimal(disp) + "]"@
            };
            &&& pos + 2 + k <= bytes.len() ==> {
                &&& decode_at(bytes, pos) matches Ok((inst, n))
                &&& n == 2 + k
                &&& rm_side(inst, direction_of(b)) == Operand::Memory {
                    base: rm_of(m),
                    disp: disp as i16,
                }
                &&& operand_text(rm_side(inst, direction_of(b))) == text
            }
            &&& pos + 2 + k > bytes.len() ==> decode_at(bytes, pos) == Err::<
                (Instruction, nat),
                DecodeError,
            >(DecodeError::UnexpectedEndOfStream)
        }),
{
    lemma_fields_bounded(bytes[pos + 1]);
}

/// Mode `00` with `rm` field `110` is a direct address: the two bytes after the ModRM byte,
/// little-endian, spelled `[address]` with no base expression; the instruction is four bytes.
pub proof fn lemma_direct_address(bytes: Seq<u8>, pos: int)
    requires
        0 <= pos,
        pos + 2 <= bytes.len(),
        form_of(bytes[pos]) == Some(Form::RegisterMemory),
        mode_of(bytes[pos + 1]) == 0,
        rm_of(bytes[pos + 1]) == 6,
    ensures
        ({
            let b = bytes[pos];
            &&& pos + 4 <= bytes.len() ==> {
                let address = le16(bytes[pos + 2], bytes[pos + 3]);
                &&& decode_at(bytes, pos) matches Ok((inst, n))
                &&& n == 4
                &&& rm_side(inst, direction_of(b)) == Operand::Direct { address: address as u16 }
                &&& operand_text(rm_side(inst, direction_of(b))) == "["@ + decimal(address as nat)
                    + "]"@
            }
            &&& pos + 4 > bytes.len() ==> decode_at(bytes, pos) == Err::<
                (Instruction, nat),
                DecodeError,
            >(DecodeError::UnexpectedEndOfStream)
        }),
{
}

} // verus!
