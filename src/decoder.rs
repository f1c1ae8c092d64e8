use vstd::prelude::*;

use crate::cursor::Cursor;
use crate::model::{
    accumulator_at, decode_at, decode_from, decode_spec, form_of, immediate_at, le16,
    lemma_decode_at_wf, lemma_fields_bounded, register_memory_at, rm_operand, sign_extend8,
    signed16, DecodeError, Form,
};
use crate::instruction::{instruction_text, render, Instruction, Operand};

verus! {

/// `r` is what the model gives for the instruction at `start`, and on success the
/// cursor moved from `start` to `end`, just past it.
pub open spec fn decoded_as(
    r: Result<Instruction, DecodeError>,
    model: Result<(Instruction, nat), DecodeError>,
    start: int,
    end: int,
) -> bool {
    match model {
        Ok((inst, n)) => r == Ok::<Instruction, DecodeError>(inst) && end == start + n,
        Err(e) => r == Err::<Instruction, DecodeError>(e),
    }
}

/// Selects the instruction form of an opcode byte.
pub fn classify(b: u8) -> (r: Result<Form, DecodeError>)
    ensures
        match form_of(b) {
            Some(f) => r == Ok::<Form, DecodeError>(f),
            None => r == Err::<Form, DecodeError>(DecodeError::UnsupportedOpcode { byte: b }),
        },
{
    if b >> 4u8 == 0b1011u8 {
        Ok(Form::ImmediateToRegister)
    } else if b >> 2u8 == 0b100010u8 {
        Ok(Form::RegisterMemory)
    } else if b >> 1u8 == 0b1010000u8 {
        Ok(Form::MemoryToAccumulator)
    } else if b >> 1u8 == 0b1010001u8 {
        Ok(Form::AccumulatorToMemory)
    } else {
        Err(DecodeError::UnsupportedOpcode { byte: b })
    }
}

/// Sign-extends a byte to 16 bits.
pub fn sign_extend_byte(b: u8) -> (r: i16)
    ensures
        r as int == sign_extend8(b),
{
    if b < 128 {
        b as i16
    } else {
        b as i16 - 256
    }
}

/// Joins a little-endian pair of bytes.
pub fn word_of(lo: u8, hi: u8) -> (r: u16)
    ensures
        r as int == le16(lo, hi),
{
    lo as u16 + (hi as u16) * 256
}

/// Reads a 16-bit value as two's complement.
pub fn signed_word(v: u16) -> (r: i16)
    ensures
        r as int == signed16(v as int),
{
    if v < 32768 {
        v as i16
    } else {
        (v as i32 - 65536) as i16
    }
}

/// Resolves the register/memory operand of ModRM byte `m`, consuming its displacement or
/// address bytes.
pub fn resolve_rm(cur: &mut Cursor, m: u8, wide: bool) -> (r: Result<Operand, DecodeError>)
    requires
        old(cur).wf(),
    ensures
        final(cur).wf(),
        final(cur).data() == old(cur).data(),
        old(cur).position() <= final(cur).position(),
        match rm_operand(old(cur).data(), old(cur).position(), m, wide) {
            Some((op, k)) => r == Ok::<Operand, DecodeError>(op) && final(cur).position()
                == old(cur).position() + k,
            None => r == Err::<Operand, DecodeError>(DecodeError::UnexpectedEndOfStream),
        },
{
    proof {
        lemma_fields_bounded(m);
    }
    let mode = m >> 6u8;
    let rm = m & 7u8;
    if mode == 3 {
        Ok(Operand::Register { index: rm, wide })
    } else if mode == 0 && rm == 6 {
        let (lo, hi) = cur.next_pair()?;
        Ok(Operand::Direct { address: word_of(lo, hi) })
    } else if mode == 0 {
        Ok(Operand::Memory { base: rm, disp: 0 })
    } else if mode == 1 {
        let d = cur.next_byte()?;
        Ok(Operand::Memory { base: rm, disp: sign_extend_byte(d) })
    } else {
        let (lo, hi) = cur.next_pair()?;
        Ok(Operand::Memory { base: rm, disp: signed_word(word_of(lo, hi)) })
    }
}

/// Decodes a register/memory-to-register `mov` at the cursor.
pub fn decode_register_memory(cur: &mut Cursor) -> (r: Result<Instruction, DecodeError>)
    requires
        old(cur).wf(),
        old(cur).position() < old(cur).data().len(),
    ensures
        final(cur).wf(),
        final(cur).data() == old(cur).data(),
        old(cur).position() <= final(cur).position(),
        decoded_as(
            r,
            register_memory_at(old(cur).data(), old(cur).position()),
            old(cur).position(),
            final(cur).position(),
        ),
{
    let b = cur.next_byte()?;
    let m = cur.next_byte()?;
    proof {
        lemma_fields_bounded(m);
    }
    let wide = b & 1u8 == 1u8;
    let rm_op = resolve_rm(cur, m, wide)?;
    let reg_op = Operand::Register { index: (m >> 3u8) & 7u8, wide };
    if (b >> 1u8) & 1u8 == 1u8 {
        Ok(Instruction { dest: reg_op, src: rm_op })
    } else {
        Ok(Instruction { dest: rm_op, src: reg_op })
    }
}

/// Decodes an immediate-to-register `mov` at the cursor.
pub fn decode_immediate(cur: &mut Cursor) -> (r: Result<Instruction, DecodeError>)
    requires
        old(cur).wf(),
        old(cur).position() < old(cur).data().len(),
    ensures
        final(cur).wf(),
        final(cur).data() == old(cur).data(),
        old(cur).position() <= final(cur).position(),
        decoded_as(
            r,
            immediate_at(old(cur).data(), old(cur).position()),
            old(cur).position(),
            final(cur).position(),
        ),
{
    let b = cur.next_byte()?;
    let wide = (b >> 3u8) & 1u8 == 1u8;
    let dest = Operand::Register { index: b & 7u8, wide };
    let value = if wide {
        let (lo, hi) = cur.next_pair()?;
        signed_word(word_of(lo, hi))
    } else {
        let v = cur.next_byte()?;
        sign_extend_byte(v)
    };
    Ok(Instruction { dest, src: Operand::Immediate { value } })
}

/// Decodes a memory-to-accumulator (`to_memory` false) or accumulator-to-memory `mov`.
pub fn decode_accumulator(cur: &mut Cursor, to_memory: bool) -> (r: Result<Instruction, DecodeError>)
    requires
        old(cur).wf(),
        old(cur).position() < old(cur).data().len(),
    ensures
        final(cur).wf(),
        final(cur).data() == old(cur).data(),
        old(cur).position() <= final(cur).position(),
        decoded_as(
            r,
            accumulator_at(old(cur).data(), old(cur).position(), to_memory),
            old(cur).position(),
            final(cur).position(),
        ),
{
    let _ = cur.next_byte()?;
    let (lo, hi) = cur.next_pair()?;
    let acc = Operand::Register { index: 0, wide: true };
    let mem = Operand::Direct { address: word_of(lo, hi) };
    if to_memory {
        Ok(Instruction { dest: mem, src: acc })
    } else {
        Ok(Instruction { dest: acc, src: mem })
    }
}

/// Decodes the instruction at the cursor and moves past it.
pub fn decode_next(cur: &mut Cursor) -> (r: Result<Instruction, DecodeError>)
    requires
        old(cur).wf(),
        old(cur).position() < old(cur).data().len(),
    ensures
        final(cur).wf(),
        final(cur).data() == old(cur).data(),
        old(cur).position() <= final(cur).position(),
        decoded_as(
            r,
            decode_at(old(cur).data(), old(cur).position()),
            old(cur).position(),
            final(cur).position(),
        ),
        r matches Ok(inst) ==> inst.wf(),
{
    proof {
        lemma_decode_at_wf(cur.data(), cur.position());
    }
    let b = cur.peek().unwrap();
    match classify(b)? {
        Form::ImmediateToRegister => decode_immediate(cur),
        Form::RegisterMemory => decode_register_memory(cur),
        Form::MemoryToAccumulator => decode_accumulator(cur, false),
        Form::AccumulatorToMemory => decode_accumulator(cur, true),
    }
}

/// `rest` with `prefix` put in front of its instructions, or its failure.
pub open spec fn after(prefix: Seq<Instruction>, rest: Result<Seq<Instruction>, DecodeError>) -> Result<
    Seq<Instruction>,
    DecodeError,
> {
    match rest {
        Ok(s) => Ok(prefix + s),
        Err(e) => Err(e),
    }
}

/// Decodes a whole byte stream, stopping at the first failure.
pub fn decode(bytes: &[u8]) -> (r: Result<Vec<Instruction>, DecodeError>)
    ensures
        match decode_spec(bytes@) {
            Ok(s) => r matches Ok(v) && v@ == s,
            Err(e) => r == Err::<Vec<Instruction>, DecodeError>(e),
        },
        r matches Ok(v) ==> forall|i: int| 0 <= i < v@.len() ==> (#[trigger] v@[i]).wf(),
{
    let mut cur = Cursor::new(bytes);
    let mut out: Vec<Instruction> = Vec::new();
    assert(out@ + decode_from(bytes@, 0)->Ok_0 =~= decode_from(bytes@, 0)->Ok_0);
    while !cur.is_empty()
        invariant
            cur.wf(),
            cur.data() == bytes@,
            0 <= cur.position() <= bytes@.len(),
            decode_spec(bytes@) == after(out@, decode_from(bytes@, cur.position())),
            forall|i: int| 0 <= i < out@.len() ==> (#[trigger] out@[i]).wf(),
        decreases bytes@.len() - cur.position(),
    {
        let ghost pos = cur.position();
        let ghost prev = out@;
        proof {
            lemma_decode_at_wf(bytes@, pos);
        }
        match decode_next(&mut cur) {
            Err(e) => {
                return Err(e);
            },
            Ok(inst) => {
                out.push(inst);
                proof {
                    let rest = decode_from(bytes@, cur.position());
                    if let Ok(s) = rest {
                        assert(prev + (seq![inst] + s) =~= out@ + s);
                    }
                }
            },
        }
    }
    assert(out@ + Seq::<Instruction>::empty() =~= out@);
    Ok(out)
}

/// Decodes a whole byte stream and renders one line of text per instruction.
pub fn disassemble(bytes: &[u8]) -> (r: Result<Vec<String>, DecodeError>)
    ensures
        match decode_spec(bytes@) {
            Ok(s) => r matches Ok(v) && v@.len() == s.len() && forall|i: int|
                0 <= i < s.len() ==> (#[trigger] v@[i])@ == instruction_text(s[i]),
            Err(e) => r == Err::<Vec<String>, DecodeError>(e),
        },
{
    let insts = decode(bytes)?;
    let mut lines: Vec<String> = Vec::new();
    let mut i: usize = 0;
    while i < insts.len()
        invariant
            0 <= i <= insts@.len(),
            lines@.len() == i,
            forall|j: int| 0 <= j < insts@.len() ==> (#[trigger] insts@[j]).wf(),
            forall|j: int| 0 <= j < i ==> (#[trigger] lines@[j])@ == instruction_text(insts@[j]),
        decreases insts@.len() - i,
    {
        lines.push(render(&insts[i]));
        i = i + 1;
    }
    Ok(lines)
}

} // verus!
