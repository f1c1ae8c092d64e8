use sim8086::cursor::Cursor;
use sim8086::model::{DecodeError, Form};
use sim8086::decoder::{
    classify, decode, decode_next, disassemble, sign_extend_byte, signed_word, word_of,
};
use sim8086::instruction::{render, render_operand, Instruction, Operand};
use sim8086::registers::register;

fn lines(bytes: &[u8]) -> Vec<String> {
    disassemble(bytes).expect("stream should decode")
}

#[test]
fn register_table_names() {
    let bytes = ["al", "cl", "dl", "bl", "ah", "ch", "dh", "bh"];
    let words = ["ax", "cx", "dx", "bx", "sp", "bp", "si", "di"];
    for i in 0..8u8 {
        assert_eq!(register(i, false), bytes[i as usize]);
        assert_eq!(register(i, true), words[i as usize]);
    }
}

#[test]
fn immediate_byte_is_sign_extended() {
    assert_eq!(lines(&[0xB0, 0xFF]), vec!["mov al, -1"]);
}

#[test]
fn immediate_word_is_little_endian() {
    assert_eq!(lines(&[0xB8, 0x00, 0x01]), vec!["mov ax, 256"]);
}

#[test]
fn immediate_word_extremes() {
    assert_eq!(lines(&[0xB8, 0x00, 0x80]), vec!["mov ax, -32768"]);
    assert_eq!(lines(&[0xB9, 0xFF, 0x7F]), vec!["mov cx, 32767"]);
    assert_eq!(lines(&[0xB4, 0x7F]), vec!["mov ah, 127"]);
}

#[test]
fn register_to_register_word() {
    assert_eq!(lines(&[0x89, 0xD8]), vec!["mov ax, bx"]);
}

#[test]
fn direction_bit_swaps_operands() {
    assert_eq!(lines(&[0x8B, 0xD8]), vec!["mov bx, ax"]);
    assert_eq!(lines(&[0x88, 0xE5]), vec!["mov ch, ah"]);
    assert_eq!(lines(&[0x8A, 0xE5]), vec!["mov ah, ch"]);
}

#[test]
fn register_mode_uses_table_for_every_modrm() {
    let bytes = ["al", "cl", "dl", "bl", "ah", "ch", "dh", "bh"];
    let words = ["ax", "cx", "dx", "bx", "sp", "bp", "si", "di"];
    for opcode in [0x88u8, 0x89, 0x8A, 0x8B] {
        let wide = opcode & 1 == 1;
        let to_reg = opcode & 2 == 2;
        let names = if wide { words } else { bytes };
        for reg in 0..8u8 {
            for rm in 0..8u8 {
                let modrm = 0b1100_0000 | (reg << 3) | rm;
                let (dest, src) = if to_reg {
                    (names[reg as usize], names[rm as usize])
                } else {
                    (names[rm as usize], names[reg as usize])
                };
                assert_eq!(lines(&[opcode, modrm]), vec![format!("mov {}, {}", dest, src)]);
            }
        }
    }
}

#[test]
fn accumulator_from_memory() {
    assert_eq!(lines(&[0xA1, 0x34, 0x12]), vec!["mov ax, [4660]"]);
    assert_eq!(lines(&[0xA0, 0x34, 0x12]), vec!["mov ax, [4660]"]);
}

#[test]
fn accumulator_to_memory() {
    assert_eq!(lines(&[0xA3, 0x34, 0x12]), vec!["mov [4660], ax"]);
    assert_eq!(lines(&[0xA2, 0xFF, 0xFF]), vec!["mov [65535], ax"]);
}

#[test]
fn truncated_register_memory_fails() {
    assert_eq!(decode(&[0x89]), Err(DecodeError::UnexpectedEndOfStream));
    assert_eq!(disassemble(&[0x89]), Err(DecodeError::UnexpectedEndOfStream));
}

#[test]
fn truncated_immediate_and_address_fail() {
    assert_eq!(decode(&[0xB8, 0x01]), Err(DecodeError::UnexpectedEndOfStream));
    assert_eq!(decode(&[0xB0]), Err(DecodeError::UnexpectedEndOfStream));
    assert_eq!(decode(&[0xA1, 0x34]), Err(DecodeError::UnexpectedEndOfStream));
    assert_eq!(decode(&[0x8B, 0x46]), Err(DecodeError::UnexpectedEndOfStream));
    assert_eq!(decode(&[0x8B, 0x86, 0x01]), Err(DecodeError::UnexpectedEndOfStream));
}

#[test]
fn zero_displacement_is_suppressed() {
    assert_eq!(lines(&[0x8B, 0x46, 0x00]), vec!["mov ax, [bp]"]);
    assert_eq!(lines(&[0x8B, 0x86, 0x00, 0x00]), vec!["mov ax, [bp]"]);
}

#[test]
fn nonzero_displacement_is_shown() {
    assert_eq!(lines(&[0x8B, 0x46, 0xFD]), vec!["mov ax, [bp + -3]"]);
    assert_eq!(lines(&[0x8A, 0x60, 0x04]), vec!["mov ah, [bx+si + 4]"]);
    assert_eq!(lines(&[0x8B, 0x87, 0x10, 0x27]), vec!["mov ax, [bx + 10000]"]);
    assert_eq!(lines(&[0x89, 0x8F, 0x00, 0x80]), vec!["mov [bx + -32768], cx"]);
}

#[test]
fn memory_without_displacement() {
    assert_eq!(lines(&[0x8A, 0x00]), vec!["mov al, [bx+si]"]);
    assert_eq!(lines(&[0x8B, 0x1B]), vec!["mov bx, [bp+di]"]);
    assert_eq!(lines(&[0x89, 0x3C]), vec!["mov [si], di"]);
}

#[test]
fn direct_address_has_no_base() {
    assert_eq!(lines(&[0x8B, 0x1E, 0x34, 0x12]), vec!["mov bx, [4660]"]);
    assert_eq!(lines(&[0x89, 0x0E, 0x05, 0x00]), vec!["mov [5], cx"]);
    assert_eq!(decode(&[0x8B, 0x1E, 0x34]), Err(DecodeError::UnexpectedEndOfStream));
}

#[test]
fn direct_address_consumes_two_bytes() {
    let bytes = [0x8B, 0x1E, 0x34, 0x12, 0x89, 0xD8];
    let mut cur = Cursor::new(&bytes);
    let first = decode_next(&mut cur).unwrap();
    assert_eq!(cur.offset(), 4);
    assert_eq!(
        first,
        Instruction {
            dest: Operand::Register { index: 3, wide: true },
            src: Operand::Direct { address: 0x1234 },
        }
    );
    assert_eq!(render(&decode_next(&mut cur).unwrap()), "mov ax, bx");
    assert!(cur.is_empty());
}

#[test]
fn unsupported_opcode_reports_byte() {
    assert_eq!(decode(&[0x90]), Err(DecodeError::UnsupportedOpcode { byte: 0x90 }));
    assert_eq!(decode(&[0x89, 0xD8, 0xC3]), Err(DecodeError::UnsupportedOpcode { byte: 0xC3 }));
}

#[test]
fn classifier_prefixes() {
    assert_eq!(classify(0xB0), Ok(Form::ImmediateToRegister));
    assert_eq!(classify(0xBF), Ok(Form::ImmediateToRegister));
    assert_eq!(classify(0x88), Ok(Form::RegisterMemory));
    assert_eq!(classify(0x8B), Ok(Form::RegisterMemory));
    assert_eq!(classify(0xA0), Ok(Form::MemoryToAccumulator));
    assert_eq!(classify(0xA1), Ok(Form::MemoryToAccumulator));
    assert_eq!(classify(0xA2), Ok(Form::AccumulatorToMemory));
    assert_eq!(classify(0xA3), Ok(Form::AccumulatorToMemory));
    assert_eq!(classify(0xA4), Err(DecodeError::UnsupportedOpcode { byte: 0xA4 }));
    assert_eq!(classify(0x8C), Err(DecodeError::UnsupportedOpcode { byte: 0x8C }));
}

#[test]
fn empty_stream_decodes_to_nothing() {
    assert_eq!(decode(&[]), Ok(vec![]));
    assert_eq!(disassemble(&[]), Ok(vec![]));
}

#[test]
fn several_instructions_in_order() {
    let bytes = [0x89, 0xD9, 0xB1, 0x0C, 0xA1, 0x01, 0x00, 0x88, 0x56, 0x02];
    assert_eq!(
        lines(&bytes),
        vec!["mov cx, bx", "mov cl, 12", "mov ax, [1]", "mov [bp + 2], dl"]
    );
}

#[test]
fn failure_after_good_instructions_emits_nothing() {
    assert_eq!(decode(&[0x89, 0xD8, 0xB8, 0x01]), Err(DecodeError::UnexpectedEndOfStream));
}

#[test]
fn cursor_reads() {
    let bytes = [1u8, 2, 3];
    let mut cur = Cursor::new(&bytes);
    assert_eq!(cur.peek(), Some(1));
    assert_eq!(cur.offset(), 0);
    assert_eq!(cur.next_byte(), Ok(1));
    assert_eq!(cur.next_pair(), Ok((2, 3)));
    assert!(cur.is_empty());
    assert_eq!(cur.peek(), None);
    assert_eq!(cur.next_byte(), Err(DecodeError::UnexpectedEndOfStream));
    assert_eq!(cur.offset(), 3);
}

#[test]
fn cursor_take_past_end_consumes_nothing() {
    let bytes = [7u8, 8];
    let mut cur = Cursor::new(&bytes);
    assert_eq!(cur.take(3), Err(DecodeError::UnexpectedEndOfStream));
    assert_eq!(cur.offset(), 0);
    assert_eq!(cur.take(2), Ok(&bytes[..]));
    assert_eq!(cur.offset(), 2);
}

#[test]
fn numeric_helpers() {
    assert_eq!(sign_extend_byte(0xFF), -1);
    assert_eq!(sign_extend_byte(0x80), -128);
    assert_eq!(sign_extend_byte(0x7F), 127);
    assert_eq!(word_of(0x34, 0x12), 0x1234);
    assert_eq!(signed_word(0xFFFE), -2);
    assert_eq!(signed_word(0x7FFF), 32767);
}

#[test]
fn operand_rendering() {
    assert_eq!(render_operand(&Operand::Immediate { value: 0 }), "0");
    assert_eq!(render_operand(&Operand::Immediate { value: -305 }), "-305");
    assert_eq!(render_operand(&Operand::Direct { address: 0 }), "[0]");
    assert_eq!(render_operand(&Operand::Memory { base: 2, disp: 0 }), "[bp+si]");
    assert_eq!(render_operand(&Operand::Memory { base: 3, disp: 9 }), "[bp+di + 9]");
    assert_eq!(render_operand(&Operand::Register { index: 4, wide: true }), "sp");
}
