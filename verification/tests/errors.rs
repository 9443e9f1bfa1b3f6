use dissasemble_mov::dissasemble;
use dissasemble_mov::disassemble;
use dissasemble_mov::DecodeError;

#[test]
fn two_instructions_then_stray_byte() {
    // exactly two concatenated encodings decode to exactly two lines
    let two = [0x89, 0xD9, 0x88, 0xC6];
    let text = dissasemble(&two).unwrap();
    assert_eq!(text, "mov cx, bx\nmov dh, al\n");
    assert_eq!(text.lines().count(), 2);
    // one stray byte appended makes the whole decode fail instead of
    // silently truncating the output to two lines
    let with_stray = [0x89, 0xD9, 0x88, 0xC6, 0xB1];
    let err = dissasemble(&with_stray).unwrap_err();
    assert!(matches!(
        err,
        DecodeError::TruncatedInstruction | DecodeError::UnrecognizedOpcode { .. }
    ));
}

#[test]
fn unrecognized_opcode_reports_position() {
    // 0x00 matches no mov form
    assert_eq!(
        dissasemble(&[0x00]).unwrap_err(),
        DecodeError::UnrecognizedOpcode { position: 0 }
    );
    // after one good instruction, the position points at the bad byte
    assert_eq!(
        dissasemble(&[0x89, 0xD9, 0xFF]).unwrap_err(),
        DecodeError::UnrecognizedOpcode { position: 2 }
    );
}

#[test]
fn unrecognized_immediate_form_reg_field() {
    // 0xC6 demands a zero reg field in its second byte; 0x08 has reg=001
    assert_eq!(
        dissasemble(&[0xC6, 0x08, 0x07]).unwrap_err(),
        DecodeError::UnrecognizedOpcode { position: 1 }
    );
}

#[test]
fn unrecognized_segment_form_flag_bit() {
    // 0x8E demands a zero bit after the mode field; 0x20 sets it
    assert_eq!(
        dissasemble(&[0x8E, 0x20]).unwrap_err(),
        DecodeError::UnrecognizedOpcode { position: 1 }
    );
    assert_eq!(
        dissasemble(&[0x8C, 0x20]).unwrap_err(),
        DecodeError::UnrecognizedOpcode { position: 1 }
    );
}

#[test]
fn truncated_instructions() {
    // a lone opcode byte
    assert_eq!(dissasemble(&[0x89]).unwrap_err(), DecodeError::TruncatedInstruction);
    // a word immediate cut short after one data byte
    assert_eq!(dissasemble(&[0xB9, 0x0C]).unwrap_err(), DecodeError::TruncatedInstruction);
    // a direct address cut short in its displacement
    assert_eq!(dissasemble(&[0x8B, 0x2E, 0xE8]).unwrap_err(), DecodeError::TruncatedInstruction);
    // a byte displacement missing entirely
    assert_eq!(dissasemble(&[0x8B, 0x56]).unwrap_err(), DecodeError::TruncatedInstruction);
    // an accumulator form's 16-bit address cut short, at either width
    assert_eq!(dissasemble(&[0xA0, 0x05]).unwrap_err(), DecodeError::TruncatedInstruction);
    assert_eq!(dissasemble(&[0xA1, 0x05]).unwrap_err(), DecodeError::TruncatedInstruction);
}

#[test]
fn empty_input_is_an_error() {
    assert_eq!(dissasemble(&[]).unwrap_err(), DecodeError::TruncatedInstruction);
}

#[test]
fn split_entry_point_agrees() {
    assert_eq!(disassemble(&[0x89, 0xD9]).unwrap(), "mov cx, bx\n");
    assert_eq!(
        disassemble(&[0x00]).unwrap_err(),
        DecodeError::UnrecognizedOpcode { position: 0 }
    );
}
