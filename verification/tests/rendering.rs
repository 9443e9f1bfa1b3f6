use dissasemble_mov::dissasemble;

#[test]
fn register_to_register_line() {
    // 0x89 0xD9: register/memory to/from register, w=1, mode=11, reg=bx, rm=cx
    assert_eq!(dissasemble(&[0x89, 0xD9]).unwrap(), "mov cx, bx\n");
}

#[test]
fn immediate_to_register_line() {
    // 0xB1 0x0C: immediate to register, w=0, reg=001
    assert_eq!(dissasemble(&[0xB1, 0x0C]).unwrap(), "mov cl, 12\n");
}

#[test]
fn negative_displacement_sign_rendering() {
    // base bx+si with displacement -5 renders with the minus operator and the
    // absolute value, never a negative number after a plus
    assert_eq!(dissasemble(&[0x8B, 0x40, 0xFB]).unwrap(), "mov ax, [bx + si - 5]\n");
}

#[test]
fn direct_address_special_case() {
    // selector 110 under mode 00 is a bare direct address, not [bp + 1000]
    assert_eq!(dissasemble(&[0x8B, 0x2E, 0xE8, 0x03]).unwrap(), "mov bp, [1000]\n");
}

#[test]
fn explicit_byte_immediate() {
    // memory destination with byte width forces the `byte` keyword
    assert_eq!(dissasemble(&[0xC6, 0x03, 0x07]).unwrap(), "mov [bp + di], byte 7\n");
}

#[test]
fn explicit_word_immediate() {
    // memory destination with word width forces the `word` keyword
    assert_eq!(dissasemble(&[0xC7, 0x03, 0x07, 0x00]).unwrap(), "mov [bp + di], word 7\n");
}

#[test]
fn implicit_immediate_to_register_destination() {
    // 0xC7 with mode=11: the destination is a register, so no size keyword
    assert_eq!(dissasemble(&[0xC7, 0xC3, 0x07, 0x00]).unwrap(), "mov bx, 7\n");
}

#[test]
fn register_table_all_identities() {
    // every identity of the register table, via immediate-to-register loads
    let byte_names = ["al", "cl", "dl", "bl", "ah", "ch", "dh", "bh"];
    for (code, name) in byte_names.iter().enumerate() {
        let opcode = 0xB0 + code as u8;
        let text = dissasemble(&[opcode, 0x00]).unwrap();
        assert_eq!(text, format!("mov {}, 0\n", name));
    }
    let word_names = ["ax", "cx", "dx", "bx", "sp", "bp", "si", "di"];
    for (code, name) in word_names.iter().enumerate() {
        let opcode = 0xB8 + code as u8;
        let text = dissasemble(&[opcode, 0x00, 0x00]).unwrap();
        assert_eq!(text, format!("mov {}, 0\n", name));
    }
}

#[test]
fn negative_immediates() {
    assert_eq!(dissasemble(&[0xB5, 0xF4]).unwrap(), "mov ch, -12\n");
    assert_eq!(dissasemble(&[0xB9, 0xF4, 0xFF]).unwrap(), "mov cx, -12\n");
    // the most negative word immediate
    assert_eq!(dissasemble(&[0xB9, 0x00, 0x80]).unwrap(), "mov cx, -32768\n");
}

#[test]
fn most_negative_displacement() {
    // displacement -32768: its absolute value still renders after the minus
    assert_eq!(dissasemble(&[0x8B, 0x80, 0x00, 0x80]).unwrap(), "mov ax, [bx + si - 32768]\n");
}

#[test]
fn base_with_zero_displacement() {
    // mode 01 with displacement 0 renders the bare base expression
    assert_eq!(dissasemble(&[0x8B, 0x56, 0x00]).unwrap(), "mov dx, [bp]\n");
}

#[test]
fn accumulator_forms() {
    assert_eq!(dissasemble(&[0xA1, 0xFB, 0x09]).unwrap(), "mov ax, [2555]\n");
    assert_eq!(dissasemble(&[0xA3, 0x0F, 0x00]).unwrap(), "mov [15], ax\n");
    // byte-width accumulator forms carry the same bare 16-bit address
    assert_eq!(dissasemble(&[0xA0, 0x05, 0x00]).unwrap(), "mov al, [5]\n");
    assert_eq!(dissasemble(&[0xA2, 0x05, 0x00]).unwrap(), "mov [5], al\n");
    assert_eq!(dissasemble(&[0xA0, 0x34, 0x12]).unwrap(), "mov al, [4660]\n");
}

#[test]
fn segment_register_forms() {
    // 0x8E 0xC1: register cx to segment register es
    assert_eq!(dissasemble(&[0x8E, 0xC1]).unwrap(), "mov es, cx\n");
    // 0x8C 0xD8: segment register ds to register ax
    assert_eq!(dissasemble(&[0x8C, 0xD8]).unwrap(), "mov ax, ds\n");
    let segment_names = ["es", "cs", "ss", "ds"];
    for (code, name) in segment_names.iter().enumerate() {
        let modrm = 0xC0 + (code as u8) * 8;
        let text = dissasemble(&[0x8E, modrm]).unwrap();
        assert_eq!(text, format!("mov {}, ax\n", name));
    }
    // a segment form with a memory operand
    assert_eq!(dissasemble(&[0x8E, 0x10]).unwrap(), "mov ss, [bx + si]\n");
}

#[test]
fn direction_bit_swaps_operands() {
    // same mode/reg/rm byte, both directions
    assert_eq!(dissasemble(&[0x88, 0x28]).unwrap(), "mov [bx + si], ch\n");
    assert_eq!(dissasemble(&[0x8A, 0x28]).unwrap(), "mov ch, [bx + si]\n");
}
