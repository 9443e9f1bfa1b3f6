use dissasemble_mov::dissasemble;

fn run_case(bytes: &[u8], answer: &str) {
    let result = dissasemble(bytes).unwrap();
    let mut result_lines = result.lines();
    for answer_line in answer.lines().filter(|s| s.starts_with("mov")) {
        assert_eq!(answer_line, result_lines.next().unwrap());
    }
    assert!(result_lines.next().is_none());
}

#[test]
fn single_register_mov() {
    let bytes = vec![0x89, 0xD9];
    let answer = "bits 16\n\nmov cx, bx\n";
    run_case(&bytes, answer);
}

#[test]
fn many_register_move() {
    let bytes = vec![
        0x89, 0xD9, // mov cx, bx
        0x88, 0xE5, // mov ch, ah
        0x89, 0xDA, // mov dx, bx
        0x89, 0xDE, // mov si, bx
        0x89, 0xFB, // mov bx, di
        0x88, 0xC8, // mov al, cl
        0x88, 0xED, // mov ch, ch
        0x89, 0xC3, // mov bx, ax
        0x89, 0xF3, // mov bx, si
        0x89, 0xFC, // mov sp, di
        0x89, 0xC5, // mov bp, ax
    ];
    let answer = "bits 16\n\nmov cx, bx\nmov ch, ah\nmov dx, bx\nmov si, bx\nmov bx, di\n\
                  mov al, cl\nmov ch, ch\nmov bx, ax\nmov bx, si\nmov sp, di\nmov bp, ax\n";
    run_case(&bytes, answer);
}

#[test]
fn more_movs() {
    let bytes = vec![
        0x89, 0xDE, // mov si, bx
        0x88, 0xC6, // mov dh, al
        0xB1, 0x0C, // mov cl, 12
        0xB5, 0xF4, // mov ch, -12
        0xB9, 0x0C, 0x00, // mov cx, 12
        0xB9, 0xF4, 0xFF, // mov cx, -12
        0xBA, 0x6C, 0x0F, // mov dx, 3948
        0xBA, 0x94, 0xF0, // mov dx, -3948
        0x8A, 0x00, // mov al, [bx + si]
        0x8B, 0x1B, // mov bx, [bp + di]
        0x8B, 0x56, 0x00, // mov dx, [bp]
        0x8A, 0x60, 0x04, // mov ah, [bx + si + 4]
        0x8A, 0x80, 0x87, 0x13, // mov al, [bx + si + 4999]
        0x89, 0x09, // mov [bx + di], cx
        0x88, 0x0A, // mov [bp + si], cl
        0x88, 0x6E, 0x00, // mov [bp], ch
    ];
    let answer = "bits 16\n\nmov si, bx\nmov dh, al\nmov cl, 12\nmov ch, -12\nmov cx, 12\n\
                  mov cx, -12\nmov dx, 3948\nmov dx, -3948\nmov al, [bx + si]\n\
                  mov bx, [bp + di]\nmov dx, [bp]\nmov ah, [bx + si + 4]\n\
                  mov al, [bx + si + 4999]\nmov [bx + di], cx\nmov [bp + si], cl\nmov [bp], ch\n";
    run_case(&bytes, answer);
}

#[test]
fn challenge_movs() {
    let bytes = vec![
        0x8B, 0x41, 0xDB, // mov ax, [bx + di - 37]
        0x89, 0x8C, 0xD4, 0xFE, // mov [si - 300], cx
        0x8B, 0x57, 0xE0, // mov dx, [bx - 32]
        0xC6, 0x03, 0x07, // mov [bp + di], byte 7
        0xC7, 0x85, 0x85, 0x03, 0x5B, 0x01, // mov [di + 901], word 347
        0x8B, 0x2E, 0x05, 0x00, // mov bp, [5]
        0x8B, 0x1E, 0x82, 0x0D, // mov bx, [3458]
        0xA1, 0xFB, 0x09, // mov ax, [2555]
        0xA1, 0x10, 0x00, // mov ax, [16]
        0xA3, 0xFA, 0x09, // mov [2554], ax
        0xA3, 0x0F, 0x00, // mov [15], ax
    ];
    let answer = "bits 16\n\nmov ax, [bx + di - 37]\nmov [si - 300], cx\nmov dx, [bx - 32]\n\
                  mov [bp + di], byte 7\nmov [di + 901], word 347\nmov bp, [5]\nmov bx, [3458]\n\
                  mov ax, [2555]\nmov ax, [16]\nmov [2554], ax\nmov [15], ax\n";
    run_case(&bytes, answer);
}
