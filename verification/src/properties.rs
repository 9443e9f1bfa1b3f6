use vstd::prelude::*;

use crate::display::spec_decimal;
use crate::display::spec_register_name;
use crate::display::spec_render_location;
use crate::model::DataLiteral;
use crate::model::DecodeError;
use crate::model::Location;
use crate::model::MoveInstruction;
use crate::model::Register;
use crate::model::ThreeBitCode;
use crate::parse::spec_byte_or_word;
use crate::parse::spec_decode;
use crate::parse::spec_decode_from;
use crate::parse::spec_immediate_to_register_or_memory;
use crate::parse::spec_mov_instruction;
use crate::parse::spec_reg_or_mem;
use crate::parse::spec_three_bit;
use crate::parse::spec_three_bit_index;

verus! {

/// Decoding the immediate-to-register encoding built from any register
/// identity and width, then rendering the destination, reproduces exactly
/// the two-letter mnemonic that the register table assigns to that identity
/// and width, whatever the immediate's bytes hold.
pub proof fn lemma_register_round_trip(word: bool, code: ThreeBitCode, lo: u8, hi: u8)
    ensures
        ({
            let opcode = (0xB0 + (if word {
                8int
            } else {
                0int
            }) + spec_three_bit_index(code)) as u8;
            let s = if word {
                seq![opcode, lo, hi]
            } else {
                seq![opcode, lo]
            };
            &&& spec_decode(s) is Ok
            &&& spec_decode(s)->Ok_0.len() == 1
            &&& spec_decode(s)->Ok_0[0].destination == Location::Register(Register { word, code })
            &&& spec_render_location(spec_decode(s)->Ok_0[0].destination) == spec_register_name(
                word,
                code,
            )
        }),
{
    let w8: int = if word {
        8
    } else {
        0
    };
    let idx = spec_three_bit_index(code);
    assert(0 <= idx < 8);
    let opcode = (0xB0 + w8 + idx) as u8;
    assert(opcode == 0xB0 + w8 + idx);
    assert(opcode / 16 == 0x0B) by (nonlinear_arith)
        requires
            opcode == 0xB0 + w8 + idx,
            0 <= idx < 8,
            w8 == 0 || w8 == 8,
    ;
    assert(opcode / 4 != 0x22) by (nonlinear_arith)
        requires
            opcode == 0xB0 + w8 + idx,
            0 <= idx < 8,
            w8 == 0 || w8 == 8,
    ;
    assert(opcode / 2 != 0x63) by (nonlinear_arith)
        requires
            opcode == 0xB0 + w8 + idx,
            0 <= idx < 8,
            w8 == 0 || w8 == 8,
    ;
    assert((opcode / 8) % 2 == w8 / 8) by (nonlinear_arith)
        requires
            opcode == 0xB0 + w8 + idx,
            0 <= idx < 8,
            w8 == 0 || w8 == 8,
    ;
    assert(opcode % 8 == idx) by (nonlinear_arith)
        requires
            opcode == 0xB0 + w8 + idx,
            0 <= idx < 8,
            w8 == 0 || w8 == 8,
    ;
    assert(spec_three_bit(idx) == code);
    let s = if word {
        seq![opcode, lo, hi]
    } else {
        seq![opcode, lo]
    };
    assert(s[0] == opcode && s.len() == (if word {
        3int
    } else {
        2int
    }));
    let form = crate::parse::spec_immediate_to_register(s, 0);
    assert(spec_mov_instruction(s, 0) == form);
    assert(crate::parse::spec_byte_or_word(s, 1, word) is Ok && crate::parse::spec_byte_or_word(
        s,
        1,
        word,
    )->Ok_0.1 == s.len());
    assert(form is Ok && form->Ok_0.1 == s.len());
    let inst = form->Ok_0.0;
    assert(inst.destination == Location::Register(Register { word, code }));
    reveal_with_fuel(crate::parse::spec_decode_from, 3);
    assert(spec_decode(s) == Ok::<_, DecodeError>(seq![inst] + Seq::<MoveInstruction>::empty()));
    assert(seq![inst] + Seq::<MoveInstruction>::empty() =~= seq![inst]);
    assert(spec_decode(s) == Ok::<_, DecodeError>(seq![inst]));
}

/// An immediate-to-register/memory instruction carries its immediate, read
/// after the displacement by the width rule, and gives it an explicit size
/// keyword exactly when the destination is a memory computation: the
/// literal is `ExplicitByte` if and only if the destination is memory and
/// the width flag is byte, rendering as `byte <n>`; `ExplicitWord` if and
/// only if the destination is memory and the width flag is word, rendering
/// as `word <n>`; and `Implicit` if and only if the destination is a plain
/// register, rendering bare.
pub proof fn lemma_explicit_width_immediates(s: Seq<u8>, i: int)
    requires
        0 <= i < s.len(),
        s[i] / 2 == 0x63,
        spec_immediate_to_register_or_memory(s, i) is Ok,
    ensures
        ({
            let word = s[i] % 2 == 1;
            let inst = spec_immediate_to_register_or_memory(s, i)->Ok_0.0;
            let end = spec_immediate_to_register_or_memory(s, i)->Ok_0.1;
            let data_pos = end - (if word {
                2int
            } else {
                1int
            });
            let data = spec_byte_or_word(s, data_pos, word);
            &&& inst.source is DataLiteral
            &&& inst.destination is MemoryCalc || inst.destination is Register
            &&& data is Ok && data->Ok_0.1 == end
            &&& (inst.source->DataLiteral_0 is ExplicitByte <==> inst.destination is MemoryCalc
                && !word)
            &&& (inst.source->DataLiteral_0 is ExplicitWord <==> inst.destination is MemoryCalc
                && word)
            &&& (inst.source->DataLiteral_0 is Implicit <==> inst.destination is Register)
            &&& (inst.destination is MemoryCalc && !word ==> inst.source == Location::DataLiteral(
                DataLiteral::ExplicitByte(data->Ok_0.0),
            ) && spec_render_location(inst.source) == "byte "@ + spec_decimal(data->Ok_0.0 as int))
            &&& (inst.destination is MemoryCalc && word ==> inst.source == Location::DataLiteral(
                DataLiteral::ExplicitWord(data->Ok_0.0),
            ) && spec_render_location(inst.source) == "word "@ + spec_decimal(data->Ok_0.0 as int))
            &&& (inst.destination is Register ==> inst.source == Location::DataLiteral(
                DataLiteral::Implicit(data->Ok_0.0),
            ) && spec_render_location(inst.source) == spec_decimal(data->Ok_0.0 as int))
        }),
{
}

/// A decoded instruction advances the cursor and never reads past the end
/// of the buffer.
pub proof fn lemma_mov_instruction_advances(s: Seq<u8>, i: int)
    requires
        0 <= i < s.len(),
        spec_mov_instruction(s, i) is Ok,
    ensures
        i < spec_mov_instruction(s, i)->Ok_0.1 <= s.len(),
{
}

/// A single trailing byte is never a complete instruction: at the last
/// position of a buffer, decoding always fails.
pub proof fn lemma_trailing_fragment(s: Seq<u8>, i: int)
    requires
        0 <= i,
        i == s.len() - 1,
    ensures
        spec_mov_instruction(s, i) is Err,
{
}

/// A width-dependent literal that decodes inside a buffer decodes the same
/// after more bytes are appended.
proof fn lemma_byte_or_word_extend(s: Seq<u8>, u: Seq<u8>, i: int, word: bool)
    requires
        0 <= i,
        spec_byte_or_word(s, i, word) is Ok,
    ensures
        spec_byte_or_word(s + u, i, word) == spec_byte_or_word(s, i, word),
{
}

/// A register-or-memory operand that decodes inside a buffer decodes the
/// same after more bytes are appended.
proof fn lemma_reg_or_mem_extend(s: Seq<u8>, u: Seq<u8>, i: int, word: bool, mode: int, rm: int)
    requires
        0 <= i,
        0 <= mode < 4,
        0 <= rm < 8,
        spec_reg_or_mem(s, i, word, mode, rm) is Ok,
    ensures
        spec_reg_or_mem(s + u, i, word, mode, rm) == spec_reg_or_mem(s, i, word, mode, rm),
{
}

/// An instruction that decodes inside a buffer decodes the same after more
/// bytes are appended: decoding reads nothing beyond the bytes it consumes.
pub proof fn lemma_mov_instruction_extend(s: Seq<u8>, u: Seq<u8>, i: int)
    requires
        0 <= i < s.len(),
        spec_mov_instruction(s, i) is Ok,
    ensures
        spec_mov_instruction(s + u, i) == spec_mov_instruction(s, i),
{
    let t = s + u;
    assert(t[i] == s[i]);
    let b0 = s[i];
    if b0 / 4 == 0x22 {
        assert(i + 2 <= s.len());
        let b1 = s[i + 1];
        assert(t[i + 1] == b1);
        let word = b0 % 2 == 1;
        lemma_reg_or_mem_extend(s, u, i + 2, word, (b1 / 64) as int, (b1 % 8) as int);
    } else if b0 / 2 == 0x63 {
        assert(i + 2 <= s.len());
        let b1 = s[i + 1];
        assert(t[i + 1] == b1);
        let word = b0 % 2 == 1;
        assert((b1 / 8) % 8 == 0);
        let inner = spec_reg_or_mem(s, i + 2, word, (b1 / 64) as int, (b1 % 8) as int);
        assert(inner is Ok);
        lemma_reg_or_mem_extend(s, u, i + 2, word, (b1 / 64) as int, (b1 % 8) as int);
        lemma_byte_or_word_extend(s, u, inner->Ok_0.1, word);
    } else if b0 / 16 == 0x0B {
        let word = (b0 / 8) % 2 == 1;
        lemma_byte_or_word_extend(s, u, i + 1, word);
    } else if b0 / 2 == 0x50 {
        lemma_byte_or_word_extend(s, u, i + 1, true);
    } else if b0 / 2 == 0x51 {
        lemma_byte_or_word_extend(s, u, i + 1, true);
    } else if b0 == 0x8E {
        assert(i + 2 <= s.len());
        let b1 = s[i + 1];
        assert(t[i + 1] == b1);
        lemma_reg_or_mem_extend(s, u, i + 2, true, (b1 / 64) as int, (b1 % 8) as int);
    } else if b0 == 0x8C {
        assert(i + 2 <= s.len());
        let b1 = s[i + 1];
        assert(t[i + 1] == b1);
        lemma_reg_or_mem_extend(s, u, i + 2, true, (b1 / 64) as int, (b1 % 8) as int);
    }
}

/// A buffer holding exactly two back-to-back valid encodings decodes to
/// exactly those two instructions, in order.
pub proof fn lemma_two_instructions(s: Seq<u8>)
    requires
        s.len() > 0,
        spec_mov_instruction(s, 0) is Ok,
        spec_mov_instruction(s, 0)->Ok_0.1 < s.len(),
        spec_mov_instruction(s, spec_mov_instruction(s, 0)->Ok_0.1) is Ok,
        spec_mov_instruction(s, spec_mov_instruction(s, 0)->Ok_0.1)->Ok_0.1 == s.len(),
    ensures
        spec_decode(s) == Ok::<_, DecodeError>(
            seq![
                spec_mov_instruction(s, 0)->Ok_0.0,
                spec_mov_instruction(s, spec_mov_instruction(s, 0)->Ok_0.1)->Ok_0.0,
            ],
        ),
{
    let j = spec_mov_instruction(s, 0)->Ok_0.1;
    let i1 = spec_mov_instruction(s, 0)->Ok_0.0;
    let i2 = spec_mov_instruction(s, j)->Ok_0.0;
    lemma_mov_instruction_advances(s, 0);
    lemma_mov_instruction_advances(s, j);
    reveal_with_fuel(spec_decode_from, 4);
    assert(spec_decode_from(s, s.len() as int) == Ok::<_, DecodeError>(Seq::<
        MoveInstruction,
    >::empty()));
    assert(spec_decode_from(s, j) == Ok::<_, DecodeError>(seq![i2] + Seq::<
        MoveInstruction,
    >::empty()));
    assert(spec_decode_from(s, 0) == Ok::<_, DecodeError>(
        seq![i1] + (seq![i2] + Seq::<MoveInstruction>::empty()),
    ));
    assert(seq![i1] + (seq![i2] + Seq::<MoveInstruction>::empty()) =~= seq![i1, i2]);
}

/// Decoding a buffer that a stray byte was appended to fails: the appended
/// byte begins an instruction that cannot complete, so the decode is never
/// silently cut down to the instructions before it.
proof fn lemma_decode_from_push_fails(s: Seq<u8>, b: u8, i: int)
    requires
        0 <= i <= s.len(),
        spec_decode_from(s, i) is Ok,
    ensures
        spec_decode_from(s.push(b), i) is Err,
    decreases s.len() - i,
{
    let t = s.push(b);
    assert(t =~= s + seq![b]);
    if i == s.len() {
        lemma_trailing_fragment(t, i);
    } else {
        let step = spec_mov_instruction(s, i);
        assert(step is Ok);
        let j = step->Ok_0.1;
        lemma_mov_instruction_advances(s, i);
        lemma_mov_instruction_extend(s, seq![b], i);
        assert(spec_mov_instruction(t, i) == step);
        assert(spec_decode_from(s, j) is Ok);
        lemma_decode_from_push_fails(s, b, j);
    }
}

/// Appending one stray byte to a buffer that decodes completely makes the
/// whole decode fail rather than yield the instructions before the stray
/// byte.
pub proof fn lemma_stray_byte_fails(s: Seq<u8>, b: u8)
    requires
        spec_decode(s) is Ok,
    ensures
        spec_decode(s.push(b)) is Err,
{
    assert(s.len() > 0);
    lemma_decode_from_push_fails(s, b, 0);
}

} // verus!
