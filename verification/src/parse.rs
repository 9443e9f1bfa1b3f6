use vstd::prelude::*;

use crate::display;
use crate::model::Accumulator;
use crate::model::DataLiteral;
use crate::model::DecodeError;
use crate::model::Location;
use crate::model::MemoryCalc;
use crate::model::MemoryLiteral;
use crate::model::MoveInstruction;
use crate::model::Register;
use crate::model::SegmentRegister;
use crate::model::ThreeBitCode;

verus! {

// ---------------------------------------------------------------------------
// The encoding, stated as specification functions.
//
// Every `mov` encoding starts with an opcode byte; the seven recognized
// forms are disjoint on that byte. Field extraction is written with `/` and
// `%` by powers of two: the opcode's low bits and the fields of a following
// mode/reg/rm byte.
// ---------------------------------------------------------------------------

/// The value of a byte read as a sign-extended 8-bit integer.
pub open spec fn spec_sign_extend(b: u8) -> int {
    if b >= 128 {
        b - 256
    } else {
        b as int
    }
}

/// The value of two bytes read as a little-endian signed 16-bit integer.
pub open spec fn spec_word_value(lo: u8, hi: u8) -> int {
    lo + 256 * spec_sign_extend(hi)
}

/// The register or base-expression selector held in a 3-bit field value.
pub open spec fn spec_three_bit(b: int) -> ThreeBitCode
    recommends
        0 <= b < 8,
{
    if b == 0 {
        ThreeBitCode::_000
    } else if b == 1 {
        ThreeBitCode::_001
    } else if b == 2 {
        ThreeBitCode::_010
    } else if b == 3 {
        ThreeBitCode::_011
    } else if b == 4 {
        ThreeBitCode::_100
    } else if b == 5 {
        ThreeBitCode::_101
    } else if b == 6 {
        ThreeBitCode::_110
    } else {
        ThreeBitCode::_111
    }
}

/// The 3-bit field value that selects a given register or base expression:
/// the inverse of `spec_three_bit`.
pub open spec fn spec_three_bit_index(code: ThreeBitCode) -> int {
    match code {
        ThreeBitCode::_000 => 0,
        ThreeBitCode::_001 => 1,
        ThreeBitCode::_010 => 2,
        ThreeBitCode::_011 => 3,
        ThreeBitCode::_100 => 4,
        ThreeBitCode::_101 => 5,
        ThreeBitCode::_110 => 6,
        ThreeBitCode::_111 => 7,
    }
}

/// The segment register held in a 2-bit field value.
pub open spec fn spec_segment(b: int) -> SegmentRegister
    recommends
        0 <= b < 4,
{
    if b == 0 {
        SegmentRegister::_00
    } else if b == 1 {
        SegmentRegister::_01
    } else if b == 2 {
        SegmentRegister::_10
    } else {
        SegmentRegister::_11
    }
}

/// A width-dependent literal at position `i`: a word operation consumes a
/// 16-bit little-endian signed integer, a byte operation one byte,
/// sign-extended. This rule applies uniformly to immediates and
/// displacements.
pub open spec fn spec_byte_or_word(s: Seq<u8>, i: int, word: bool) -> Result<
    (i16, int),
    DecodeError,
>
    recommends
        0 <= i,
{
    if word {
        if i + 2 <= s.len() {
            Ok((spec_word_value(s[i], s[i + 1]) as i16, i + 2))
        } else {
            Err(DecodeError::TruncatedInstruction)
        }
    } else {
        if i + 1 <= s.len() {
            Ok((spec_sign_extend(s[i]) as i16, i + 1))
        } else {
            Err(DecodeError::TruncatedInstruction)
        }
    }
}

/// The register-or-memory operand selected by a 2-bit mode and a 3-bit
/// selector, consuming a displacement from position `i` as the mode asks:
/// mode 3 is a plain register; mode 0 has no displacement, except selector 6,
/// the direct-address special case, which consumes a 16-bit address; mode 1
/// consumes one sign-extended byte; mode 2 a 16-bit word.
pub open spec fn spec_reg_or_mem(s: Seq<u8>, i: int, word: bool, mode: int, rm: int) -> Result<
    (Location, int),
    DecodeError,
>
    recommends
        0 <= i,
        0 <= mode < 4,
        0 <= rm < 8,
{
    if mode == 3 {
        Ok((Location::Register(Register { word, code: spec_three_bit(rm) }), i))
    } else if mode == 0 && rm != 6 {
        Ok(
            (
                Location::MemoryCalc(
                    MemoryCalc { displacement: None, mode_is_0: true, code: spec_three_bit(rm) },
                ),
                i,
            ),
        )
    } else if mode == 1 {
        if i + 1 <= s.len() {
            Ok(
                (
                    Location::MemoryCalc(
                        MemoryCalc {
                            displacement: Some(spec_sign_extend(s[i]) as i16),
                            mode_is_0: false,
                            code: spec_three_bit(rm),
                        },
                    ),
                    i + 1,
                ),
            )
        } else {
            Err(DecodeError::TruncatedInstruction)
        }
    } else {
        if i + 2 <= s.len() {
            Ok(
                (
                    Location::MemoryCalc(
                        MemoryCalc {
                            displacement: Some(spec_word_value(s[i], s[i + 1]) as i16),
                            mode_is_0: mode == 0,
                            code: spec_three_bit(rm),
                        },
                    ),
                    i + 2,
                ),
            )
        } else {
            Err(DecodeError::TruncatedInstruction)
        }
    }
}

/// Form `100010 d w`: register/memory to or from register. The `d` bit
/// selects which operand is the destination.
pub open spec fn spec_register_or_memory_to_or_from_register(s: Seq<u8>, i: int) -> Result<
    (MoveInstruction, int),
    DecodeError,
>
    recommends
        0 <= i < s.len(),
        s[i] / 4 == 0x22,
{
    let b0 = s[i];
    let reg_is_destination = (b0 / 2) % 2 == 1;
    let word = b0 % 2 == 1;
    if i + 2 <= s.len() {
        let b1 = s[i + 1];
        match spec_reg_or_mem(s, i + 2, word, (b1 / 64) as int, (b1 % 8) as int) {
            Ok((reg_or_mem, j)) => {
                let reg_loc = Location::Register(
                    Register { word, code: spec_three_bit(((b1 / 8) % 8) as int) },
                );
                if reg_is_destination {
                    Ok((MoveInstruction { source: reg_or_mem, destination: reg_loc }, j))
                } else {
                    Ok((MoveInstruction { source: reg_loc, destination: reg_or_mem }, j))
                }
            },
            Err(e) => Err(e),
        }
    } else {
        Err(DecodeError::TruncatedInstruction)
    }
}

/// Form `1100011 w`: immediate to register/memory. The reg field of the
/// second byte must be zero; the literal is rendered with an explicit size
/// keyword exactly when the destination is a memory computation.
pub open spec fn spec_immediate_to_register_or_memory(s: Seq<u8>, i: int) -> Result<
    (MoveInstruction, int),
    DecodeError,
>
    recommends
        0 <= i < s.len(),
        s[i] / 2 == 0x63,
{
    let word = s[i] % 2 == 1;
    if i + 2 <= s.len() {
        let b1 = s[i + 1];
        if (b1 / 8) % 8 != 0 {
            Err(DecodeError::UnrecognizedOpcode { position: (i + 1) as usize })
        } else {
            match spec_reg_or_mem(s, i + 2, word, (b1 / 64) as int, (b1 % 8) as int) {
                Ok((destination, j)) => match spec_byte_or_word(s, j, word) {
                    Ok((value, k)) => {
                        let literal = if destination is MemoryCalc {
                            if word {
                                DataLiteral::ExplicitWord(value)
                            } else {
                                DataLiteral::ExplicitByte(value)
                            }
                        } else {
                            DataLiteral::Implicit(value)
                        };
                        Ok(
                            (
                                MoveInstruction {
                                    source: Location::DataLiteral(literal),
                                    destination,
                                },
                                k,
                            ),
                        )
                    },
                    Err(e) => Err(e),
                },
                Err(e) => Err(e),
            }
        }
    } else {
        Err(DecodeError::TruncatedInstruction)
    }
}

/// Form `1011 w reg`: immediate to register, with the register identity
/// packed into the opcode byte.
pub open spec fn spec_immediate_to_register(s: Seq<u8>, i: int) -> Result<
    (MoveInstruction, int),
    DecodeError,
>
    recommends
        0 <= i < s.len(),
        s[i] / 16 == 0x0B,
{
    let b0 = s[i];
    let word = (b0 / 8) % 2 == 1;
    match spec_byte_or_word(s, i + 1, word) {
        Ok((value, j)) => Ok(
            (
                MoveInstruction {
                    source: Location::DataLiteral(DataLiteral::Implicit(value)),
                    destination: Location::Register(
                        Register { word, code: spec_three_bit((b0 % 8) as int) },
                    ),
                },
                j,
            ),
        ),
        Err(e) => Err(e),
    }
}

/// Form `1010000 w`: memory to accumulator. The address is a bare 16-bit
/// little-endian literal at either width; the width flag only selects
/// `al` or `ax`.
pub open spec fn spec_memory_to_accumulator(s: Seq<u8>, i: int) -> Result<
    (MoveInstruction, int),
    DecodeError,
>
    recommends
        0 <= i < s.len(),
        s[i] / 2 == 0x50,
{
    let word = s[i] % 2 == 1;
    match spec_byte_or_word(s, i + 1, true) {
        Ok((addr, j)) => Ok(
            (
                MoveInstruction {
                    source: Location::MemoryLiteral(MemoryLiteral(addr)),
                    destination: Location::Accumulator(Accumulator { word }),
                },
                j,
            ),
        ),
        Err(e) => Err(e),
    }
}

/// Form `1010001 w`: accumulator to memory, symmetric to the form above.
pub open spec fn spec_accumulator_to_memory(s: Seq<u8>, i: int) -> Result<
    (MoveInstruction, int),
    DecodeError,
>
    recommends
        0 <= i < s.len(),
        s[i] / 2 == 0x51,
{
    let word = s[i] % 2 == 1;
    match spec_byte_or_word(s, i + 1, true) {
        Ok((addr, j)) => Ok(
            (
                MoveInstruction {
                    source: Location::Accumulator(Accumulator { word }),
                    destination: Location::MemoryLiteral(MemoryLiteral(addr)),
                },
                j,
            ),
        ),
        Err(e) => Err(e),
    }
}

/// Form `10001110`: register/memory to segment register. The bit after the
/// mode field must be zero; the width is always word.
pub open spec fn spec_register_or_memory_to_segment_register(s: Seq<u8>, i: int) -> Result<
    (MoveInstruction, int),
    DecodeError,
>
    recommends
        0 <= i < s.len(),
        s[i] == 0x8E,
{
    if i + 2 <= s.len() {
        let b1 = s[i + 1];
        if (b1 / 32) % 2 != 0 {
            Err(DecodeError::UnrecognizedOpcode { position: (i + 1) as usize })
        } else {
            match spec_reg_or_mem(s, i + 2, true, (b1 / 64) as int, (b1 % 8) as int) {
                Ok((source, j)) => Ok(
                    (
                        MoveInstruction {
                            source,
                            destination: Location::SegmentRegister(spec_segment(((b1 / 8) % 4) as int)),
                        },
                        j,
                    ),
                ),
                Err(e) => Err(e),
            }
        }
    } else {
        Err(DecodeError::TruncatedInstruction)
    }
}

/// Form `10001100`: segment register to register/memory, symmetric to the
/// form above.
pub open spec fn spec_segment_register_to_register_or_memory(s: Seq<u8>, i: int) -> Result<
    (MoveInstruction, int),
    DecodeError,
>
    recommends
        0 <= i < s.len(),
        s[i] == 0x8C,
{
    if i + 2 <= s.len() {
        let b1 = s[i + 1];
        if (b1 / 32) % 2 != 0 {
            Err(DecodeError::UnrecognizedOpcode { position: (i + 1) as usize })
        } else {
            match spec_reg_or_mem(s, i + 2, true, (b1 / 64) as int, (b1 % 8) as int) {
                Ok((destination, j)) => Ok(
                    (
                        MoveInstruction {
                            source: Location::SegmentRegister(spec_segment(((b1 / 8) % 4) as int)),
                            destination,
                        },
                        j,
                    ),
                ),
                Err(e) => Err(e),
            }
        }
    } else {
        Err(DecodeError::TruncatedInstruction)
    }
}

/// One instruction decoded at position `i`: the first of the seven forms
/// whose opcode pattern matches the leading byte, or a decode failure. The
/// forms are disjoint on the leading byte, so the order carries no weight.
pub open spec fn spec_mov_instruction(s: Seq<u8>, i: int) -> Result<
    (MoveInstruction, int),
    DecodeError,
>
    recommends
        0 <= i < s.len(),
{
    let b0 = s[i];
    if b0 / 4 == 0x22 {
        spec_register_or_memory_to_or_from_register(s, i)
    } else if b0 / 2 == 0x63 {
        spec_immediate_to_register_or_memory(s, i)
    } else if b0 / 16 == 0x0B {
        spec_immediate_to_register(s, i)
    } else if b0 / 2 == 0x50 {
        spec_memory_to_accumulator(s, i)
    } else if b0 / 2 == 0x51 {
        spec_accumulator_to_memory(s, i)
    } else if b0 == 0x8E {
        spec_register_or_memory_to_segment_register(s, i)
    } else if b0 == 0x8C {
        spec_segment_register_to_register_or_memory(s, i)
    } else {
        Err(DecodeError::UnrecognizedOpcode { position: i as usize })
    }
}

/// The instruction sequence decoded from position `i` to the end of the
/// buffer: instructions are read back to back until the buffer is exactly
/// exhausted, and the first failure aborts the whole decode.
pub open spec fn spec_decode_from(s: Seq<u8>, i: int) -> Result<Seq<MoveInstruction>, DecodeError>
    recommends
        0 <= i <= s.len(),
    decreases s.len() - i,
{
    if i >= s.len() {
        Ok(Seq::empty())
    } else {
        match spec_mov_instruction(s, i) {
            Ok((instruction, j)) => if i < j <= s.len() {
                match spec_decode_from(s, j) {
                    Ok(rest) => Ok(seq![instruction] + rest),
                    Err(e) => Err(e),
                }
            } else {
                // never reached: a decoded instruction consumes at least its
                // opcode byte and never reads past the end of the buffer
                Err(DecodeError::TruncatedInstruction)
            },
            Err(e) => Err(e),
        }
    }
}

/// The instruction sequence decoded from a whole buffer. An empty buffer is
/// an error: the input must hold at least one instruction.
pub open spec fn spec_decode(s: Seq<u8>) -> Result<Seq<MoveInstruction>, DecodeError> {
    if s.len() == 0 {
        Err(DecodeError::TruncatedInstruction)
    } else {
        spec_decode_from(s, 0)
    }
}

/// The rendered text of a whole buffer: the decoded instructions' lines, or
/// the decode failure.
pub open spec fn spec_disassembly(s: Seq<u8>) -> Result<Seq<char>, DecodeError> {
    match spec_decode(s) {
        Ok(instructions) => Ok(display::spec_render_program(instructions)),
        Err(e) => Err(e),
    }
}

/// Whether an executable decoding step returned exactly what the
/// specification says stands at this position.
pub open spec fn step_matches<T>(
    r: Result<(T, usize), DecodeError>,
    s: Result<(T, int), DecodeError>,
) -> bool {
    match (r, s) {
        (Ok(p), Ok(q)) => p.0 == q.0 && p.1 as int == q.1,
        (Err(e), Err(f)) => e == f,
        _ => false,
    }
}

// ---------------------------------------------------------------------------
// The executable decoder.
// ---------------------------------------------------------------------------

/// The register or base-expression selector of a 3-bit field value.
fn three_bit_code(b: u8) -> (r: ThreeBitCode)
    requires
        b < 8,
    ensures
        r == spec_three_bit(b as int),
{
    match b {
        0 => ThreeBitCode::_000,
        1 => ThreeBitCode::_001,
        2 => ThreeBitCode::_010,
        3 => ThreeBitCode::_011,
        4 => ThreeBitCode::_100,
        5 => ThreeBitCode::_101,
        6 => ThreeBitCode::_110,
        _ => ThreeBitCode::_111,
    }
}

/// The segment register of a 2-bit field value.
fn segment_register(b: u8) -> (r: SegmentRegister)
    requires
        b < 4,
    ensures
        r == spec_segment(b as int),
{
    match b {
        0 => SegmentRegister::_00,
        1 => SegmentRegister::_01,
        2 => SegmentRegister::_10,
        _ => SegmentRegister::_11,
    }
}

/// One byte at `pos`, sign-extended to 16 bits.
fn byte_as_i16(bytes: &[u8], pos: usize) -> (r: Result<(i16, usize), DecodeError>)
    requires
        pos <= bytes@.len(),
    ensures
        step_matches(r, spec_byte_or_word(bytes@, pos as int, false)),
        r matches Ok(p) ==> pos < p.1 <= bytes@.len(),
{
    if bytes.len() - pos < 1 {
        return Err(DecodeError::TruncatedInstruction);
    }
    let b = bytes[pos];
    let v: i16 = if b >= 128 {
        b as i16 - 256
    } else {
        b as i16
    };
    Ok((v, pos + 1))
}

/// Two bytes at `pos`, read as a little-endian signed 16-bit integer.
fn parse_word(bytes: &[u8], pos: usize) -> (r: Result<(i16, usize), DecodeError>)
    requires
        pos <= bytes@.len(),
    ensures
        step_matches(r, spec_byte_or_word(bytes@, pos as int, true)),
        r matches Ok(p) ==> pos < p.1 <= bytes@.len(),
{
    if bytes.len() - pos < 2 {
        return Err(DecodeError::TruncatedInstruction);
    }
    let lo = bytes[pos];
    let hi = bytes[pos + 1];
    let unsigned: i32 = lo as i32 + 256 * (hi as i32);
    let value: i32 = if unsigned >= 32768 {
        unsigned - 65536
    } else {
        unsigned
    };
    Ok((value as i16, pos + 2))
}

/// A width-dependent literal: a 16-bit word, or one sign-extended byte.
fn byte_or_word(word: bool, bytes: &[u8], pos: usize) -> (r: Result<(i16, usize), DecodeError>)
    requires
        pos <= bytes@.len(),
    ensures
        step_matches(r, spec_byte_or_word(bytes@, pos as int, word)),
        r matches Ok(p) ==> pos < p.1 <= bytes@.len(),
{
    if word {
        parse_word(bytes, pos)
    } else {
        byte_as_i16(bytes, pos)
    }
}

/// The register-or-memory operand of a mode and selector pair, consuming its
/// displacement from `pos`.
fn reg_or_mem_calc(bytes: &[u8], pos: usize, word: bool, mode: u8, rm: u8) -> (r: Result<
    (Location, usize),
    DecodeError,
>)
    requires
        pos <= bytes@.len(),
        mode < 4,
        rm < 8,
    ensures
        step_matches(r, spec_reg_or_mem(bytes@, pos as int, word, mode as int, rm as int)),
        r matches Ok(p) ==> pos <= p.1 <= bytes@.len() && p.0.wf(),
{
    if mode == 3 {
        return Ok((Location::Register(Register { word, code: three_bit_code(rm) }), pos));
    }
    if mode == 0 && rm != 6 {
        return Ok(
            (
                Location::MemoryCalc(
                    MemoryCalc { displacement: None, mode_is_0: true, code: three_bit_code(rm) },
                ),
                pos,
            ),
        );
    }
    if mode == 1 {
        match byte_as_i16(bytes, pos) {
            Ok((d, j)) => Ok(
                (
                    Location::MemoryCalc(
                        MemoryCalc {
                            displacement: Some(d),
                            mode_is_0: false,
                            code: three_bit_code(rm),
                        },
                    ),
                    j,
                ),
            ),
            Err(e) => Err(e),
        }
    } else {
        match parse_word(bytes, pos) {
            Ok((d, j)) => Ok(
                (
                    Location::MemoryCalc(
                        MemoryCalc {
                            displacement: Some(d),
                            mode_is_0: mode == 0,
                            code: three_bit_code(rm),
                        },
                    ),
                    j,
                ),
            ),
            Err(e) => Err(e),
        }
    }
}

/// Form `100010 d w`: register/memory to or from register.
fn register_or_memory_to_or_from_register(bytes: &[u8], pos: usize) -> (r: Result<
    (MoveInstruction, usize),
    DecodeError,
>)
    requires
        pos < bytes@.len(),
        bytes@[pos as int] / 4 == 0x22,
    ensures
        step_matches(r, spec_register_or_memory_to_or_from_register(bytes@, pos as int)),
        r matches Ok(p) ==> pos < p.1 <= bytes@.len() && p.0.wf(),
{
    let b0 = bytes[pos];
    let reg_is_destination = (b0 / 2) % 2 == 1;
    let word = b0 % 2 == 1;
    if bytes.len() - pos < 2 {
        return Err(DecodeError::TruncatedInstruction);
    }
    let b1 = bytes[pos + 1];
    let reg_loc = Location::Register(Register { word, code: three_bit_code((b1 / 8) % 8) });
    match reg_or_mem_calc(bytes, pos + 2, word, b1 / 64, b1 % 8) {
        Ok((reg_or_mem, j)) => {
            if reg_is_destination {
                Ok((MoveInstruction { source: reg_or_mem, destination: reg_loc }, j))
            } else {
                Ok((MoveInstruction { source: reg_loc, destination: reg_or_mem }, j))
            }
        },
        Err(e) => Err(e),
    }
}

/// Form `1100011 w`: immediate to register/memory.
fn immediate_to_register_or_memory(bytes: &[u8], pos: usize) -> (r: Result<
    (MoveInstruction, usize),
    DecodeError,
>)
    requires
        pos < bytes@.len(),
        bytes@[pos as int] / 2 == 0x63,
    ensures
        step_matches(r, spec_immediate_to_register_or_memory(bytes@, pos as int)),
        r matches Ok(p) ==> pos < p.1 <= bytes@.len() && p.0.wf(),
{
    let b0 = bytes[pos];
    let word = b0 % 2 == 1;
    if bytes.len() - pos < 2 {
        return Err(DecodeError::TruncatedInstruction);
    }
    let b1 = bytes[pos + 1];
    if (b1 / 8) % 8 != 0 {
        return Err(DecodeError::UnrecognizedOpcode { position: pos + 1 });
    }
    match reg_or_mem_calc(bytes, pos + 2, word, b1 / 64, b1 % 8) {
        Ok((destination, j)) => match byte_or_word(word, bytes, j) {
            Ok((value, k)) => {
                let literal = match destination {
                    Location::MemoryCalc(_) => if word {
                        DataLiteral::ExplicitWord(value)
                    } else {
                        DataLiteral::ExplicitByte(value)
                    },
                    _ => DataLiteral::Implicit(value),
                };
                Ok((MoveInstruction { source: Location::DataLiteral(literal), destination }, k))
            },
            Err(e) => Err(e),
        },
        Err(e) => Err(e),
    }
}

/// Form `1011 w reg`: immediate to register.
fn immediate_to_register(bytes: &[u8], pos: usize) -> (r: Result<
    (MoveInstruction, usize),
    DecodeError,
>)
    requires
        pos < bytes@.len(),
        bytes@[pos as int] / 16 == 0x0B,
    ensures
        step_matches(r, spec_immediate_to_register(bytes@, pos as int)),
        r matches Ok(p) ==> pos < p.1 <= bytes@.len() && p.0.wf(),
{
    let b0 = bytes[pos];
    let word = (b0 / 8) % 2 == 1;
    let destination = Location::Register(Register { word, code: three_bit_code(b0 % 8) });
    match byte_or_word(word, bytes, pos + 1) {
        Ok((value, j)) => Ok(
            (
                MoveInstruction {
                    source: Location::DataLiteral(DataLiteral::Implicit(value)),
                    destination,
                },
                j,
            ),
        ),
        Err(e) => Err(e),
    }
}

/// Form `1010000 w`: memory to accumulator.
fn memory_to_accumulator(bytes: &[u8], pos: usize) -> (r: Result<
    (MoveInstruction, usize),
    DecodeError,
>)
    requires
        pos < bytes@.len(),
        bytes@[pos as int] / 2 == 0x50,
    ensures
        step_matches(r, spec_memory_to_accumulator(bytes@, pos as int)),
        r matches Ok(p) ==> pos < p.1 <= bytes@.len() && p.0.wf(),
{
    let word = bytes[pos] % 2 == 1;
    match parse_word(bytes, pos + 1) {
        Ok((addr, j)) => Ok(
            (
                MoveInstruction {
                    source: Location::MemoryLiteral(MemoryLiteral(addr)),
                    destination: Location::Accumulator(Accumulator { word }),
                },
                j,
            ),
        ),
        Err(e) => Err(e),
    }
}

/// Form `1010001 w`: accumulator to memory.
fn accumulator_to_memory(bytes: &[u8], pos: usize) -> (r: Result<
    (MoveInstruction, usize),
    DecodeError,
>)
    requires
        pos < bytes@.len(),
        bytes@[pos as int] / 2 == 0x51,
    ensures
        step_matches(r, spec_accumulator_to_memory(bytes@, pos as int)),
        r matches Ok(p) ==> pos < p.1 <= bytes@.len() && p.0.wf(),
{
    let word = bytes[pos] % 2 == 1;
    match parse_word(bytes, pos + 1) {
        Ok((addr, j)) => Ok(
            (
                MoveInstruction {
                    source: Location::Accumulator(Accumulator { word }),
                    destination: Location::MemoryLiteral(MemoryLiteral(addr)),
                },
                j,
            ),
        ),
        Err(e) => Err(e),
    }
}

/// Form `10001110`: register/memory to segment register.
fn register_or_memory_to_segment_register(bytes: &[u8], pos: usize) -> (r: Result<
    (MoveInstruction, usize),
    DecodeError,
>)
    requires
        pos < bytes@.len(),
        bytes@[pos as int] == 0x8E,
    ensures
        step_matches(r, spec_register_or_memory_to_segment_register(bytes@, pos as int)),
        r matches Ok(p) ==> pos < p.1 <= bytes@.len() && p.0.wf(),
{
    if bytes.len() - pos < 2 {
        return Err(DecodeError::TruncatedInstruction);
    }
    let b1 = bytes[pos + 1];
    if (b1 / 32) % 2 != 0 {
        return Err(DecodeError::UnrecognizedOpcode { position: pos + 1 });
    }
    let destination = Location::SegmentRegister(segment_register((b1 / 8) % 4));
    match reg_or_mem_calc(bytes, pos + 2, true, b1 / 64, b1 % 8) {
        Ok((source, j)) => Ok((MoveInstruction { source, destination }, j)),
        Err(e) => Err(e),
    }
}

/// Form `10001100`: segment register to register/memory.
fn segment_register_to_register_or_memory(bytes: &[u8], pos: usize) -> (r: Result<
    (MoveInstruction, usize),
    DecodeError,
>)
    requires
        pos < bytes@.len(),
        bytes@[pos as int] == 0x8C,
    ensures
        step_matches(r, spec_segment_register_to_register_or_memory(bytes@, pos as int)),
        r matches Ok(p) ==> pos < p.1 <= bytes@.len() && p.0.wf(),
{
    if bytes.len() - pos < 2 {
        return Err(DecodeError::TruncatedInstruction);
    }
    let b1 = bytes[pos + 1];
    if (b1 / 32) % 2 != 0 {
        return Err(DecodeError::UnrecognizedOpcode { position: pos + 1 });
    }
    let source = Location::SegmentRegister(segment_register((b1 / 8) % 4));
    match reg_or_mem_calc(bytes, pos + 2, true, b1 / 64, b1 % 8) {
        Ok((destination, j)) => Ok((MoveInstruction { source, destination }, j)),
        Err(e) => Err(e),
    }
}

/// One instruction decoded at `pos`, dispatched on the leading byte.
fn mov_instruction(bytes: &[u8], pos: usize) -> (r: Result<(MoveInstruction, usize), DecodeError>)
    requires
        pos < bytes@.len(),
    ensures
        step_matches(r, spec_mov_instruction(bytes@, pos as int)),
        r matches Ok(p) ==> pos < p.1 <= bytes@.len() && p.0.wf(),
{
    let b0 = bytes[pos];
    if b0 / 4 == 0x22 {
        register_or_memory_to_or_from_register(bytes, pos)
    } else if b0 / 2 == 0x63 {
        immediate_to_register_or_memory(bytes, pos)
    } else if b0 / 16 == 0x0B {
        immediate_to_register(bytes, pos)
    } else if b0 / 2 == 0x50 {
        memory_to_accumulator(bytes, pos)
    } else if b0 / 2 == 0x51 {
        accumulator_to_memory(bytes, pos)
    } else if b0 == 0x8E {
        register_or_memory_to_segment_register(bytes, pos)
    } else if b0 == 0x8C {
        segment_register_to_register_or_memory(bytes, pos)
    } else {
        Err(DecodeError::UnrecognizedOpcode { position: pos })
    }
}

/// Whether an executable decode of a whole buffer returned exactly what the
/// specification says the buffer holds, with every decoded record
/// well-formed.
pub open spec fn decode_matches(
    r: Result<Vec<MoveInstruction>, DecodeError>,
    s: Result<Seq<MoveInstruction>, DecodeError>,
) -> bool {
    match (r, s) {
        (Ok(v), Ok(instructions)) => v@ == instructions && (forall|k: int|
            0 <= k < instructions.len() ==> #[trigger] instructions[k].wf()),
        (Err(e), Err(f)) => e == f,
        _ => false,
    }
}

/// Every `mov` instruction decoded from the buffer, in order, or the first
/// failure. The buffer must be exactly covered: a trailing fragment is an
/// error, and an empty buffer holds no instruction at all.
pub fn many_move_instructions(bytes: &[u8]) -> (r: Result<Vec<MoveInstruction>, DecodeError>)
    ensures
        decode_matches(r, spec_decode(bytes@)),
{
    if bytes.len() == 0 {
        return Err(DecodeError::TruncatedInstruction);
    }
    let ghost s = bytes@;
    let mut out: Vec<MoveInstruction> = Vec::new();
    let mut pos: usize = 0;
    proof {
        assert(out@ + spec_decode_from(s, 0)->Ok_0 =~= spec_decode_from(s, 0)->Ok_0);
    }
    while pos < bytes.len()
        invariant
            pos <= bytes@.len(),
            s == bytes@,
            forall|k: int| 0 <= k < out@.len() ==> #[trigger] out@[k].wf(),
            spec_decode_from(s, 0) == match spec_decode_from(s, pos as int) {
                Ok(rest) => Ok::<Seq<MoveInstruction>, DecodeError>(out@ + rest),
                Err(e) => Err::<Seq<MoveInstruction>, DecodeError>(e),
            },
        decreases bytes@.len() - pos,
    {
        match mov_instruction(bytes, pos) {
            Ok((instruction, j)) => {
                proof {
                    let rest = spec_decode_from(s, j as int);
                    if rest is Ok {
                        assert(out@ + (seq![instruction] + rest->Ok_0) =~= out@.push(instruction)
                            + rest->Ok_0);
                    }
                }
                out.push(instruction);
                pos = j;
            },
            Err(e) => {
                return Err(e);
            },
        }
    }
    proof {
        assert(out@ + spec_decode_from(s, pos as int)->Ok_0 =~= out@);
    }
    Ok(out)
}

/// The assembly text of a whole buffer of `mov` encodings: one line per
/// instruction, in input order, each ended by a newline; or the first decode
/// failure, with nothing rendered.
pub fn disassemble(input: &[u8]) -> (r: Result<String, DecodeError>)
    ensures
        match spec_disassembly(input@) {
            Ok(text) => r matches Ok(t) && t@ == text,
            Err(e) => r matches Err(f) && f == e,
        },
{
    match many_move_instructions(input) {
        Ok(instructions) => Ok(display::render_program(&instructions)),
        Err(e) => Err(e),
    }
}

} // verus!
