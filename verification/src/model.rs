use vstd::prelude::*;

verus! {

/// One decoded `mov` instruction: always exactly two operands.
#[derive(Debug, Clone, Copy, PartialEq, Eq)]
pub struct MoveInstruction {
    pub source: Location,
    pub destination: Location,
}

/// An operand of a `mov` instruction.
#[derive(Debug, Clone, Copy, PartialEq, Eq)]
pub enum Location {
    DataLiteral(DataLiteral),
    MemoryLiteral(MemoryLiteral),
    Accumulator(Accumulator),
    SegmentRegister(SegmentRegister),
    Register(Register),
    MemoryCalc(MemoryCalc),
}

/// An immediate value. The explicit variants force a `byte`/`word` size
/// keyword in the rendered text, because a memory destination leaves the
/// operand width ambiguous; `Implicit` omits the keyword because a register
/// destination already fixes the width.
#[derive(Debug, Clone, Copy, PartialEq, Eq)]
pub enum DataLiteral {
    ExplicitByte(i16),
    ExplicitWord(i16),
    Implicit(i16),
}

/// A bare absolute address, used only by the accumulator-memory short forms.
#[derive(Debug, Clone, Copy, PartialEq, Eq)]
pub struct MemoryLiteral(pub i16);

/// The implicit `al`/`ax` operand of the accumulator-memory short forms.
#[derive(Debug, Clone, Copy, PartialEq, Eq)]
pub struct Accumulator {
    pub word: bool,
}

/// One of the four segment registers `es`, `cs`, `ss`, `ds`; always
/// word-width.
#[derive(Debug, Clone, Copy, PartialEq, Eq)]
pub enum SegmentRegister {
    _00,
    _01,
    _10,
    _11,
}

/// A general-purpose register operand: 8 identities per width.
#[derive(Debug, Clone, Copy, PartialEq, Eq)]
pub struct Register {
    pub word: bool,
    pub code: ThreeBitCode,
}

/// A computed effective address `[base(+index)? (+/- displacement)?]`, or a
/// bare direct address when `code` is `_110` and `mode_is_0` holds.
#[derive(Debug, Clone, Copy, PartialEq, Eq)]
pub struct MemoryCalc {
    pub displacement: Option<i16>,
    pub mode_is_0: bool,
    pub code: ThreeBitCode,
}

/// A 3-bit field value: a register selector or a base-expression selector,
/// depending on the addressing mode.
#[derive(Debug, Clone, Copy, PartialEq, Eq)]
pub enum ThreeBitCode {
    _000,
    _001,
    _010,
    _011,
    _100,
    _101,
    _110,
    _111,
}

/// Why a byte buffer failed to decode.
#[derive(Debug, Clone, Copy, PartialEq, Eq)]
pub enum DecodeError {
    /// The byte at `position` matches no known `mov` encoding form.
    UnrecognizedOpcode { position: usize },
    /// A field of the current form extends past the end of the input.
    TruncatedInstruction,
}

impl MemoryCalc {
    /// The decoder never leaves the displacement out except in the
    /// no-displacement mode, and there never for the direct-address selector,
    /// which always carries an address.
    pub open spec fn wf(self) -> bool {
        self.displacement is None ==> self.mode_is_0 && !(self.code is _110)
    }
}

impl Location {
    pub open spec fn wf(self) -> bool {
        match self {
            Location::MemoryCalc(m) => m.wf(),
            _ => true,
        }
    }
}

impl MoveInstruction {
    pub open spec fn wf(self) -> bool {
        self.source.wf() && self.destination.wf()
    }
}

} // verus!
