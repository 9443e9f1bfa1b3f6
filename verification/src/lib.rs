//! Decoder and formatter for the 8086 `mov` instruction family.
//!
//! A byte buffer holding back-to-back `mov` encodings is decoded into
//! [`MoveInstruction`] records, which are then rendered as NASM-style
//! assembly text, one `mov <destination>, <source>` line per instruction.

use vstd::prelude::*;

pub mod display;
pub mod model;
pub mod parse;
pub mod properties;

pub use model::Accumulator;
pub use model::DataLiteral;
pub use model::DecodeError;
pub use model::Location;
pub use model::MemoryCalc;
pub use model::MemoryLiteral;
pub use model::MoveInstruction;
pub use model::Register;
pub use model::SegmentRegister;
pub use model::ThreeBitCode;
pub use parse::disassemble;

verus! {

/// The assembly text of a byte buffer holding back-to-back 8086 `mov`
/// encodings: one `mov <destination>, <source>` line per instruction, in
/// input order, each ended by a newline. The buffer must be exactly covered;
/// the first unrecognized or truncated encoding fails the whole decode.
pub fn dissasemble(bytes: &[u8]) -> (r: Result<String, DecodeError>)
    ensures
        match parse::spec_disassembly(bytes@) {
            Ok(text) => r matches Ok(t) && t@ == text,
            Err(e) => r matches Err(f) && f == e,
        },
{
    parse::disassemble(bytes)
}

} // verus!
