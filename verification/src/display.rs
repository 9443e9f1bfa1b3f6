use vstd::prelude::*;

use crate::model::Accumulator;
use crate::model::DataLiteral;
use crate::model::Location;
use crate::model::MemoryCalc;
use crate::model::MemoryLiteral;
use crate::model::MoveInstruction;
use crate::model::Register;
use crate::model::SegmentRegister;
use crate::model::ThreeBitCode;

verus! {

/// The character for one decimal digit.
pub open spec fn spec_digit(n: int) -> char
    recommends
        0 <= n < 10,
{
    if n == 0 {
        '0'
    } else if n == 1 {
        '1'
    } else if n == 2 {
        '2'
    } else if n == 3 {
        '3'
    } else if n == 4 {
        '4'
    } else if n == 5 {
        '5'
    } else if n == 6 {
        '6'
    } else if n == 7 {
        '7'
    } else if n == 8 {
        '8'
    } else {
        '9'
    }
}

/// The decimal digits of a non-negative integer, most significant first,
/// with no leading zeros.
pub open spec fn spec_decimal_digits(n: int) -> Seq<char>
    recommends
        n >= 0,
    decreases n,
{
    if n < 10 {
        seq![spec_digit(n)]
    } else {
        spec_decimal_digits(n / 10) + seq![spec_digit(n % 10)]
    }
}

/// The base-10 signed decimal rendering of an integer: its digits, preceded
/// by `-` exactly when it is negative.
pub open spec fn spec_decimal(v: int) -> Seq<char> {
    if v < 0 {
        seq!['-'] + spec_decimal_digits(-v)
    } else {
        spec_decimal_digits(v)
    }
}

/// Relies on `itoa::Buffer::format`: the decimal digits of the integer's
/// absolute value, preceded by `-` when the integer is negative.
#[verifier::external_body]
fn decimal_string(v: i32) -> (r: String)
    ensures
        r@ == spec_decimal(v as int),
{
    let mut buffer = itoa::Buffer::new();
    buffer.format(v).to_string()
}

/// The two-letter mnemonic selected by a register's 3-bit code and width.
pub open spec fn spec_register_name(word: bool, code: ThreeBitCode) -> Seq<char> {
    match code {
        ThreeBitCode::_000 => if word { "ax"@ } else { "al"@ },
        ThreeBitCode::_001 => if word { "cx"@ } else { "cl"@ },
        ThreeBitCode::_010 => if word { "dx"@ } else { "dl"@ },
        ThreeBitCode::_011 => if word { "bx"@ } else { "bl"@ },
        ThreeBitCode::_100 => if word { "sp"@ } else { "ah"@ },
        ThreeBitCode::_101 => if word { "bp"@ } else { "ch"@ },
        ThreeBitCode::_110 => if word { "si"@ } else { "dh"@ },
        ThreeBitCode::_111 => if word { "di"@ } else { "bh"@ },
    }
}

/// The mnemonic of a segment register.
pub open spec fn spec_segment_name(r: SegmentRegister) -> Seq<char> {
    match r {
        SegmentRegister::_00 => "es"@,
        SegmentRegister::_01 => "cs"@,
        SegmentRegister::_10 => "ss"@,
        SegmentRegister::_11 => "ds"@,
    }
}

/// The base expression selected by a memory operand's 3-bit code, for the
/// cases that are not the direct-address exception.
pub open spec fn spec_base_expression(code: ThreeBitCode) -> Seq<char> {
    match code {
        ThreeBitCode::_000 => "bx + si"@,
        ThreeBitCode::_001 => "bx + di"@,
        ThreeBitCode::_010 => "bp + si"@,
        ThreeBitCode::_011 => "bp + di"@,
        ThreeBitCode::_100 => "si"@,
        ThreeBitCode::_101 => "di"@,
        ThreeBitCode::_110 => "bp"@,
        ThreeBitCode::_111 => "bx"@,
    }
}

/// The text of a computed-address operand. The direct-address special case
/// renders the bare address; otherwise a negative displacement renders with
/// the `-` operator and the displacement's absolute value, never as a
/// literal negative number after `+`.
pub open spec fn spec_render_memory_calc(m: MemoryCalc) -> Seq<char>
    recommends
        m.wf(),
{
    match m.displacement {
        Some(d) => if m.mode_is_0 && m.code is _110 {
            "["@ + spec_decimal(d as int) + "]"@
        } else if d > 0 {
            "["@ + spec_base_expression(m.code) + " + "@ + spec_decimal(d as int) + "]"@
        } else if d < 0 {
            "["@ + spec_base_expression(m.code) + " - "@ + spec_decimal(-(d as int)) + "]"@
        } else {
            "["@ + spec_base_expression(m.code) + "]"@
        },
        None => "["@ + spec_base_expression(m.code) + "]"@,
    }
}

/// The text of one operand.
pub open spec fn spec_render_location(l: Location) -> Seq<char>
    recommends
        l.wf(),
{
    match l {
        Location::DataLiteral(d) => match d {
            DataLiteral::ExplicitByte(v) => "byte "@ + spec_decimal(v as int),
            DataLiteral::ExplicitWord(v) => "word "@ + spec_decimal(v as int),
            DataLiteral::Implicit(v) => spec_decimal(v as int),
        },
        Location::MemoryLiteral(m) => "["@ + spec_decimal(m.0 as int) + "]"@,
        Location::Accumulator(a) => if a.word { "ax"@ } else { "al"@ },
        Location::SegmentRegister(r) => spec_segment_name(r),
        Location::Register(r) => spec_register_name(r.word, r.code),
        Location::MemoryCalc(m) => spec_render_memory_calc(m),
    }
}

/// The text of one instruction: `mov <destination>, <source>`, with no
/// trailing newline.
pub open spec fn spec_render_instruction(i: MoveInstruction) -> Seq<char>
    recommends
        i.wf(),
{
    "mov "@ + spec_render_location(i.destination) + ", "@ + spec_render_location(i.source)
}

/// The text of a whole instruction sequence: one line per instruction, in
/// order, each followed by a newline.
pub open spec fn spec_render_program(instructions: Seq<MoveInstruction>) -> Seq<char>
    decreases instructions.len(),
{
    if instructions.len() == 0 {
        Seq::empty()
    } else {
        spec_render_instruction(instructions[0]) + "\n"@ + spec_render_program(
            instructions.drop_first(),
        )
    }
}

/// Rendering distributes over appending one instruction at the end.
proof fn lemma_render_program_push(instructions: Seq<MoveInstruction>, x: MoveInstruction)
    ensures
        spec_render_program(instructions.push(x)) == spec_render_program(instructions)
            + spec_render_instruction(x) + "\n"@,
    decreases instructions.len(),
{
    if instructions.len() == 0 {
        assert(instructions.push(x) =~= seq![x]);
        assert(seq![x].drop_first() =~= Seq::empty());
        assert(spec_render_program(seq![x]) == spec_render_instruction(x) + "\n"@
            + spec_render_program(Seq::empty()));
        assert(spec_render_instruction(x) + "\n"@ + Seq::<char>::empty() =~= spec_render_instruction(
            x,
        ) + "\n"@);
        assert(Seq::<char>::empty() + spec_render_instruction(x) + "\n"@ =~= spec_render_instruction(
            x,
        ) + "\n"@);
    } else {
        lemma_render_program_push(instructions.drop_first(), x);
        assert(instructions.push(x).drop_first() =~= instructions.drop_first().push(x));
        assert(spec_render_program(instructions.push(x)) == spec_render_instruction(
            instructions[0],
        ) + "\n"@ + (spec_render_program(instructions.drop_first()) + spec_render_instruction(x)
            + "\n"@));
        assert(spec_render_instruction(instructions[0]) + "\n"@ + (spec_render_program(
            instructions.drop_first(),
        ) + spec_render_instruction(x) + "\n"@) =~= (spec_render_instruction(instructions[0])
            + "\n"@ + spec_render_program(instructions.drop_first())) + spec_render_instruction(x)
            + "\n"@);
    }
}

/// The text of a whole instruction sequence, one line per instruction.
pub fn render_program(instructions: &Vec<MoveInstruction>) -> (r: String)
    requires
        forall|k: int| 0 <= k < instructions@.len() ==> #[trigger] instructions@[k].wf(),
    ensures
        r@ == spec_render_program(instructions@),
{
    let mut text = String::new();
    let mut i: usize = 0;
    proof {
        assert(instructions@.take(0) =~= Seq::empty());
    }
    while i < instructions.len()
        invariant
            i <= instructions@.len(),
            forall|k: int| 0 <= k < instructions@.len() ==> #[trigger] instructions@[k].wf(),
            text@ == spec_render_program(instructions@.take(i as int)),
        decreases instructions@.len() - i,
    {
        proof {
            assert(instructions@.take(i as int).push(instructions@[i as int]) =~= instructions@.take(
                i as int + 1,
            ));
            lemma_render_program_push(instructions@.take(i as int), instructions@[i as int]);
        }
        let instruction = instructions[i];
        instruction.format_onto(&mut text);
        text.append("\n");
        i = i + 1;
    }
    proof {
        assert(instructions@.take(instructions@.len() as int) =~= instructions@);
    }
    text
}

impl DataLiteral {
    /// Append this literal's text: `byte <n>` / `word <n>` for the explicit
    /// variants, the bare number for `Implicit`.
    pub fn format_onto(&self, s: &mut String)
        ensures
            final(s)@ == old(s)@ + spec_render_location(Location::DataLiteral(*self)),
    {
        match self {
            DataLiteral::ExplicitByte(v) => {
                s.append("byte ");
                let t = decimal_string(*v as i32);
                s.append(t.as_str());
            },
            DataLiteral::ExplicitWord(v) => {
                s.append("word ");
                let t = decimal_string(*v as i32);
                s.append(t.as_str());
            },
            DataLiteral::Implicit(v) => {
                let t = decimal_string(*v as i32);
                s.append(t.as_str());
            },
        }
    }
}

impl MemoryLiteral {
    /// Append this operand's text: the address in brackets.
    pub fn format_onto(&self, s: &mut String)
        ensures
            final(s)@ == old(s)@ + spec_render_location(Location::MemoryLiteral(*self)),
    {
        s.append("[");
        let t = decimal_string(self.0 as i32);
        s.append(t.as_str());
        s.append("]");
    }
}

impl SegmentRegister {
    /// Append this segment register's mnemonic.
    pub fn format_onto(&self, s: &mut String)
        ensures
            final(s)@ == old(s)@ + spec_segment_name(*self),
    {
        match self {
            SegmentRegister::_00 => s.append("es"),
            SegmentRegister::_01 => s.append("cs"),
            SegmentRegister::_10 => s.append("ss"),
            SegmentRegister::_11 => s.append("ds"),
        }
    }
}

impl Register {
    /// Append this register's mnemonic.
    pub fn format_onto(&self, s: &mut String)
        ensures
            final(s)@ == old(s)@ + spec_register_name(self.word, self.code),
    {
        match (self.code, self.word) {
            (ThreeBitCode::_000, false) => s.append("al"),
            (ThreeBitCode::_001, false) => s.append("cl"),
            (ThreeBitCode::_010, false) => s.append("dl"),
            (ThreeBitCode::_011, false) => s.append("bl"),
            (ThreeBitCode::_100, false) => s.append("ah"),
            (ThreeBitCode::_101, false) => s.append("ch"),
            (ThreeBitCode::_110, false) => s.append("dh"),
            (ThreeBitCode::_111, false) => s.append("bh"),
            (ThreeBitCode::_000, true) => s.append("ax"),
            (ThreeBitCode::_001, true) => s.append("cx"),
            (ThreeBitCode::_010, true) => s.append("dx"),
            (ThreeBitCode::_011, true) => s.append("bx"),
            (ThreeBitCode::_100, true) => s.append("sp"),
            (ThreeBitCode::_101, true) => s.append("bp"),
            (ThreeBitCode::_110, true) => s.append("si"),
            (ThreeBitCode::_111, true) => s.append("di"),
        }
    }
}

impl Accumulator {
    /// Append this operand's mnemonic: `al` at byte width, `ax` at word
    /// width.
    pub fn format_onto(&self, s: &mut String)
        ensures
            final(s)@ == old(s)@ + spec_render_location(Location::Accumulator(*self)),
    {
        if self.word {
            s.append("ax");
        } else {
            s.append("al");
        }
    }
}

impl MemoryCalc {
    /// Append this computed address's text.
    pub fn format_onto(&self, s: &mut String)
        requires
            self.wf(),
        ensures
            final(s)@ == old(s)@ + spec_render_memory_calc(*self),
    {
        match self.displacement {
            Some(d) => {
                if self.mode_is_0 && matches!(self.code, ThreeBitCode::_110) {
                    s.append("[");
                    let t = decimal_string(d as i32);
                    s.append(t.as_str());
                    s.append("]");
                } else if d > 0 {
                    s.append("[");
                    self.append_base(s);
                    s.append(" + ");
                    let t = decimal_string(d as i32);
                    s.append(t.as_str());
                    s.append("]");
                } else if d < 0 {
                    s.append("[");
                    self.append_base(s);
                    s.append(" - ");
                    let t = decimal_string(-(d as i32));
                    s.append(t.as_str());
                    s.append("]");
                } else {
                    s.append("[");
                    self.append_base(s);
                    s.append("]");
                }
            },
            None => {
                s.append("[");
                self.append_base(s);
                s.append("]");
            },
        }
    }

    /// Append the base expression selected by this operand's 3-bit code.
    fn append_base(&self, s: &mut String)
        ensures
            final(s)@ == old(s)@ + spec_base_expression(self.code),
    {
        match self.code {
            ThreeBitCode::_000 => s.append("bx + si"),
            ThreeBitCode::_001 => s.append("bx + di"),
            ThreeBitCode::_010 => s.append("bp + si"),
            ThreeBitCode::_011 => s.append("bp + di"),
            ThreeBitCode::_100 => s.append("si"),
            ThreeBitCode::_101 => s.append("di"),
            ThreeBitCode::_110 => s.append("bp"),
            ThreeBitCode::_111 => s.append("bx"),
        }
    }
}

impl Location {
    /// Append this operand's text.
    pub fn format_onto(&self, s: &mut String)
        requires
            self.wf(),
        ensures
            final(s)@ == old(s)@ + spec_render_location(*self),
    {
        match self {
            Location::DataLiteral(d) => d.format_onto(s),
            Location::MemoryLiteral(m) => m.format_onto(s),
            Location::Accumulator(a) => a.format_onto(s),
            Location::SegmentRegister(r) => r.format_onto(s),
            Location::Register(r) => r.format_onto(s),
            Location::MemoryCalc(m) => m.format_onto(s),
        }
    }
}

impl MoveInstruction {
    /// Append this instruction's line, without the trailing newline.
    pub fn format_onto(&self, s: &mut String)
        requires
            self.wf(),
        ensures
            final(s)@ == old(s)@ + spec_render_instruction(*self),
    {
        s.append("mov ");
        self.destination.format_onto(s);
        s.append(", ");
        self.source.format_onto(s);
    }
}

} // verus!
