//! Conversion between the analyzer's source coordinates and the protocol's.
//!
//! The analyzer reports locations as 1-based line and column, where a column
//! counts Unicode scalar values. The protocol wants 0-based lines and a
//! character offset counted in UTF-16 code units. The converters here re-derive
//! the column by scanning the characters of the relevant source line, so that
//! multi-byte and astral characters are accounted for exactly.

use vstd::prelude::*;

verus! {

/// A location in the analyzer's coordinate system: 1-based line and column.
#[derive(PartialEq, Eq, Structural, Clone, Copy, Debug)]
pub struct NativeLocation {
    pub line: usize,
    pub column: usize,
}

/// A span between two native locations.
#[derive(PartialEq, Eq, Structural, Clone, Copy, Debug)]
pub struct NativeRange {
    pub start: NativeLocation,
    pub end: NativeLocation,
}

/// A position in the protocol's coordinate system: 0-based line and a
/// character offset counted in UTF-16 code units.
#[derive(PartialEq, Eq, Structural, Clone, Copy, Debug)]
pub struct ProtocolPosition {
    pub line: usize,
    pub character: usize,
}

/// A span between two protocol positions.
#[derive(PartialEq, Eq, Structural, Clone, Copy, Debug)]
pub struct ProtocolRange {
    pub start: ProtocolPosition,
    pub end: ProtocolPosition,
}

/// How many UTF-16 code units encode the character `c`: two for astral
/// characters, one for everything in the basic multilingual plane.
pub open spec fn utf16_len(c: char) -> int {
    if c as u32 >= 0x10000 {
        2
    } else {
        1
    }
}

/// Total UTF-16 code units of the character sequence `s`.
pub open spec fn utf16_units(s: Seq<char>) -> int
    decreases s.len(),
{
    if s.len() == 0 {
        0
    } else {
        utf16_units(s.drop_last()) + utf16_len(s.last())
    }
}

/// The 0-based line `l` of `text`, with lines separated by `'\n'`; the empty
/// sequence when `text` has fewer lines.
pub open spec fn line_at(text: Seq<char>, l: int) -> Seq<char>
    decreases text.len(),
{
    if text.len() == 0 {
        Seq::<char>::empty()
    } else if l <= 0 {
        if text[0] == '\n' {
            Seq::<char>::empty()
        } else {
            seq![text[0]] + line_at(text.drop_first(), 0)
        }
    } else {
        if text[0] == '\n' {
            line_at(text.drop_first(), l - 1)
        } else {
            line_at(text.drop_first(), l)
        }
    }
}

/// How many leading characters of `line` fit within `units` UTF-16 code
/// units: the scalar-value column that a protocol character offset lands on.
pub open spec fn scalars_within(line: Seq<char>, units: int) -> int
    decreases line.len(),
{
    if line.len() == 0 || units <= 0 {
        0
    } else if utf16_len(line[0]) <= units {
        1 + scalars_within(line.drop_first(), units - utf16_len(line[0]))
    } else {
        0
    }
}

/// The protocol position for the native location `loc` within `text`: the
/// line drops to 0-based, and the character offset is the UTF-16 length of
/// the part of that line before `loc`'s column, clamped to the line's end.
pub open spec fn protocol_position(text: Seq<char>, loc: NativeLocation) -> ProtocolPosition {
    let line = line_at(text, loc.line - 1);
    let before = if loc.column - 1 <= line.len() {
        loc.column - 1
    } else {
        line.len() as int
    };
    ProtocolPosition {
        line: (loc.line - 1) as usize,
        character: utf16_units(line.take(before)) as usize,
    }
}

/// The protocol range for the native range `r` within `text`.
pub open spec fn protocol_range(text: Seq<char>, r: NativeRange) -> ProtocolRange {
    ProtocolRange {
        start: protocol_position(text, r.start),
        end: protocol_position(text, r.end),
    }
}

/// The native location for the protocol position `pos` within `text`: lines
/// rise to 1-based, and the column is one past the number of whole characters
/// of that line covered by `pos.character` UTF-16 code units.
pub open spec fn native_location(text: Seq<char>, pos: ProtocolPosition) -> NativeLocation {
    let line = line_at(text, pos.line as int);
    NativeLocation {
        line: (pos.line + 1) as usize,
        column: (scalars_within(line, pos.character as int) + 1) as usize,
    }
}

/// The zero-length protocol range at the start of the document, used when an
/// analyzer error carries no source range.
pub open spec fn document_start_range() -> ProtocolRange {
    ProtocolRange {
        start: ProtocolPosition { line: 0, character: 0 },
        end: ProtocolPosition { line: 0, character: 0 },
    }
}

impl ProtocolRange {
    /// The zero-length range at the document start.
    pub fn at_document_start() -> (r: ProtocolRange)
        ensures
            r == document_start_range(),
    {
        ProtocolRange {
            start: ProtocolPosition { line: 0, character: 0 },
            end: ProtocolPosition { line: 0, character: 0 },
        }
    }
}

/// The characters of `text` in order.
///
/// Relies on `str::chars`: it yields exactly the `char`s of the string,
/// front to back.
#[verifier::external_body]
fn chars_of(text: &str) -> (r: Vec<char>)
    ensures
        r@ == text@,
{
    text.chars().collect()
}

/// The 0-based line `l` of `cs`, as the characters between the `l`-th and the
/// following line break.
fn extract_line(cs: &Vec<char>, l: usize) -> (line: Vec<char>)
    ensures
        line@ == line_at(cs@, l as int),
{
    let ghost whole = cs@;
    let mut i: usize = 0;
    let mut rem: usize = l;
    proof {
        assert(cs@.skip(0) =~= cs@);
    }
    while i < cs.len() && rem > 0
        invariant
            i <= cs.len(),
            cs@ == whole,
            line_at(whole, l as int) == line_at(cs@.skip(i as int), rem as int),
        decreases cs.len() - i,
    {
        proof {
            assert(cs@.skip(i as int).drop_first() =~= cs@.skip(i + 1));
        }
        if cs[i] == '\n' {
            rem = rem - 1;
        }
        i = i + 1;
    }
    let mut out: Vec<char> = Vec::new();
    proof {
        assert(out@ + line_at(cs@.skip(i as int), 0) =~= line_at(cs@.skip(i as int), 0));
    }
    while i < cs.len() && cs[i] != '\n'
        invariant
            i <= cs.len(),
            cs@ == whole,
            line_at(whole, l as int) == out@ + line_at(cs@.skip(i as int), 0),
        decreases cs.len() - i,
    {
        proof {
            assert(cs@.skip(i as int).drop_first() =~= cs@.skip(i + 1));
            assert(cs@.skip(i as int)[0] == cs@[i as int]);
            assert(line_at(cs@.skip(i as int), 0) == seq![cs@[i as int]] + line_at(
                cs@.skip(i + 1),
                0,
            ));
            assert(out@ + (seq![cs@[i as int]] + line_at(cs@.skip(i + 1), 0)) =~= out@.push(
                cs@[i as int],
            ) + line_at(cs@.skip(i + 1), 0));
        }
        out.push(cs[i]);
        i = i + 1;
    }
    proof {
        if i < cs.len() {
            assert(cs@.skip(i as int)[0] == '\n');
            assert(line_at(cs@.skip(i as int), 0) =~= Seq::<char>::empty());
        } else {
            assert(cs@.skip(i as int).len() == 0);
        }
        assert(out@ + line_at(cs@.skip(i as int), 0) =~= out@);
    }
    out
}

/// The UTF-16 code units taken by the first `n` characters of `line`.
fn utf16_prefix_units(line: &Vec<char>, n: usize) -> (u: usize)
    requires
        n <= line@.len(),
        2 * line@.len() <= usize::MAX,
    ensures
        u as int == utf16_units(line@.take(n as int)),
{
    let mut u: usize = 0;
    let mut i: usize = 0;
    while i < n
        invariant
            i <= n <= line@.len(),
            2 * line@.len() <= usize::MAX,
            u <= 2 * i,
            u as int == utf16_units(line@.take(i as int)),
        decreases n - i,
    {
        proof {
            assert(line@.take(i + 1).drop_last() =~= line@.take(i as int));
            assert(line@.take(i + 1).last() == line@[i as int]);
            assert(utf16_units(line@.take(i + 1)) == utf16_units(line@.take(i as int)) + utf16_len(
                line@[i as int],
            ));
        }
        let c = line[i];
        if c as u32 >= 0x10000 {
            u = u + 2;
        } else {
            u = u + 1;
        }
        i = i + 1;
    }
    u
}

impl NativeLocation {
    /// The location is in the analyzer's 1-based coordinates.
    pub open spec fn wf(self) -> bool {
        self.line >= 1 && self.column >= 1
    }
}

impl NativeRange {
    /// Both endpoints are in the analyzer's 1-based coordinates.
    pub open spec fn wf(self) -> bool {
        self.start.wf() && self.end.wf()
    }
}

/// Converts the native location `loc` to the protocol position it denotes
/// within `text`.
pub fn to_protocol_position(text: &str, loc: NativeLocation) -> (r: ProtocolPosition)
    requires
        loc.wf(),
        2 * text@.len() <= usize::MAX,
    ensures
        r == protocol_position(text@, loc),
{
    let cs = chars_of(text);
    proof {
        lemma_line_at_len(cs@, loc.line - 1);
    }
    let line = extract_line(&cs, loc.line - 1);
    let before = if loc.column - 1 <= line.len() {
        loc.column - 1
    } else {
        line.len()
    };
    let character = utf16_prefix_units(&line, before);
    ProtocolPosition { line: loc.line - 1, character }
}

/// A sequence's UTF-16 length is non-negative and at most two units per
/// character.
pub proof fn lemma_utf16_units_bounds(s: Seq<char>)
    ensures
        0 <= utf16_units(s) <= 2 * s.len(),
    decreases s.len(),
{
    if s.len() > 0 {
        lemma_utf16_units_bounds(s.drop_last());
    }
}

/// A line extracted from `text` is no longer than `text` itself.
pub proof fn lemma_line_at_len(text: Seq<char>, l: int)
    ensures
        line_at(text, l).len() <= text.len(),
    decreases text.len(),
{
    if text.len() == 0 {
    } else if l <= 0 {
        if text[0] == '\n' {
        } else {
            lemma_line_at_len(text.drop_first(), 0);
        }
    } else {
        lemma_line_at_len(text.drop_first(), l - 1);
        lemma_line_at_len(text.drop_first(), l);
    }
}

/// Converts the native range `r` to the protocol range it denotes within
/// `text`.
pub fn to_protocol_range(text: &str, r: NativeRange) -> (pr: ProtocolRange)
    requires
        r.wf(),
        2 * text@.len() <= usize::MAX,
    ensures
        pr == protocol_range(text@, r),
{
    let start = to_protocol_position(text, r.start);
    let end = to_protocol_position(text, r.end);
    ProtocolRange { start, end }
}

/// Converts the protocol position `pos` to the native location it denotes
/// within `text`.
pub fn to_native_location(text: &str, pos: ProtocolPosition) -> (r: NativeLocation)
    requires
        pos.line < usize::MAX,
        2 * text@.len() < usize::MAX,
    ensures
        r == native_location(text@, pos),
{
    let cs = chars_of(text);
    proof {
        lemma_line_at_len(cs@, pos.line as int);
    }
    let line = extract_line(&cs, pos.line);
    let mut i: usize = 0;
    let mut left: usize = pos.character;
    proof {
        assert(line@.skip(0) =~= line@);
    }
    while i < line.len() && left > 0 && utf16_len_exec(line[i]) <= left
        invariant
            i <= line@.len(),
            2 * line@.len() < usize::MAX,
            scalars_within(line@, pos.character as int) == i + scalars_within(
                line@.skip(i as int),
                left as int,
            ),
            left <= pos.character,
        decreases line.len() - i,
    {
        proof {
            assert(line@.skip(i as int).drop_first() =~= line@.skip(i + 1));
        }
        left = left - utf16_len_exec(line[i]);
        i = i + 1;
    }
    proof {
        if i < line.len() {
            assert(scalars_within(line@.skip(i as int), left as int) == 0);
        } else {
            assert(line@.skip(i as int).len() == 0);
        }
    }
    NativeLocation { line: pos.line + 1, column: i + 1 }
}

/// The UTF-16 length of one character.
fn utf16_len_exec(c: char) -> (r: usize)
    ensures
        r as int == utf16_len(c),
{
    if c as u32 >= 0x10000 {
        2
    } else {
        1
    }
}

} // verus!
