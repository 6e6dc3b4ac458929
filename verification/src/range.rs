//! Positions and ranges in the two coordinate systems that meet in the
//! server: those of the analysis engine and those of the protocol.

use vstd::prelude::*;

verus! {

/// A zero-based (line, character) position as the protocol carries it.
#[derive(Clone, Copy, Debug, PartialEq, Eq, Structural)]
pub struct Position {
    pub line: u32,
    pub character: u32,
}

/// A span of text between two protocol positions.
#[derive(Clone, Copy, Debug, PartialEq, Eq, Structural)]
pub struct Range {
    pub start: Position,
    pub end: Position,
}

/// A position as the analysis engine records it: the offset into the text,
/// and the zero-based line and column.
#[derive(Clone, Copy, Debug, PartialEq, Eq, Structural)]
pub struct SourcePosition {
    pub index: usize,
    pub line: usize,
    pub col: usize,
}

/// A span of text between two engine positions.
#[derive(Clone, Copy, Debug, PartialEq, Eq, Structural)]
pub struct SourceRange {
    pub start: SourcePosition,
    pub end: SourcePosition,
}

/// The position at the very start of a document.
pub open spec fn origin() -> Position {
    Position { line: 0, character: 0 }
}

/// The empty range at the start of a document.
pub open spec fn top_range() -> Range {
    Range { start: origin(), end: origin() }
}

/// The range from the start of a document to the largest position the
/// protocol can express, which covers a document of any length.
pub open spec fn whole_document_range() -> Range {
    Range { start: origin(), end: Position { line: u32::MAX, character: u32::MAX } }
}

/// What an engine position becomes in the protocol: line and column, each
/// reduced to 32 bits.
pub open spec fn protocol_position(p: SourcePosition) -> Position {
    Position { line: p.line as u32, character: p.col as u32 }
}

/// What an engine range becomes in the protocol.
pub open spec fn protocol_range(r: SourceRange) -> Range {
    Range { start: protocol_position(r.start), end: protocol_position(r.end) }
}

/// The zero-length range at the start of the document.
pub fn lsp_range_top() -> (r: Range)
    ensures
        r == top_range(),
{
    let start = Position { line: 0, character: 0 };
    Range { start, end: start }
}

/// The range that selects a whole document, whatever its length.
pub fn lsp_range_whole_document() -> (r: Range)
    ensures
        r == whole_document_range(),
{
    let start = Position { line: 0, character: 0 };
    let end = Position { line: u32::MAX, character: u32::MAX };
    Range { start, end }
}

/// Converts a range of the analysis engine to a protocol range.
pub fn lsp_range_from_tan_range(tan_range: SourceRange) -> (r: Range)
    ensures
        r == protocol_range(tan_range),
        tan_range.start.line <= u32::MAX ==> r.start.line == tan_range.start.line,
        tan_range.start.col <= u32::MAX ==> r.start.character == tan_range.start.col,
        tan_range.end.line <= u32::MAX ==> r.end.line == tan_range.end.line,
        tan_range.end.col <= u32::MAX ==> r.end.character == tan_range.end.col,
{
    let start = Position {
        line: #[verifier::truncate] (tan_range.start.line as u32),
        character: #[verifier::truncate] (tan_range.start.col as u32),
    };
    let end = Position {
        line: #[verifier::truncate] (tan_range.end.line as u32),
        character: #[verifier::truncate] (tan_range.end.col as u32),
    };
    Range { start, end }
}

} // verus!
