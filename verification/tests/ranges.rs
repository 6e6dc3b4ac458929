use tan_lsp_server::range::{
    lsp_range_from_tan_range, lsp_range_top, lsp_range_whole_document, Position, Range,
    SourcePosition, SourceRange,
};

#[test]
fn top_range_is_empty_at_origin() {
    let r = lsp_range_top();
    assert_eq!(r.start, Position { line: 0, character: 0 });
    assert_eq!(r.end, Position { line: 0, character: 0 });
}

#[test]
fn whole_document_range_ends_at_largest_position() {
    let r = lsp_range_whole_document();
    assert_eq!(r.start, Position { line: 0, character: 0 });
    assert_eq!(r.end, Position { line: u32::MAX, character: u32::MAX });
}

#[test]
fn engine_range_keeps_lines_and_columns() {
    let r = lsp_range_from_tan_range(SourceRange {
        start: SourcePosition { index: 17, line: 2, col: 5 },
        end: SourcePosition { index: 23, line: 2, col: 11 },
    });
    assert_eq!(
        r,
        Range {
            start: Position { line: 2, character: 5 },
            end: Position { line: 2, character: 11 },
        }
    );
}

#[test]
fn engine_range_drops_the_offsets() {
    let a = lsp_range_from_tan_range(SourceRange {
        start: SourcePosition { index: 0, line: 1, col: 1 },
        end: SourcePosition { index: 0, line: 1, col: 2 },
    });
    let b = lsp_range_from_tan_range(SourceRange {
        start: SourcePosition { index: 99, line: 1, col: 1 },
        end: SourcePosition { index: 100, line: 1, col: 2 },
    });
    assert_eq!(a, b);
}

#[test]
fn engine_range_is_reduced_to_32_bits() {
    let beyond = (u32::MAX as usize).wrapping_add(8);
    let r = lsp_range_from_tan_range(SourceRange {
        start: SourcePosition { index: 0, line: beyond, col: u32::MAX as usize },
        end: SourcePosition { index: 0, line: 3, col: beyond },
    });
    assert_eq!(r.start.line, beyond as u32);
    assert_eq!(r.start.character, u32::MAX);
    assert_eq!(r.end.line, 3);
    assert_eq!(r.end.character, beyond as u32);
}
