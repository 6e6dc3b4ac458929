use tan_lsp_server::range::{Position, Range, SourcePosition, SourceRange};
use tan_lsp_server::symbol::{
    names_engine_variable, symbol_from_binding, symbol_kind, symbol_precedes,
    symbols_from_bindings, Binding, Symbol, SymbolKind,
};

fn at(line: usize, col: usize, len: usize) -> Option<SourceRange> {
    Some(SourceRange {
        start: SourcePosition { index: 0, line, col },
        end: SourcePosition { index: 0, line, col: col + len },
    })
}

fn binding(name: &str, range: Option<SourceRange>, value_type: Option<&str>) -> Binding {
    Binding { name: String::from(name), range, value_type: value_type.map(String::from) }
}

fn names(symbols: &[Symbol]) -> Vec<&str> {
    symbols.iter().map(|s| s.name.as_str()).collect()
}

#[test]
fn a_function_type_makes_a_function_symbol() {
    assert_eq!(symbol_kind(&Some(String::from("Func"))), SymbolKind::Function);
}

#[test]
fn any_other_type_makes_a_variable_symbol() {
    assert_eq!(symbol_kind(&Some(String::from("Int"))), SymbolKind::Variable);
    assert_eq!(symbol_kind(&Some(String::from("func"))), SymbolKind::Variable);
    assert_eq!(symbol_kind(&Some(String::from("ForeignFunc"))), SymbolKind::Variable);
    assert_eq!(symbol_kind(&Some(String::new())), SymbolKind::Variable);
    assert_eq!(symbol_kind(&None), SymbolKind::Variable);
}

#[test]
fn a_symbol_stands_at_the_range_of_its_value() {
    let symbol = symbol_from_binding(&binding("zonk", at(3, 1, 3), Some("Func")));
    assert_eq!(
        symbol,
        Symbol {
            name: String::from("zonk"),
            kind: SymbolKind::Function,
            range: Range {
                start: Position { line: 3, character: 1 },
                end: Position { line: 3, character: 4 },
            },
        }
    );
}

#[test]
fn a_symbol_without_a_range_stands_at_the_start_of_the_document() {
    let symbol = symbol_from_binding(&binding("a", None, Some("Int")));
    assert_eq!(
        symbol,
        Symbol {
            name: String::from("a"),
            kind: SymbolKind::Variable,
            range: Range {
                start: Position { line: 0, character: 0 },
                end: Position { line: 0, character: 0 },
            },
        }
    );
}

#[test]
fn symbols_are_listed_in_document_order() {
    let bindings = vec![
        binding("zonk", at(2, 1, 3), Some("Func")),
        binding("b", at(1, 1, 3), Some("Int")),
        binding("a", at(0, 1, 3), Some("Int")),
        binding("c", at(1, 12, 3), Some("Int")),
    ];
    let symbols = symbols_from_bindings(&bindings);
    assert_eq!(names(&symbols), vec!["a", "b", "c", "zonk"]);
    assert_eq!(symbols[3].kind, SymbolKind::Function);
    assert_eq!(symbols[0].kind, SymbolKind::Variable);
}

#[test]
fn symbols_that_start_together_are_listed_by_name() {
    let bindings = vec![
        binding("b", at(0, 1, 3), Some("Int")),
        binding("c", None, Some("Int")),
        binding("a", at(0, 1, 3), Some("Int")),
        binding("B", None, Some("Int")),
    ];
    let symbols = symbols_from_bindings(&bindings);
    assert_eq!(names(&symbols), vec!["B", "c", "a", "b"]);
}

#[test]
fn the_order_of_the_bindings_does_not_show() {
    let one = vec![
        binding("a", at(0, 1, 3), Some("Int")),
        binding("b", at(0, 1, 3), Some("Func")),
        binding("c", at(4, 0, 1), None),
        binding("d", None, None),
    ];
    let expected = symbols_from_bindings(&one);
    let orders: [[usize; 4]; 5] =
        [[3, 2, 1, 0], [1, 0, 3, 2], [2, 0, 3, 1], [0, 2, 1, 3], [3, 0, 1, 2]];
    for order in orders {
        let other: Vec<Binding> = order.iter().map(|&i| one[i].clone()).collect();
        assert_eq!(symbols_from_bindings(&other), expected);
    }
}

#[test]
fn the_variables_of_the_engine_are_not_listed() {
    let bindings = vec![
        binding("!CURRENT-FILE-PATH!", None, Some("String")),
        binding("zonk", at(2, 1, 3), Some("Func")),
        binding("!CURRENT-MODULE-PATH!", None, Some("String")),
        binding("!PROFILE!", None, Some("String")),
        binding("a", at(0, 1, 3), Some("Int")),
        binding("!important!", at(1, 1, 3), Some("Int")),
    ];
    let symbols = symbols_from_bindings(&bindings);
    assert_eq!(names(&symbols), vec!["a", "!important!", "zonk"]);
}

#[test]
fn no_bindings_give_no_symbols() {
    assert_eq!(symbols_from_bindings(&Vec::new()), Vec::new());
}

#[test]
fn a_binding_that_comes_twice_is_listed_twice() {
    let bindings = vec![
        binding("a", at(0, 1, 3), Some("Int")),
        binding("a", at(0, 1, 3), Some("Int")),
    ];
    let symbols = symbols_from_bindings(&bindings);
    assert_eq!(names(&symbols), vec!["a", "a"]);
}

#[test]
fn document_order_compares_start_then_name_then_end_then_kind() {
    let base = symbol_from_binding(&binding("m", at(1, 4, 2), Some("Int")));
    let later_line = symbol_from_binding(&binding("a", at(2, 0, 2), Some("Int")));
    let later_column = symbol_from_binding(&binding("a", at(1, 5, 2), Some("Int")));
    let later_name = symbol_from_binding(&binding("n", at(1, 4, 2), Some("Int")));
    let later_end = symbol_from_binding(&binding("m", at(1, 4, 3), Some("Int")));
    let function = symbol_from_binding(&binding("m", at(1, 4, 2), Some("Func")));
    for later in [&later_line, &later_column, &later_name, &later_end] {
        assert!(symbol_precedes(&base, later));
        assert!(!symbol_precedes(later, &base));
    }
    assert!(symbol_precedes(&function, &base));
    assert!(!symbol_precedes(&base, &function));
    assert!(symbol_precedes(&base, &base));
}

#[test]
fn the_names_of_the_engine_are_told_from_others() {
    assert!(names_engine_variable("!PROFILE!"));
    assert!(names_engine_variable("!CURRENT-MODULE-PATH!"));
    assert!(names_engine_variable("!CURRENT-FILE-PATH!"));
    assert!(!names_engine_variable("!current-file-path!"));
    assert!(!names_engine_variable("CURRENT-FILE-PATH"));
    assert!(!names_engine_variable("!CURRENT-FILE-PATH"));
    assert!(!names_engine_variable("!x!"));
    assert!(!names_engine_variable(""));
}
