//! The symbols of a document: what the engine reports of each top-level
//! binding, the symbol that the server makes of it, and the order in which
//! the symbols are listed.

use vstd::prelude::*;
use vstd::relations::{sorted_by, total_ordering};
use vstd::seq_lib::{lemma_sorted_unique, to_multiset_build, to_multiset_insert};
use crate::range::{
    lsp_range_from_tan_range, lsp_range_top, protocol_range, top_range, Range, SourceRange,
};
use crate::text::{
    lemma_bytes_le_reflexive, lemma_bytes_le_total, lemma_bytes_le_transitive,
    lemma_text_le_antisymmetric, str_eq, str_le, text_le,
};

verus! {

/// What kind of thing a symbol names.
#[derive(Clone, Copy, Debug, PartialEq, Eq, Structural)]
pub enum SymbolKind {
    Function,
    Variable,
}

/// A top-level binding as the engine reports it: its name, the range
/// recorded on its value if there is one, and the name of the value's type
/// if the engine could tell it.
#[derive(Clone, Debug, PartialEq, Eq)]
pub struct Binding {
    pub name: String,
    pub range: Option<SourceRange>,
    pub value_type: Option<String>,
}

/// A binding as a mathematical value.
pub struct BindingView {
    pub name: Seq<char>,
    pub range: Option<SourceRange>,
    pub value_type: Option<Seq<char>>,
}

impl View for Binding {
    type V = BindingView;

    open spec fn view(&self) -> BindingView {
        BindingView {
            name: self.name@,
            range: self.range,
            value_type: match self.value_type {
                Some(t) => Some(t@),
                None => None,
            },
        }
    }
}

/// A symbol of a document: a name, its kind, and where it stands.
#[derive(Clone, Debug, PartialEq, Eq)]
pub struct Symbol {
    pub name: String,
    pub kind: SymbolKind,
    pub range: Range,
}

/// A symbol as a mathematical value.
pub struct SymbolView {
    pub name: Seq<char>,
    pub kind: SymbolKind,
    pub range: Range,
}

impl View for Symbol {
    type V = SymbolView;

    open spec fn view(&self) -> SymbolView {
        SymbolView { name: self.name@, kind: self.kind, range: self.range }
    }
}

/// The views of a list of bindings, in order.
pub open spec fn bindings_view(bindings: Seq<Binding>) -> Seq<BindingView> {
    bindings.map_values(|b: Binding| b@)
}

/// The views of a list of symbols, in order.
pub open spec fn symbols_view(symbols: Seq<Symbol>) -> Seq<SymbolView> {
    symbols.map_values(|s: Symbol| s@)
}

/// The kind that a type name stands for: a function for `Func`, a
/// variable for any other name and where the type is not known.
pub open spec fn kind_of_type(value_type: Option<Seq<char>>) -> SymbolKind {
    if value_type == Some("Func"@) {
        SymbolKind::Function
    } else {
        SymbolKind::Variable
    }
}

/// Where a symbol stands: at the range recorded on its value, or at the
/// start of the document where none was recorded.
pub open spec fn range_of_binding(range: Option<SourceRange>) -> Range {
    match range {
        Some(r) => protocol_range(r),
        None => top_range(),
    }
}

/// The symbol that the server makes of a binding.
pub open spec fn symbol_of(binding: BindingView) -> SymbolView {
    SymbolView {
        name: binding.name,
        kind: kind_of_type(binding.value_type),
        range: range_of_binding(binding.range),
    }
}

/// The symbols of a list of bindings, one for one and in the same order.
pub open spec fn symbols_of(bindings: Seq<BindingView>) -> Seq<SymbolView> {
    bindings.map_values(|b: BindingView| symbol_of(b))
}

/// The name is one that the engine keeps for variables of its own, which
/// it binds in the scopes of a program beside the program's definitions.
pub open spec fn is_engine_name(name: Seq<char>) -> bool {
    name == "!PROFILE!"@ || name == "!CURRENT-MODULE-PATH!"@ || name == "!CURRENT-FILE-PATH!"@
}

/// The bindings that are definitions of the document: all but the
/// engine's own variables.
pub open spec fn is_definition() -> spec_fn(BindingView) -> bool {
    |b: BindingView| !is_engine_name(b.name)
}

/// The symbols that a list of bindings gives rise to: one for each
/// definition of the document, in the order of the bindings.
pub open spec fn document_symbols_of(bindings: Seq<BindingView>) -> Seq<SymbolView> {
    symbols_of(bindings.filter(is_definition()))
}

/// The place of a kind among the kinds.
pub open spec fn kind_rank(kind: SymbolKind) -> int {
    match kind {
        SymbolKind::Function => 0,
        SymbolKind::Variable => 1,
    }
}

/// Document order: `a` is listed at or before `b`. Symbols are ordered by
/// the line and the character at which they start; symbols that start at
/// the same place by their names; and symbols of the same name and start
/// by where they end and by their kind, so that the order is total.
pub open spec fn precedes(a: SymbolView, b: SymbolView) -> bool {
    if a.range.start.line != b.range.start.line {
        a.range.start.line < b.range.start.line
    } else if a.range.start.character != b.range.start.character {
        a.range.start.character < b.range.start.character
    } else if a.name != b.name {
        text_le(a.name, b.name)
    } else if a.range.end.line != b.range.end.line {
        a.range.end.line < b.range.end.line
    } else if a.range.end.character != b.range.end.character {
        a.range.end.character < b.range.end.character
    } else {
        kind_rank(a.kind) <= kind_rank(b.kind)
    }
}

/// Document order as a relation.
pub open spec fn document_order() -> spec_fn(SymbolView, SymbolView) -> bool {
    |a: SymbolView, b: SymbolView| precedes(a, b)
}

/// A list of symbols is in document order.
pub open spec fn in_document_order(symbols: Seq<SymbolView>) -> bool {
    sorted_by(symbols, document_order())
}

/// None of the symbols bears a name of the engine's own variables.
pub open spec fn names_definitions(symbols: Seq<SymbolView>) -> bool {
    forall|i: int| 0 <= i < symbols.len() ==> !is_engine_name((#[trigger] symbols[i]).name)
}

/// Of two symbols one precedes the other.
pub proof fn lemma_precedes_total(a: SymbolView, b: SymbolView)
    ensures
        precedes(a, b) || precedes(b, a),
{
    lemma_bytes_le_total(vstd::utf8::encode_utf8(a.name), vstd::utf8::encode_utf8(b.name));
}

/// Two symbols that precede each other are the same symbol.
pub proof fn lemma_precedes_antisymmetric(a: SymbolView, b: SymbolView)
    requires
        precedes(a, b),
        precedes(b, a),
    ensures
        a == b,
{
    if a.name != b.name {
        lemma_text_le_antisymmetric(a.name, b.name);
    }
}

/// Document order is transitive.
pub proof fn lemma_precedes_transitive(a: SymbolView, b: SymbolView, c: SymbolView)
    requires
        precedes(a, b),
        precedes(b, c),
    ensures
        precedes(a, c),
{
    if a.range.start == b.range.start && b.range.start == c.range.start {
        if a.name != b.name && b.name != c.name {
            lemma_bytes_le_transitive(
                vstd::utf8::encode_utf8(a.name),
                vstd::utf8::encode_utf8(b.name),
                vstd::utf8::encode_utf8(c.name),
            );
            if a.name == c.name {
                lemma_text_le_antisymmetric(a.name, b.name);
            }
        }
    }
}

/// Document order is a total order.
pub proof fn lemma_document_order_is_total()
    ensures
        total_ordering(document_order()),
{
    let leq = document_order();
    assert forall|x: SymbolView| #[trigger] leq(x, x) by {
        lemma_bytes_le_reflexive(vstd::utf8::encode_utf8(x.name));
    }
    assert forall|x: SymbolView, y: SymbolView| #[trigger] leq(x, y) && #[trigger] leq(y, x) implies x
        == y by {
        lemma_precedes_antisymmetric(x, y);
    }
    assert forall|x: SymbolView, y: SymbolView, z: SymbolView| #[trigger]
        leq(x, y) && #[trigger] leq(y, z) implies leq(x, z) by {
        lemma_precedes_transitive(x, y, z);
    }
    assert forall|x: SymbolView, y: SymbolView| #[trigger] leq(x, y) || #[trigger] leq(y, x) by {
        lemma_precedes_total(x, y);
    }
}

/// Two lists in document order that hold the same symbols, each as often
/// as the other, are the same list: the order in which bindings are handed
/// in does not show in the list of symbols.
pub proof fn lemma_document_order_is_unique(x: Seq<SymbolView>, y: Seq<SymbolView>)
    requires
        in_document_order(x),
        in_document_order(y),
        x.to_multiset() == y.to_multiset(),
    ensures
        x == y,
{
    lemma_document_order_is_total();
    lemma_sorted_unique(x, y, document_order());
}

/// The kind of symbol that a type name stands for.
pub fn symbol_kind(value_type: &Option<String>) -> (kind: SymbolKind)
    ensures
        kind == kind_of_type(
            match *value_type {
                Some(t) => Some(t@),
                None => None,
            },
        ),
{
    match value_type {
        Some(t) => {
            if str_eq(t.as_str(), "Func") {
                SymbolKind::Function
            } else {
                SymbolKind::Variable
            }
        },
        None => SymbolKind::Variable,
    }
}

/// Makes the symbol of one binding.
pub fn symbol_from_binding(binding: &Binding) -> (symbol: Symbol)
    ensures
        symbol@ == symbol_of(binding@),
{
    let range = match binding.range {
        Some(r) => lsp_range_from_tan_range(r),
        None => lsp_range_top(),
    };
    Symbol { name: binding.name.clone(), kind: symbol_kind(&binding.value_type), range }
}

/// Whether `a` is listed at or before `b` in document order.
pub fn symbol_precedes(a: &Symbol, b: &Symbol) -> (r: bool)
    ensures
        r == precedes(a@, b@),
{
    if a.range.start.line != b.range.start.line {
        a.range.start.line < b.range.start.line
    } else if a.range.start.character != b.range.start.character {
        a.range.start.character < b.range.start.character
    } else if !str_eq(a.name.as_str(), b.name.as_str()) {
        str_le(a.name.as_str(), b.name.as_str())
    } else if a.range.end.line != b.range.end.line {
        a.range.end.line < b.range.end.line
    } else if a.range.end.character != b.range.end.character {
        a.range.end.character < b.range.end.character
    } else {
        match (a.kind, b.kind) {
            (SymbolKind::Variable, SymbolKind::Function) => false,
            _ => true,
        }
    }
}

/// Whether a name is one of the engine's own variables.
pub fn names_engine_variable(name: &str) -> (r: bool)
    ensures
        r == is_engine_name(name@),
{
    str_eq(name, "!PROFILE!") || str_eq(name, "!CURRENT-MODULE-PATH!") || str_eq(
        name,
        "!CURRENT-FILE-PATH!",
    )
}

/// Lists the symbols of the given bindings in document order. The list
/// holds one symbol for each binding that is a definition of the
/// document, none for a variable of the engine's own, and is the only
/// list in document order that does.
pub fn symbols_from_bindings(bindings: &Vec<Binding>) -> (symbols: Vec<Symbol>)
    ensures
        in_document_order(symbols_view(symbols@)),
        names_definitions(symbols_view(symbols@)),
        symbols_view(symbols@).to_multiset() == document_symbols_of(bindings_view(bindings@)).to_multiset(),
{
    let ghost given = bindings_view(bindings@);
    let mut symbols: Vec<Symbol> = Vec::new();
    let mut i: usize = 0;
    proof {
        assert(given.take(0) =~= Seq::<BindingView>::empty());
        reveal(Seq::filter);
        assert(document_symbols_of(given.take(0)) =~= Seq::<SymbolView>::empty());
        assert(symbols_view(symbols@) =~= Seq::<SymbolView>::empty());
    }
    while i < bindings.len()
        invariant
            i <= bindings.len(),
            given == bindings_view(bindings@),
            in_document_order(symbols_view(symbols@)),
            names_definitions(symbols_view(symbols@)),
            symbols_view(symbols@).to_multiset() == document_symbols_of(given.take(i as int)).to_multiset(),
        decreases bindings.len() - i,
    {
        proof {
            let earlier = given.take(i as int);
            assert(given.take(i + 1) =~= earlier.push(given[i as int]));
            earlier.lemma_filter_push(given[i as int], is_definition());
            if !is_engine_name(given[i as int].name) {
                assert(document_symbols_of(given.take(i + 1)) =~= document_symbols_of(earlier).push(
                    symbol_of(given[i as int]),
                ));
            }
        }
        if names_engine_variable(bindings[i].name.as_str()) {
            i = i + 1;
            continue;
        }
        let ghost wanted = document_symbols_of(given.take(i as int));
        let symbol = symbol_from_binding(&bindings[i]);
        let ghost before = symbols_view(symbols@);
        let mut k: usize = 0;
        while k < symbols.len() && symbol_precedes(&symbols[k], &symbol)
            invariant
                k <= symbols.len(),
                before == symbols_view(symbols@),
                forall|j: int| 0 <= j < k ==> precedes(#[trigger] before[j], symbol@),
            decreases symbols.len() - k,
        {
            k = k + 1;
        }
        proof {
            let after = before.insert(k as int, symbol@);
            assert forall|a: int, b: int| 0 <= a < b < after.len() implies #[trigger] document_order()(
                after[a],
                after[b],
            ) by {
                if a == k {
                    lemma_precedes_total(before[k as int], symbol@);
                    if b - 1 > k {
                        assert(document_order()(before[k as int], before[b - 1]));
                        lemma_precedes_transitive(symbol@, before[k as int], before[b - 1]);
                    }
                } else if b == k {
                } else {
                    let a0 = if a < k { a } else { a - 1 };
                    let b0 = if b < k { b } else { b - 1 };
                    assert(document_order()(before[a0], before[b0]));
                }
            }
        }
        let ghost added = symbol@;
        symbols.insert(k, symbol);
        proof {
            assert(symbols_view(symbols@) =~= before.insert(k as int, added));
            to_multiset_insert(before, k as int, added);
            to_multiset_build(wanted, added);
        }
        i = i + 1;
    }
    assert(given.take(i as int) =~= given);
    symbols
}

} // verus!
