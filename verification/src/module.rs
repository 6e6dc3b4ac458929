//! The definitions of a module: which of its expressions are definitions,
//! for the scan that evaluates them, and the list of what the scanned
//! scope binds.

use std::sync::Arc;
use tan::context::Context;
use tan::expr::Expr;
use tan::scope::Scope;
use vstd::prelude::*;
use vstd::multiset::Multiset;
use crate::engine::{
    bound_in, current_scope, current_scope_of, dynamic_type, enter_scope, entries_view,
    expr_dyn_type, expr_range, list_items, parent_of, range_annotation_terms, range_terms,
    recorded_range, scope_bindings, symbol_name, Entry,
};
use crate::symbol::{
    bindings_view, document_symbols_of, in_document_order, names_definitions,
    symbols_from_bindings, symbols_view, Binding, BindingView, Symbol, SymbolView,
};
use crate::text::str_eq;

verus! {

/// The expression is a definition: a list whose first term is the symbol
/// `let`.
pub open spec fn is_let_form(expr: Expr) -> bool {
    match list_items(expr) {
        Some(terms) => terms.len() > 0 && symbol_name(terms[0]) == Some("let"@),
        None => false,
    }
}

/// None of the expressions from `from` up to `to` is a definition.
pub open spec fn defines_nothing(exprs: Seq<Expr>, from: int, to: int) -> bool {
    forall|i: int| from <= i < to && 0 <= i < exprs.len() ==> !is_let_form(#[trigger] exprs[i])
}

/// The place of the first definition at or after `from`, if there is one.
pub open spec fn is_next_definition(exprs: Seq<Expr>, from: int, next: Option<int>) -> bool {
    match next {
        Some(at) => from <= at < exprs.len() && is_let_form(exprs[at]) && defines_nothing(
            exprs,
            from,
            at,
        ),
        None => defines_nothing(exprs, from, exprs.len() as int),
    }
}

/// Whether an expression is a definition.
pub fn is_let(expr: &Expr) -> (r: bool)
    ensures
        r == is_let_form(*expr),
{
    match expr.as_list() {
        Some(terms) => {
            if terms.len() == 0 {
                return false;
            }
            match terms[0].as_symbol() {
                Some(name) => str_eq(name, "let"),
                None => false,
            }
        },
        None => false,
    }
}

/// Finds the next definition of a module for the scan that evaluates its
/// definitions in order: the place of the first `let` form at or after
/// `from`. Every other expression, a `use` among them, is passed over.
pub fn next_definition(exprs: &[Expr], from: usize) -> (next: Option<usize>)
    ensures
        is_next_definition(
            exprs@,
            from as int,
            match next {
                Some(at) => Some(at as int),
                None => None,
            },
        ),
{
    let mut i: usize = from;
    while i < exprs.len()
        invariant
            from <= i,
            defines_nothing(exprs@, from as int, i as int),
        decreases exprs.len() - i,
    {
        if is_let(&exprs[i]) {
            return Some(i);
        }
        i = i + 1;
    }
    None
}

/// Opens the scope of a module for the scan of its definitions: a new
/// scope below the one that is current in the context, which becomes the
/// current one and holds no binding yet.
pub fn open_scope(context: &mut Context) -> (scope: Arc<Scope>)
    ensures
        scope == current_scope_of(*final(context)),
        parent_of(*scope) == Some(current_scope_of(*old(context))),
        bound_in(*scope) == Multiset::<Entry>::empty(),
{
    enter_scope(context);
    current_scope(context)
}

/// The range annotation of a value can be read: it is no array, or an
/// array of two terms at least.
pub open spec fn range_readable(value: Expr) -> bool {
    match range_terms(value) {
        Some(terms) => terms >= 2,
        None => true,
    }
}

/// What is reported of a name and the value bound to it in a context: the
/// range recorded on the value, none where the annotation cannot be read,
/// and the name of the type that the value has, none for a symbol, whose
/// type is that of something else.
pub open spec fn report_of(entry: Entry, context: Context) -> BindingView {
    BindingView {
        name: entry.0,
        range: if range_readable(entry.1) {
            recorded_range(entry.1)
        } else {
            None
        },
        value_type: if symbol_name(entry.1) is None {
            dynamic_type(entry.1, context)
        } else {
            None
        },
    }
}

/// What is reported of each of the entries of a scope, in order.
pub open spec fn reports_of(entries: Seq<Entry>, context: Context) -> Seq<BindingView> {
    entries.map_values(|entry: Entry| report_of(entry, context))
}

/// The symbols are those of the scope: one for each definition of the
/// document among the bindings that the scope holds, made of what is
/// reported of the binding in the context.
pub open spec fn lists_scope(symbols: Seq<SymbolView>, scope: Scope, context: Context) -> bool {
    exists|entries: Seq<Entry>|
        entries.to_multiset() == bound_in(scope) && symbols.to_multiset() == document_symbols_of(
            #[trigger] reports_of(entries, context),
        ).to_multiset()
}

/// Makes the bindings of the entries of a scope, one for one and in the
/// same order: each with the name of the entry, the range recorded on its
/// value and the name of the value's type in the context.
pub fn bindings_from_entries(entries: &Vec<(String, Arc<Expr>)>, context: &Context) -> (bindings: Vec<
    Binding,
>)
    ensures
        bindings@.len() == entries@.len(),
        bindings_view(bindings@) == reports_of(entries_view(entries@), *context),
{
    let ghost given = entries_view(entries@);
    let mut bindings: Vec<Binding> = Vec::new();
    let mut i: usize = 0;
    assert(bindings_view(bindings@) =~= reports_of(given.take(0), *context));
    while i < entries.len()
        invariant
            i <= entries.len(),
            given == entries_view(entries@),
            bindings@.len() == i,
            bindings_view(bindings@) == reports_of(given.take(i as int), *context),
        decreases entries.len() - i,
    {
        let entry = &entries[i];
        let ghost before = bindings_view(bindings@);
        let range = match range_annotation_terms(&entry.1) {
            Some(terms) => if terms >= 2 {
                expr_range(&entry.1)
            } else {
                None
            },
            None => expr_range(&entry.1),
        };
        let value_type = if entry.1.as_symbol().is_none() {
            expr_dyn_type(&entry.1, context)
        } else {
            None
        };
        let binding = Binding { name: entry.0.clone(), range, value_type };
        assert(binding@ == report_of(given[i as int], *context));
        bindings.push(binding);
        proof {
            assert(bindings_view(bindings@) =~= before.push(binding@));
            assert(given.take(i + 1) =~= given.take(i as int).push(given[i as int]));
            assert(reports_of(given.take(i + 1), *context) =~= reports_of(
                given.take(i as int),
                *context,
            ).push(report_of(given[i as int], *context)));
        }
        i = i + 1;
    }
    assert(given.take(i as int) =~= given);
    bindings
}

/// The bindings are what is reported of the bindings that the scope
/// holds, each once.
pub open spec fn reports_scope(bindings: Seq<BindingView>, scope: Scope, context: Context) -> bool {
    exists|entries: Seq<Entry>|
        entries.to_multiset() == bound_in(scope) && bindings == #[trigger] reports_of(entries, context)
}

/// Reads what a scope binds: for each binding that the scope holds its
/// name, the range recorded on its value and the name of the value's
/// type, in the order in which the scope hands its bindings out.
fn read_bindings(scope: &Arc<Scope>, context: &Context) -> (bindings: Vec<Binding>)
    ensures
        reports_scope(bindings_view(bindings@), **scope, *context),
{
    let entries = scope_bindings(scope);
    let bindings = bindings_from_entries(&entries, context);
    assert(bindings_view(bindings@) == reports_of(entries_view(entries@), *context));
    bindings
}

/// Lists the symbols of a scope in document order: one symbol for each
/// definition of the document among the bindings that the scope holds.
pub fn scope_symbols(scope: &Arc<Scope>, context: &Context) -> (symbols: Vec<Symbol>)
    ensures
        in_document_order(symbols_view(symbols@)),
        names_definitions(symbols_view(symbols@)),
        lists_scope(symbols_view(symbols@), **scope, *context),
{
    let bindings = read_bindings(scope, context);
    symbols_from_bindings(&bindings)
}

} // verus!
