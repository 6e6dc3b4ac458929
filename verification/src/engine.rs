//! The boundary to the analysis engine: the types of the `tan` crates that
//! pass through the session, and the calls into them. Nothing in this file
//! is proved; each item says what it takes on trust.
//!
//! Only calls that return on every input that their contracts admit stand
//! here. The parser, the lints, the formatter, the compiler and the
//! evaluator of the engine panic on some inputs or run on without end;
//! they are run outside this library, which says what is to be run and
//! takes the outcome in.

use std::sync::Arc;
use tan::context::Context;
use tan::error::Error;
use tan::expr::Expr;
use tan::scope::Scope;
use vstd::multiset::Multiset;
use vstd::prelude::*;
use crate::range::{SourcePosition, SourceRange};

verus! {

/// An expression of the language, as `tan` represents it.
#[verifier::external_type_specification]
#[verifier::external_body]
pub struct ExExpr(tan::expr::Expr);

/// An error of the lexer, the parser or the evaluator of `tan`.
#[verifier::external_type_specification]
#[verifier::external_body]
pub struct ExError(tan::error::Error);

/// The execution context of `tan`: its scopes and loaded modules.
#[verifier::external_type_specification]
#[verifier::external_body]
pub struct ExContext(tan::context::Context);

/// A scope of `tan`: bindings from names to values, and a parent scope.
#[verifier::external_type_specification]
#[verifier::external_body]
pub struct ExScope(tan::scope::Scope);

/// What the parser returns for a text: the expressions it holds, or the
/// errors found in it.
pub type Parsed = Result<Vec<Expr>, Vec<Error>>;

/// A parse outcome as a mathematical value.
pub type ParsedView = Result<Seq<Expr>, Seq<Error>>;

/// The view of a parse outcome.
pub open spec fn parsed_view(parsed: Parsed) -> ParsedView {
    match parsed {
        Ok(exprs) => Ok(exprs@),
        Err(errors) => Err(errors@),
    }
}

/// A name with the value bound to it.
pub type Entry = (Seq<char>, Expr);

/// The views of the entries read from a scope, in order.
pub open spec fn entries_view(entries: Seq<(String, Arc<Expr>)>) -> Seq<Entry> {
    entries.map_values(|entry: (String, Arc<Expr>)| (entry.0@, *entry.1))
}

/// The terms of an expression that `Expr::as_list` takes for a list.
pub uninterp spec fn list_items(expr: Expr) -> Option<Seq<Expr>>;

/// The name of an expression that `Expr::as_symbol` takes for a symbol.
pub uninterp spec fn symbol_name(expr: Expr) -> Option<Seq<char>>;

/// The number of terms of the array that an expression carries as its
/// `range` annotation, if it carries an array there.
pub uninterp spec fn range_terms(expr: Expr) -> Option<nat>;

/// The range that `Expr::range` reads off an expression, if one is
/// recorded on it.
pub uninterp spec fn recorded_range(expr: Expr) -> Option<SourceRange>;

/// The name of the type that `Expr::dyn_type` finds a value to have in a
/// context, if what it finds is a type.
pub uninterp spec fn dynamic_type(expr: Expr, context: Context) -> Option<Seq<char>>;

/// The bindings that a scope holds itself, each name with its value.
pub uninterp spec fn bound_in(scope: Scope) -> Multiset<Entry>;

/// The scope below which a scope was opened: its field `parent`.
pub uninterp spec fn parent_of(scope: Scope) -> Option<Arc<Scope>>;

/// The scope that is current in a context: its field `scope`.
pub uninterp spec fn current_scope_of(context: Context) -> Arc<Scope>;

/// `Expr::as_list` looks through an annotation and returns the terms of a
/// list, `None` for any other expression.
pub assume_specification[ Expr::as_list ](expr: &Expr) -> (terms: Option<&Vec<Expr>>)
    ensures
        terms matches Some(v) ==> list_items(*expr) == Some(v@),
        terms is None ==> list_items(*expr) is None,
;

/// `Expr::as_symbol` looks through an annotation and returns the name of
/// a symbol, `None` for any other expression.
pub assume_specification[ Expr::as_symbol ](expr: &Expr) -> (name: Option<&str>)
    ensures
        name matches Some(s) ==> symbol_name(*expr) == Some(s@),
        name is None ==> symbol_name(*expr) is None,
;

/// Opens a scope with `Scope::new` below the one that is current in the
/// context, and makes it the current scope. Taken on trust, as
/// `Scope::new` shows it: the new scope has the scope that was current
/// for its parent and holds no binding.
#[verifier::external_body]
pub(crate) fn enter_scope(context: &mut Context)
    ensures
        parent_of(*current_scope_of(*final(context))) == Some(current_scope_of(*old(context))),
        bound_in(*current_scope_of(*final(context))) == Multiset::<Entry>::empty(),
{
    context.scope = Arc::new(Scope::new(context.scope.clone()));
}

/// Reads the field `scope` of a context, its current scope. Taken on
/// trust: the scope is a function of the context alone.
#[verifier::external_body]
pub(crate) fn current_scope(context: &Context) -> (scope: Arc<Scope>)
    ensures
        scope == current_scope_of(*context),
{
    context.scope.clone()
}

/// Reads the bindings that a scope holds itself, through its lock, in the
/// order in which its hash map hands them out, which differs from run to
/// run. Taken on trust: the list holds each binding of the scope once.
/// The lock is poisoned only where a holder of it has panicked, and the
/// read then panics too; nothing in the engine panics while it holds it.
#[verifier::external_body]
pub(crate) fn scope_bindings(scope: &Arc<Scope>) -> (entries: Vec<(String, Arc<Expr>)>)
    ensures
        entries_view(entries@).to_multiset() == bound_in(**scope),
{
    let bindings = scope.bindings.read().expect("not poisoned");
    bindings.iter().map(|(name, value)| (name.clone(), value.clone())).collect()
}

/// Calls `Expr::annotation` for the `range` annotation and `Expr::as_array`
/// on it, and counts the terms of the array. Taken on trust: the count is
/// a function of the expression alone.
#[verifier::external_body]
pub(crate) fn range_annotation_terms(expr: &Arc<Expr>) -> (terms: Option<usize>)
    ensures
        terms matches Some(n) ==> range_terms(**expr) == Some(n as nat),
        terms is None ==> range_terms(**expr) is None,
{
    expr.annotation("range").and_then(|range| range.as_array().map(|terms| terms.len()))
}

/// Calls `Expr::range`, which reads the range that the parser recorded on
/// an expression, and copies its fields. Taken on trust: the range is a
/// function of the expression alone. The read indexes the first two terms
/// of an array in the `range` annotation, so an array with fewer is left
/// out.
#[verifier::external_body]
pub(crate) fn expr_range(expr: &Arc<Expr>) -> (range: Option<SourceRange>)
    requires
        range_terms(**expr) matches Some(n) ==> n >= 2,
    ensures
        range == recorded_range(**expr),
{
    expr.range().map(|r| SourceRange {
        start: SourcePosition { index: r.start.index, line: r.start.line, col: r.start.col },
        end: SourcePosition { index: r.end.index, line: r.end.line, col: r.end.col },
    })
}

/// Calls `Expr::dyn_type`, which names the type that a value has at run
/// time, and returns the name where the answer is a type. Taken on trust:
/// the answer is a function of the value and the context alone. On a
/// symbol the call follows the symbol to what it is bound to, without a
/// bound on the way, so symbols are left out; on every other value it
/// answers from the value itself.
#[verifier::external_body]
pub(crate) fn expr_dyn_type(expr: &Arc<Expr>, context: &Context) -> (name: Option<String>)
    requires
        symbol_name(**expr) is None,
    ensures
        name matches Some(s) ==> dynamic_type(**expr, *context) == Some(s@),
        name is None ==> dynamic_type(**expr, *context) is None,
{
    match expr.dyn_type(context) {
        Expr::Type(name) => Some(name),
        _ => None,
    }
}

} // verus!
