//! An open document and the store of open documents as a mathematical
//! value: what opening, changing and closing a document do to it, and the
//! law that ties what is found in the store to what was last put there.

use vstd::prelude::*;
use crate::diagnostic::{diagnostics_view, Diagnostic, DiagnosticView};
use crate::engine::{parsed_view, Parsed, ParsedView};

verus! {

/// A document as a mathematical value: its full text, what the engine's
/// parser made of it, and what the engine found to report of it.
pub struct DocumentView {
    pub text: Seq<char>,
    pub analysis: ParsedView,
    pub diagnostics: Seq<DiagnosticView>,
}

/// An open document: its text, and the analysis and the diagnostics that
/// came with the text. The three are set together and never apart.
pub struct Document {
    text: String,
    analysis: Parsed,
    diagnostics: Vec<Diagnostic>,
}

impl View for Document {
    type V = DocumentView;

    closed spec fn view(&self) -> DocumentView {
        DocumentView {
            text: self.text@,
            analysis: parsed_view(self.analysis),
            diagnostics: diagnostics_view(self.diagnostics@),
        }
    }
}

/// The document that holds a text with what the parser made of it and
/// what the engine found to report of it.
pub open spec fn document_of(text: Seq<char>, analysis: Parsed, diagnostics: Seq<Diagnostic>) -> DocumentView {
    DocumentView { text, analysis: parsed_view(analysis), diagnostics: diagnostics_view(diagnostics) }
}

/// Copies a list of diagnostics.
pub fn copy_diagnostics(diagnostics: &Vec<Diagnostic>) -> (copy: Vec<Diagnostic>)
    ensures
        diagnostics_view(copy@) == diagnostics_view(diagnostics@),
{
    let mut copy: Vec<Diagnostic> = Vec::new();
    let mut i: usize = 0;
    while i < diagnostics.len()
        invariant
            i <= diagnostics.len(),
            copy@.len() == i,
            forall|j: int| 0 <= j < i ==> (#[trigger] copy@[j])@ == diagnostics@[j]@,
        decreases diagnostics.len() - i,
    {
        let d = &diagnostics[i];
        copy.push(Diagnostic { range: d.range, severity: d.severity, message: d.message.clone() });
        i = i + 1;
    }
    assert(diagnostics_view(copy@) =~= diagnostics_view(diagnostics@));
    copy
}

impl Document {
    /// Takes a text in together with what the parser made of it and
    /// what the engine found to report of it.
    pub fn new(text: &str, analysis: Parsed, diagnostics: Vec<Diagnostic>) -> (document: Document)
        ensures
            document@ == document_of(text@, analysis, diagnostics@),
    {
        Document { text: text.to_owned(), analysis, diagnostics }
    }

    /// The text of the document.
    pub fn text(&self) -> (text: &str)
        ensures
            text@ == self@.text,
    {
        self.text.as_str()
    }

    /// The analysis of the document.
    pub fn analysis(&self) -> (analysis: &Parsed)
        ensures
            parsed_view(*analysis) == self@.analysis,
    {
        &self.analysis
    }

    /// The diagnostics of the document.
    pub fn diagnostics(&self) -> (diagnostics: &Vec<Diagnostic>)
        ensures
            diagnostics_view(diagnostics@) == self@.diagnostics,
    {
        &self.diagnostics
    }
}

/// The open documents, each under its URI.
pub type StoreView = Map<Seq<char>, DocumentView>;

/// An event in the life of a document.
pub enum StoreOp {
    /// The document was opened or changed: it now has the given text,
    /// with the given analysis.
    Put { uri: Seq<char>, document: DocumentView },
    /// The document was closed.
    Close { uri: Seq<char> },
}

impl StoreOp {
    /// The document that the event is about.
    pub open spec fn uri(self) -> Seq<char> {
        match self {
            StoreOp::Put { uri, .. } => uri,
            StoreOp::Close { uri } => uri,
        }
    }

    /// What the event stores, if it stores a document.
    pub open spec fn document(self) -> Option<DocumentView> {
        match self {
            StoreOp::Put { document, .. } => Some(document),
            StoreOp::Close { .. } => None,
        }
    }
}

/// The store after an event: opening and changing put the document with
/// the new text and its analysis in place of whatever was there, closing
/// removes the document.
pub open spec fn apply_op(store: StoreView, op: StoreOp) -> StoreView {
    match op {
        StoreOp::Put { uri, document } => store.insert(uri, document),
        StoreOp::Close { uri } => store.remove(uri),
    }
}

/// The store after a sequence of events, the first applied first.
pub open spec fn apply_ops(store: StoreView, ops: Seq<StoreOp>) -> StoreView
    decreases ops.len(),
{
    if ops.len() == 0 {
        store
    } else {
        apply_op(apply_ops(store, ops.drop_last()), ops.last())
    }
}

/// The last of the events that is about the document `uri`, if there is
/// one.
pub open spec fn last_op_on(ops: Seq<StoreOp>, uri: Seq<char>) -> Option<StoreOp>
    decreases ops.len(),
{
    if ops.len() == 0 {
        None
    } else if ops.last().uri() == uri {
        Some(ops.last())
    } else {
        last_op_on(ops.drop_last(), uri)
    }
}

/// After a sequence of events, a document that some event was about is
/// open if and only if the last such event stored a text, and it then
/// holds exactly that text with the analysis that came with it: text and
/// analysis are never of different events. A document that no event was
/// about is as it was before.
pub proof fn lemma_lookup_after_ops(store: StoreView, ops: Seq<StoreOp>, uri: Seq<char>)
    ensures
        match last_op_on(ops, uri) {
            Some(op) => match op.document() {
                Some(document) => apply_ops(store, ops).contains_key(uri) && apply_ops(store, ops)[uri]
                    == document,
                None => !apply_ops(store, ops).contains_key(uri),
            },
            None => apply_ops(store, ops).contains_key(uri) == store.contains_key(uri) && (
            store.contains_key(uri) ==> apply_ops(store, ops)[uri] == store[uri]),
        },
    decreases ops.len(),
{
    if ops.len() > 0 {
        lemma_lookup_after_ops(store, ops.drop_last(), uri);
    }
}

} // verus!
