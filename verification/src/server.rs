//! The session: the store of open documents with the engine's context,
//! and the handlers that work on them.

use std::sync::Arc;
use tan::context::Context;
use tan::scope::Scope;
use vstd::hash_map::StringHashMap;
use vstd::prelude::*;
use crate::diagnostic::Diagnostic;
use crate::document::{copy_diagnostics, document_of, Document, DocumentView, StoreView};
use crate::engine::Parsed;
use crate::message::{edits_view, Outgoing, OutgoingView, SessionError, TextEdit, TextEditView};
use crate::module::{lists_scope, scope_symbols};
use crate::range::{lsp_range_whole_document, whole_document_range};
use crate::symbol::{in_document_order, names_definitions, symbols_view, Symbol, SymbolView};

verus! {

/// The state of a session: the open documents, and the context of the
/// analysis engine, which lives as long as the session.
pub struct Server {
    documents: StringHashMap<Document>,
    context: Context,
}

/// The notification that publishes, for the document `uri`, the
/// diagnostics that the store holds of it.
pub open spec fn published(store: StoreView, uri: Seq<char>) -> OutgoingView {
    OutgoingView::Diagnostics { uri, diagnostics: store[uri].diagnostics }
}

/// The edits that replace a whole document by `new_text`: one edit, over
/// the range that covers a document of any length.
pub open spec fn replaced_by(new_text: Seq<char>) -> Seq<TextEditView> {
    seq![TextEditView { range: whole_document_range(), new_text }]
}

/// The list is a fit list of the symbols of a scanned scope: in document
/// order, without the engine's own variables, and holding one symbol for
/// each definition of the document among the bindings of the scope.
pub open spec fn symbols_ok(symbols: Seq<SymbolView>, scope: Scope, context: Context) -> bool {
    in_document_order(symbols) && names_definitions(symbols) && lists_scope(symbols, scope, context)
}

/// Makes the edits that replace a whole document by the given text. No
/// smaller edit is looked for.
pub fn whole_document_edit(new_text: String) -> (edits: Vec<TextEdit>)
    ensures
        edits_view(edits@) == replaced_by(new_text@),
{
    let mut edits: Vec<TextEdit> = Vec::new();
    edits.push(TextEdit { range: lsp_range_whole_document(), new_text });
    assert(edits_view(edits@) =~= replaced_by(new_text@));
    edits
}

impl View for Server {
    type V = StoreView;

    closed spec fn view(&self) -> StoreView {
        self.documents@.map_values(|d: Document| d@)
    }
}

impl Server {
    /// The context of the engine that the session keeps.
    pub closed spec fn engine_context(&self) -> Context {
        self.context
    }

    /// Starts a session with no open document, around the given context
    /// of the engine, which it keeps for as long as it lives.
    pub fn new(context: Context) -> (server: Server)
        ensures
            server@ == Map::<Seq<char>, DocumentView>::empty(),
            server.engine_context() == context,
    {
        let server = Server { documents: StringHashMap::new(), context };
        assert(server@ =~= Map::<Seq<char>, DocumentView>::empty());
        server
    }

    /// The context of the engine, to read.
    pub fn context(&self) -> (context: &Context)
        ensures
            *context == self.engine_context(),
    {
        &self.context
    }

    /// The context of the engine, for the engine to work in. The
    /// documents are out of its reach.
    pub fn context_mut(&mut self) -> (context: &mut Context)
        ensures
            *context == old(self).engine_context(),
            final(self).engine_context() == *final(context),
            final(self)@ == old(self)@,
    {
        &mut self.context
    }

    /// Takes in the full text of a document with what the parser made of
    /// it and what the engine found to report of it, on opening and on
    /// every change: text, analysis and diagnostics together take the
    /// place of whatever the store held under the URI.
    pub fn process_document(
        &mut self,
        uri: &str,
        text: &str,
        analysis: Parsed,
        diagnostics: Vec<Diagnostic>,
    )
        ensures
            final(self)@ == old(self)@.insert(uri@, document_of(text@, analysis, diagnostics@)),
            final(self).engine_context() == old(self).engine_context(),
    {
        let document = Document::new(text, analysis, diagnostics);
        let ghost stored = document;
        self.documents.insert(uri.to_owned(), document);
        assert(self@ =~= old(self)@.insert(uri@, document_of(text@, analysis, diagnostics@))) by {
            assert(self.documents@ == old(self).documents@.insert(uri@, stored));
        }
    }

    /// Forgets a document. Diagnostics published for it stay as they are.
    pub fn close_document(&mut self, uri: &str)
        ensures
            final(self)@ == old(self)@.remove(uri@),
            final(self).engine_context() == old(self).engine_context(),
    {
        self.documents.remove(uri);
        assert(self@ =~= old(self)@.remove(uri@));
    }

    /// Looks a document up; a URI that is not open is an error.
    pub fn get(&self, uri: &str) -> (found: Result<&Document, SessionError>)
        ensures
            match found {
                Ok(document) => self@.contains_key(uri@) && document@ == self@[uri@],
                Err(error) => error == SessionError::UnknownDocument && !self@.contains_key(uri@),
            },
    {
        match self.documents.get(uri) {
            Some(document) => Ok(document),
            None => Err(SessionError::UnknownDocument),
        }
    }

    /// Makes the notification that publishes the diagnostics of an open
    /// document, those that came with its text: the parse errors of a
    /// text that did not parse, the findings of the lints on one that
    /// did. An empty list is published like any other, as only that
    /// clears what was shown before. Nothing is published for a URI that
    /// is not open.
    pub fn send_diagnostics(&self, uri: &str) -> (sent: Result<Outgoing, SessionError>)
        ensures
            match sent {
                Ok(notification) => self@.contains_key(uri@) && notification@ == published(self@, uri@),
                Err(error) => error == SessionError::UnknownDocument && !self@.contains_key(uri@),
            },
    {
        let document = self.get(uri)?;
        let diagnostics = copy_diagnostics(document.diagnostics());
        Ok(Outgoing::Diagnostics { uri: uri.to_owned(), diagnostics })
    }

    /// The expressions of an open document that parsed, for the scan of
    /// its definitions. A URI that is not open is an unknown document, a
    /// document whose text did not parse is a parse failure.
    pub fn forms_to_scan(&self, uri: &str) -> (forms: Result<&Vec<tan::expr::Expr>, SessionError>)
        ensures
            match forms {
                Ok(exprs) => self@.contains_key(uri@) && self@[uri@].analysis is Ok
                    && self@[uri@].analysis->Ok_0 == exprs@,
                Err(SessionError::UnknownDocument) => !self@.contains_key(uri@),
                Err(SessionError::ParseFailure) => self@.contains_key(uri@) && self@[uri@].analysis is Err,
                Err(_) => false,
            },
    {
        let document = self.get(uri)?;
        match document.analysis() {
            Ok(exprs) => Ok(exprs),
            Err(_) => Err(SessionError::ParseFailure),
        }
    }

    /// Lists the symbols of an open document that parsed, from the scope
    /// that the scan of its definitions has left: what the scope binds
    /// is listed in document order. `scanned` is the scope, or nothing
    /// where a definition did not compile.
    ///
    /// A URI that is not open is an unknown document. A document whose
    /// text did not parse is a parse failure, and so is one with a
    /// definition that did not compile.
    pub fn document_symbols(&self, uri: &str, scanned: Option<&Arc<Scope>>) -> (listed: Result<
        Vec<Symbol>,
        SessionError,
    >)
        ensures
            match listed {
                Ok(symbols) => self@.contains_key(uri@) && self@[uri@].analysis is Ok && scanned is Some
                    && symbols_ok(symbols_view(symbols@), **scanned->0, self.engine_context()),
                Err(SessionError::UnknownDocument) => !self@.contains_key(uri@),
                Err(SessionError::ParseFailure) => self@.contains_key(uri@) && (
                self@[uri@].analysis is Err || scanned is None),
                Err(_) => false,
            },
    {
        let _ = self.forms_to_scan(uri)?;
        match scanned {
            Some(scope) => Ok(scope_symbols(scope, &self.context)),
            None => Err(SessionError::ParseFailure),
        }
    }

    /// Answers a request for the formatting of an open document with what
    /// the formatter has made of its text: one edit that replaces the
    /// whole document by the formatted text. `formatted` is that text, or
    /// nothing where the text to format did not parse in full.
    ///
    /// A URI that is not open is an unknown document; a text that does
    /// not parse is a parse failure, and nothing of it is formatted.
    pub fn format_document(&self, uri: &str, formatted: Option<String>) -> (edits: Result<
        Vec<TextEdit>,
        SessionError,
    >)
        ensures
            match edits {
                Ok(edits) => self@.contains_key(uri@) && formatted is Some && edits_view(edits@)
                    == replaced_by(formatted->0@),
                Err(SessionError::UnknownDocument) => !self@.contains_key(uri@),
                Err(SessionError::ParseFailure) => self@.contains_key(uri@) && formatted is None,
                Err(_) => false,
            },
    {
        let _ = self.get(uri)?;
        match formatted {
            Some(new_text) => Ok(whole_document_edit(new_text)),
            None => Err(SessionError::ParseFailure),
        }
    }
}

} // verus!
