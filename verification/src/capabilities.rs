//! What the server tells the client it can do, when the session starts.

use vstd::prelude::*;

verus! {

/// How the client is to report changes of a document's text.
#[derive(Clone, Copy, Debug, PartialEq, Eq, Structural)]
pub enum TextDocumentSync {
    /// Changes are not reported.
    Off,
    /// Every change carries the full new text.
    Full,
    /// A change carries only what differs.
    Incremental,
}

/// The capabilities that the server may advertise.
#[derive(Clone, Copy, Debug, PartialEq, Eq, Structural)]
pub struct Capabilities {
    pub text_document_sync: TextDocumentSync,
    pub document_symbol_provider: bool,
    pub document_formatting_provider: bool,
    pub definition_provider: bool,
    pub references_provider: bool,
    pub rename_provider: bool,
}

/// What the server advertises: synchronization by full text, a flat list
/// of the symbols of a document, and the formatting of whole documents.
/// Nothing is advertised that no handler stands behind.
pub open spec fn advertised() -> Capabilities {
    Capabilities {
        text_document_sync: TextDocumentSync::Full,
        document_symbol_provider: true,
        document_formatting_provider: true,
        definition_provider: false,
        references_provider: false,
        rename_provider: false,
    }
}

/// The capabilities to advertise when the session is set up.
pub fn server_capabilities() -> (capabilities: Capabilities)
    ensures
        capabilities == advertised(),
{
    Capabilities {
        text_document_sync: TextDocumentSync::Full,
        document_symbol_provider: true,
        document_formatting_provider: true,
        definition_provider: false,
        references_provider: false,
        rename_provider: false,
    }
}

} // verus!
