//! The messages of the protocol, as the session works with them: what
//! comes in, what goes out, and the methods that the server knows.

use vstd::prelude::*;
use crate::diagnostic::{diagnostics_view, Diagnostic, DiagnosticView};
use crate::range::Range;
use crate::symbol::{symbols_view, Symbol, SymbolView};
use crate::text::str_eq;

verus! {

/// The identifier that ties a response to its request.
#[derive(Clone, Debug, PartialEq, Eq)]
pub enum RequestId {
    Number(i32),
    Text(String),
}

/// A request identifier as a mathematical value.
pub enum RequestIdView {
    Number(i32),
    Text(Seq<char>),
}

impl View for RequestId {
    type V = RequestIdView;

    open spec fn view(&self) -> RequestIdView {
        match *self {
            RequestId::Number(n) => RequestIdView::Number(n),
            RequestId::Text(s) => RequestIdView::Text(s@),
        }
    }
}

impl RequestId {
    /// A copy of the identifier.
    pub fn duplicate(&self) -> (copy: RequestId)
        ensures
            copy@ == self@,
    {
        match self {
            RequestId::Number(n) => RequestId::Number(*n),
            RequestId::Text(s) => RequestId::Text(s.clone()),
        }
    }
}

/// The parameters of a message, decoded as far as the server reads them.
#[derive(Clone, Debug, PartialEq, Eq)]
pub enum Params {
    /// Parameters that name a document: those of a symbol request, of a
    /// formatting request and of a close notification.
    Document { uri: String },
    /// The parameters of an open notification: the document and its text.
    Opened { uri: String, text: String },
    /// The parameters of a change notification: the document and the new
    /// full text that each content change carries, in order.
    Changed { uri: String, changes: Vec<String> },
    /// Parameters of any other shape, or none.
    Unreadable,
}

/// Parameters as a mathematical value.
pub enum ParamsView {
    Document { uri: Seq<char> },
    Opened { uri: Seq<char>, text: Seq<char> },
    Changed { uri: Seq<char>, changes: Seq<Seq<char>> },
    Unreadable,
}

impl View for Params {
    type V = ParamsView;

    open spec fn view(&self) -> ParamsView {
        match *self {
            Params::Document { uri } => ParamsView::Document { uri: uri@ },
            Params::Opened { uri, text } => ParamsView::Opened { uri: uri@, text: text@ },
            Params::Changed { uri, changes } => ParamsView::Changed {
                uri: uri@,
                changes: changes@.map_values(|c: String| c@),
            },
            Params::Unreadable => ParamsView::Unreadable,
        }
    }
}

/// A message that the client sends.
#[derive(Clone, Debug, PartialEq, Eq)]
pub enum Message {
    /// A request, which is owed one response with the same identifier.
    Request { id: RequestId, method: String, params: Params },
    /// A response to a request of the server's own.
    Response { id: RequestId },
    /// A notification, which is never answered.
    Notification { method: String, params: Params },
}

/// An incoming message as a mathematical value.
pub enum MessageView {
    Request { id: RequestIdView, method: Seq<char>, params: ParamsView },
    Response { id: RequestIdView },
    Notification { method: Seq<char>, params: ParamsView },
}

impl View for Message {
    type V = MessageView;

    open spec fn view(&self) -> MessageView {
        match *self {
            Message::Request { id, method, params } => MessageView::Request {
                id: id@,
                method: method@,
                params: params@,
            },
            Message::Response { id } => MessageView::Response { id: id@ },
            Message::Notification { method, params } => MessageView::Notification {
                method: method@,
                params: params@,
            },
        }
    }
}

/// The views of a list of incoming messages, in order.
pub open spec fn messages_view(messages: Seq<Message>) -> Seq<MessageView> {
    messages.map_values(|m: Message| m@)
}

/// The requests that the server tells apart.
#[derive(Clone, Copy, Debug, PartialEq, Eq, Structural)]
pub enum RequestMethod {
    /// `shutdown`: the client ends the session.
    Shutdown,
    /// `textDocument/documentSymbol`: list the symbols of a document.
    DocumentSymbol,
    /// `textDocument/formatting`: format a whole document.
    Formatting,
    /// Any other method.
    Unsupported,
}

/// The notifications that the server tells apart.
#[derive(Clone, Copy, Debug, PartialEq, Eq, Structural)]
pub enum NotificationMethod {
    /// `textDocument/didOpen`: a document was opened.
    DidOpen,
    /// `textDocument/didChange`: a document's text changed.
    DidChange,
    /// `textDocument/didClose`: a document was closed.
    DidClose,
    /// Any other method.
    Unsupported,
}

/// The request that a method name stands for.
pub open spec fn request_method_of(method: Seq<char>) -> RequestMethod {
    if method == "shutdown"@ {
        RequestMethod::Shutdown
    } else if method == "textDocument/documentSymbol"@ {
        RequestMethod::DocumentSymbol
    } else if method == "textDocument/formatting"@ {
        RequestMethod::Formatting
    } else {
        RequestMethod::Unsupported
    }
}

/// The notification that a method name stands for.
pub open spec fn notification_method_of(method: Seq<char>) -> NotificationMethod {
    if method == "textDocument/didOpen"@ {
        NotificationMethod::DidOpen
    } else if method == "textDocument/didChange"@ {
        NotificationMethod::DidChange
    } else if method == "textDocument/didClose"@ {
        NotificationMethod::DidClose
    } else {
        NotificationMethod::Unsupported
    }
}

/// Tells which request a method name stands for.
pub fn request_method(method: &str) -> (kind: RequestMethod)
    ensures
        kind == request_method_of(method@),
{
    if str_eq(method, "shutdown") {
        RequestMethod::Shutdown
    } else if str_eq(method, "textDocument/documentSymbol") {
        RequestMethod::DocumentSymbol
    } else if str_eq(method, "textDocument/formatting") {
        RequestMethod::Formatting
    } else {
        RequestMethod::Unsupported
    }
}

/// Tells which notification a method name stands for.
pub fn notification_method(method: &str) -> (kind: NotificationMethod)
    ensures
        kind == notification_method_of(method@),
{
    if str_eq(method, "textDocument/didOpen") {
        NotificationMethod::DidOpen
    } else if str_eq(method, "textDocument/didChange") {
        NotificationMethod::DidChange
    } else if str_eq(method, "textDocument/didClose") {
        NotificationMethod::DidClose
    } else {
        NotificationMethod::Unsupported
    }
}

/// Why the session could not do what a message asked for. None of these
/// ends the session.
#[derive(Clone, Copy, Debug, PartialEq, Eq, Structural)]
pub enum SessionError {
    /// The message names a document that is not open.
    UnknownDocument,
    /// The engine found errors in the document where a parsed tree was
    /// needed.
    ParseFailure,
    /// The parameters do not have the shape that the method expects.
    MalformedMessage,
    /// The server has no handler for the method.
    UnsupportedMethod,
    /// The engine did not come back with what the request needs.
    EngineFailure,
}

impl SessionError {
    /// The error code of the protocol that reports the error: "method not
    /// found" for an unsupported method, "invalid params" for malformed
    /// parameters, "internal error" for a failure of the engine, "request
    /// failed" for the others.
    pub open spec fn spec_code(self) -> int {
        match self {
            SessionError::UnsupportedMethod => -32601,
            SessionError::MalformedMessage => -32602,
            SessionError::UnknownDocument => -32803,
            SessionError::ParseFailure => -32803,
            SessionError::EngineFailure => -32603,
        }
    }

    /// The error code of the protocol that reports the error.
    pub fn code(self) -> (code: i32)
        ensures
            code == self.spec_code(),
    {
        match self {
            SessionError::UnsupportedMethod => -32601,
            SessionError::MalformedMessage => -32602,
            SessionError::UnknownDocument => -32803,
            SessionError::ParseFailure => -32803,
            SessionError::EngineFailure => -32603,
        }
    }

    /// A sentence that says what went wrong.
    pub fn message(self) -> (message: &'static str)
        ensures
            message@ == match self {
                SessionError::UnknownDocument => "unknown document"@,
                SessionError::ParseFailure => "the document has errors"@,
                SessionError::MalformedMessage => "malformed parameters"@,
                SessionError::UnsupportedMethod => "method not found"@,
                SessionError::EngineFailure => "the engine failed"@,
            },
    {
        match self {
            SessionError::UnknownDocument => "unknown document",
            SessionError::ParseFailure => "the document has errors",
            SessionError::MalformedMessage => "malformed parameters",
            SessionError::UnsupportedMethod => "method not found",
            SessionError::EngineFailure => "the engine failed",
        }
    }
}

/// A replacement of a span of a document by new text.
#[derive(Clone, Debug, PartialEq, Eq)]
pub struct TextEdit {
    pub range: Range,
    pub new_text: String,
}

/// A text edit as a mathematical value.
pub struct TextEditView {
    pub range: Range,
    pub new_text: Seq<char>,
}

impl View for TextEdit {
    type V = TextEditView;

    open spec fn view(&self) -> TextEditView {
        TextEditView { range: self.range, new_text: self.new_text@ }
    }
}

/// The views of a list of text edits, in order.
pub open spec fn edits_view(edits: Seq<TextEdit>) -> Seq<TextEditView> {
    edits.map_values(|e: TextEdit| e@)
}

/// A message that the server sends.
#[derive(Clone, Debug, PartialEq, Eq)]
pub enum Outgoing {
    /// The notification that publishes the diagnostics of a document.
    Diagnostics { uri: String, diagnostics: Vec<Diagnostic> },
    /// The notification that shows the server's status.
    Status { text: String },
    /// The response to a symbol request: the symbols of the document.
    Symbols { id: RequestId, uri: String, symbols: Vec<Symbol> },
    /// The response to a formatting request: the edits that format the
    /// document.
    Edits { id: RequestId, edits: Vec<TextEdit> },
    /// The response to a request that failed.
    Failure { id: RequestId, error: SessionError },
}

/// An outgoing message as a mathematical value.
pub enum OutgoingView {
    Diagnostics { uri: Seq<char>, diagnostics: Seq<DiagnosticView> },
    Status { text: Seq<char> },
    Symbols { id: RequestIdView, uri: Seq<char>, symbols: Seq<SymbolView> },
    Edits { id: RequestIdView, edits: Seq<TextEditView> },
    Failure { id: RequestIdView, error: SessionError },
}

impl View for Outgoing {
    type V = OutgoingView;

    open spec fn view(&self) -> OutgoingView {
        match *self {
            Outgoing::Diagnostics { uri, diagnostics } => OutgoingView::Diagnostics {
                uri: uri@,
                diagnostics: diagnostics_view(diagnostics@),
            },
            Outgoing::Status { text } => OutgoingView::Status { text: text@ },
            Outgoing::Symbols { id, uri, symbols } => OutgoingView::Symbols {
                id: id@,
                uri: uri@,
                symbols: symbols_view(symbols@),
            },
            Outgoing::Edits { id, edits } => OutgoingView::Edits { id: id@, edits: edits_view(edits@) },
            Outgoing::Failure { id, error } => OutgoingView::Failure { id: id@, error },
        }
    }
}

/// The views of a list of outgoing messages, in order.
pub open spec fn outgoing_view(outgoing: Seq<Outgoing>) -> Seq<OutgoingView> {
    outgoing.map_values(|o: Outgoing| o@)
}

impl OutgoingView {
    /// The message is a response, to the request with the given
    /// identifier.
    pub open spec fn answers(self, id: RequestIdView) -> bool {
        match self {
            OutgoingView::Symbols { id: i, .. } => i == id,
            OutgoingView::Edits { id: i, .. } => i == id,
            OutgoingView::Failure { id: i, .. } => i == id,
            _ => false,
        }
    }

    /// The message is a response.
    pub open spec fn is_response(self) -> bool {
        self is Symbols || self is Edits || self is Failure
    }
}

} // verus!
