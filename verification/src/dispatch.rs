//! The dispatch of incoming messages: what the engine has to do for a
//! message, what the message then does to the store of documents, and
//! what the server sends in return.
//!
//! The session does not run the parser, the formatter or the evaluator
//! itself. For each message it says what work the engine has to do, and it
//! handles the message together with the outcome of that work.

use std::sync::Arc;
use tan::context::Context;
use tan::expr::Expr;
use tan::scope::Scope;
use vstd::prelude::*;
use crate::dialect::{dialect_from_document_uri, uri_dialect, Dialect};
use crate::document::{apply_op, DocumentView, StoreOp, StoreView};
use crate::diagnostic::{diagnostics_view, Diagnostic, DiagnosticView};
use crate::engine::{parsed_view, Parsed, ParsedView};
use crate::message::{
    notification_method, notification_method_of, outgoing_view, request_method,
    request_method_of, Message, MessageView, NotificationMethod, Outgoing, OutgoingView, Params,
    ParamsView, RequestId, RequestIdView, RequestMethod, SessionError,
};
use crate::server::{replaced_by, symbols_ok, Server};
use crate::status::{send_server_status_notification, status_text, PublishServerStatus};

verus! {

/// What the engine has to do before a message can be handled.
#[derive(Debug)]
pub enum Work<'a> {
    /// Nothing.
    Nothing,
    /// Parse the text that the message stores, and find what there is to
    /// report of it: its parse errors, or the findings of the lints.
    Parse { text: &'a str },
    /// Parse the text of the document anew and format what it holds, in
    /// the dialect.
    Format { text: &'a str, dialect: Dialect },
    /// Scan the expressions of the document: evaluate its definitions, in
    /// order, into a scope of their own below the current one.
    Scan { forms: &'a Vec<Expr> },
}

/// Work for the engine as a mathematical value.
pub enum WorkView {
    Nothing,
    Parse { text: Seq<char> },
    Format { text: Seq<char>, dialect: Dialect },
    Scan { forms: Seq<Expr> },
}

impl<'a> View for Work<'a> {
    type V = WorkView;

    open spec fn view(&self) -> WorkView {
        match *self {
            Work::Nothing => WorkView::Nothing,
            Work::Parse { text } => WorkView::Parse { text: text@ },
            Work::Format { text, dialect } => WorkView::Format { text: text@, dialect },
            Work::Scan { forms } => WorkView::Scan { forms: forms@ },
        }
    }
}

/// What came of the work of the engine.
#[derive(Debug)]
pub enum Outcome {
    /// The engine was not run, or it did not come back.
    Nothing,
    /// What the parser made of the text, and the diagnostics of the text.
    Parsed(Parsed, Vec<Diagnostic>),
    /// The formatted text, or nothing where the text did not parse in full.
    Formatted(Option<String>),
    /// The scope that the scan left, or nothing where a definition did
    /// not compile.
    Scanned(Option<Arc<Scope>>),
}

/// An outcome as a mathematical value.
pub enum OutcomeView {
    Nothing,
    Parsed(ParsedView, Seq<DiagnosticView>),
    Formatted(Option<Seq<char>>),
    Scanned(Option<Scope>),
}

impl View for Outcome {
    type V = OutcomeView;

    open spec fn view(&self) -> OutcomeView {
        match *self {
            Outcome::Nothing => OutcomeView::Nothing,
            Outcome::Parsed(parsed, diagnostics) => OutcomeView::Parsed(
                parsed_view(parsed),
                diagnostics_view(diagnostics@),
            ),
            Outcome::Formatted(formatted) => OutcomeView::Formatted(
                match formatted {
                    Some(text) => Some(text@),
                    None => None,
                },
            ),
            Outcome::Scanned(scanned) => OutcomeView::Scanned(
                match scanned {
                    Some(scope) => Some(*scope),
                    None => None,
                },
            ),
        }
    }
}

/// A text together with the document that it is stored for.
pub struct StoredText {
    pub uri: Seq<char>,
    pub text: Seq<char>,
}

/// The text that a notification stores, and the document it stores it
/// for, if it stores one: an open notification with a document and its
/// text, or a change notification with at least one content change, of
/// which the first counts.
pub open spec fn stored_text(method: Seq<char>, params: ParamsView) -> Option<StoredText> {
    match (notification_method_of(method), params) {
        (NotificationMethod::DidOpen, ParamsView::Opened { uri, text }) => Some(
            StoredText { uri, text },
        ),
        (NotificationMethod::DidChange, ParamsView::Changed { uri, changes }) => if changes.len() > 0 {
            Some(StoredText { uri, text: changes[0] })
        } else {
            None
        },
        _ => None,
    }
}

/// The event in the life of a document that a notification reports, if
/// it reports one: a text that is stored, with what the parser made of
/// it and its diagnostics, or the closing of a document. A text whose
/// analysis the engine did not hand in is not stored.
pub open spec fn sync_op(method: Seq<char>, params: ParamsView, outcome: OutcomeView) -> Option<
    StoreOp,
> {
    match stored_text(method, params) {
        Some(stored) => match outcome {
            OutcomeView::Parsed(analysis, diagnostics) => Some(
                StoreOp::Put {
                    uri: stored.uri,
                    document: DocumentView { text: stored.text, analysis, diagnostics },
                },
            ),
            _ => None,
        },
        None => match (notification_method_of(method), params) {
            (NotificationMethod::DidClose, ParamsView::Document { uri }) => Some(StoreOp::Close { uri }),
            _ => None,
        },
    }
}

/// The work that the engine has to do for a message: parse the text that
/// a notification stores; format the text of the open document that a
/// formatting request names; scan the expressions of the open and parsed
/// document that a symbol request names; nothing for any other message.
pub open spec fn work_of(store: StoreView, message: MessageView) -> WorkView {
    match message {
        MessageView::Notification { method, params } => match stored_text(method, params) {
            Some(stored) => WorkView::Parse { text: stored.text },
            None => WorkView::Nothing,
        },
        MessageView::Request { method, params, .. } => match (request_method_of(method), params) {
            (RequestMethod::Formatting, ParamsView::Document { uri }) => if store.contains_key(uri) {
                WorkView::Format { text: store[uri].text, dialect: uri_dialect(uri) }
            } else {
                WorkView::Nothing
            },
            (RequestMethod::DocumentSymbol, ParamsView::Document { uri }) => if store.contains_key(uri) {
                match store[uri].analysis {
                    Ok(forms) => WorkView::Scan { forms },
                    Err(_) => WorkView::Nothing,
                }
            } else {
                WorkView::Nothing
            },
            _ => WorkView::Nothing,
        },
        MessageView::Response { .. } => WorkView::Nothing,
    }
}

/// The store after a message: only a notification that reports an event
/// in the life of a document changes it.
pub open spec fn store_after(store: StoreView, message: MessageView, outcome: OutcomeView) -> StoreView {
    match message {
        MessageView::Notification { method, params } => match sync_op(method, params, outcome) {
            Some(op) => apply_op(store, op),
            None => store,
        },
        _ => store,
    }
}

/// The message is the request that ends the session.
pub open spec fn ends_session(message: MessageView) -> bool {
    match message {
        MessageView::Request { method, .. } => request_method_of(method) == RequestMethod::Shutdown,
        _ => false,
    }
}

/// The status notification that shows the given status.
pub open spec fn status_shown(status: PublishServerStatus) -> OutgoingView {
    OutgoingView::Status { text: status_text(status.word()) }
}

/// The response that reports a failure of the request `id`.
pub open spec fn failure(id: RequestIdView, error: SessionError) -> OutgoingView {
    OutgoingView::Failure { id, error }
}

/// What the server sends on a notification: the diagnostics of the text
/// that the notification stored, once, and nothing on any other
/// notification.
pub open spec fn notification_replies(
    method: Seq<char>,
    params: ParamsView,
    outcome: OutcomeView,
) -> Seq<OutgoingView> {
    match sync_op(method, params, outcome) {
        Some(StoreOp::Put { uri, document }) => seq![
            OutgoingView::Diagnostics { uri, diagnostics: document.diagnostics },
        ],
        _ => Seq::empty(),
    }
}

/// `reply` is a fit answer to a request for the symbols of the document
/// `uri`: an unknown document or a parse failure where the store has no
/// parsed tree for it; else the list of the symbols of the scope that
/// the scan left, a parse failure where the scan met a definition that
/// did not compile, and a failure of the engine where no scan came back.
pub open spec fn symbols_reply_ok(
    store: StoreView,
    context: Context,
    id: RequestIdView,
    uri: Seq<char>,
    outcome: OutcomeView,
    reply: OutgoingView,
) -> bool {
    if !store.contains_key(uri) {
        reply == failure(id, SessionError::UnknownDocument)
    } else if store[uri].analysis is Err {
        reply == failure(id, SessionError::ParseFailure)
    } else {
        match outcome {
            OutcomeView::Scanned(Some(scope)) => match reply {
                OutgoingView::Symbols { id: answered, uri: listed, symbols } => answered == id
                    && listed == uri && symbols_ok(symbols, scope, context),
                _ => false,
            },
            OutcomeView::Scanned(None) => reply == failure(id, SessionError::ParseFailure),
            _ => reply == failure(id, SessionError::EngineFailure),
        }
    }
}

/// What the server sends on a request for the formatting of the document
/// `uri`: the status "formatting" first; then an unknown document where
/// the store does not hold the document; else the status "formatted" and
/// one edit that replaces the whole document by the formatted text, a
/// parse failure where the text did not parse, and a failure of the
/// engine where no formatting came back.
pub open spec fn formatting_replies(
    store: StoreView,
    id: RequestIdView,
    uri: Seq<char>,
    outcome: OutcomeView,
) -> Seq<OutgoingView> {
    if !store.contains_key(uri) {
        seq![status_shown(PublishServerStatus::Formatting), failure(id, SessionError::UnknownDocument)]
    } else {
        match outcome {
            OutcomeView::Formatted(Some(new_text)) => seq![
                status_shown(PublishServerStatus::Formatting),
                status_shown(PublishServerStatus::Formatted),
                OutgoingView::Edits { id, edits: replaced_by(new_text) },
            ],
            OutcomeView::Formatted(None) => seq![
                status_shown(PublishServerStatus::Formatting),
                failure(id, SessionError::ParseFailure),
            ],
            _ => seq![
                status_shown(PublishServerStatus::Formatting),
                failure(id, SessionError::EngineFailure),
            ],
        }
    }
}

/// `replies` is a fit answer to a symbol request with the given
/// parameters, which have to name a document.
pub open spec fn symbols_request_ok(
    store: StoreView,
    context: Context,
    id: RequestIdView,
    params: ParamsView,
    outcome: OutcomeView,
    replies: Seq<OutgoingView>,
) -> bool {
    match params {
        ParamsView::Document { uri } => replies.len() == 1 && symbols_reply_ok(
            store,
            context,
            id,
            uri,
            outcome,
            replies[0],
        ),
        _ => replies == seq![failure(id, SessionError::MalformedMessage)],
    }
}

/// What the server sends on a formatting request with the given
/// parameters, which have to name a document.
pub open spec fn formatting_request_replies(
    store: StoreView,
    id: RequestIdView,
    params: ParamsView,
    outcome: OutcomeView,
) -> Seq<OutgoingView> {
    match params {
        ParamsView::Document { uri } => formatting_replies(store, id, uri, outcome),
        _ => seq![
            status_shown(PublishServerStatus::Formatting),
            failure(id, SessionError::MalformedMessage),
        ],
    }
}

/// `replies` is a fit answer to a request. The request that ends the
/// session gets none here, as its answer is part of ending the session.
/// A method without a handler and parameters of the wrong shape are
/// reported as failures.
pub open spec fn request_replies_ok(
    store: StoreView,
    context: Context,
    id: RequestIdView,
    method: Seq<char>,
    params: ParamsView,
    outcome: OutcomeView,
    replies: Seq<OutgoingView>,
) -> bool {
    match request_method_of(method) {
        RequestMethod::Shutdown => replies.len() == 0,
        RequestMethod::Unsupported => replies == seq![failure(id, SessionError::UnsupportedMethod)],
        RequestMethod::DocumentSymbol => symbols_request_ok(store, context, id, params, outcome, replies),
        RequestMethod::Formatting => replies == formatting_request_replies(store, id, params, outcome),
    }
}

/// `replies` is what the server sends on `message`, with `store` holding
/// the documents when the message comes in and `outcome` what came of
/// the engine's work for it.
pub open spec fn replies_ok(
    store: StoreView,
    context: Context,
    message: MessageView,
    outcome: OutcomeView,
    replies: Seq<OutgoingView>,
) -> bool {
    match message {
        MessageView::Request { id, method, params } => request_replies_ok(
            store,
            context,
            id,
            method,
            params,
            outcome,
            replies,
        ),
        MessageView::Response { .. } => replies.len() == 0,
        MessageView::Notification { method, params } => replies == notification_replies(
            method,
            params,
            outcome,
        ),
    }
}

/// What handling one message comes to: the messages to send, in order,
/// and whether the message was the request that ends the session.
#[derive(Debug)]
pub struct Step {
    pub replies: Vec<Outgoing>,
    pub shutdown: bool,
}

/// A message with what came of the engine's work for it.
#[derive(Debug)]
pub struct Event {
    pub message: Message,
    pub outcome: Outcome,
}

/// An event as a mathematical value.
pub struct EventView {
    pub message: MessageView,
    pub outcome: OutcomeView,
}

impl View for Event {
    type V = EventView;

    open spec fn view(&self) -> EventView {
        EventView { message: self.message@, outcome: self.outcome@ }
    }
}

/// The views of a list of events, in order.
pub open spec fn events_view(events: Seq<Event>) -> Seq<EventView> {
    events.map_values(|e: Event| e@)
}

/// The store after a sequence of events, the first taken first.
pub open spec fn store_after_all(store: StoreView, events: Seq<EventView>) -> StoreView
    decreases events.len(),
{
    if events.len() == 0 {
        store
    } else {
        store_after(
            store_after_all(store, events.drop_last()),
            events.last().message,
            events.last().outcome,
        )
    }
}

/// What a run of the loop comes to: for each message that was handled,
/// in order, the messages to send in return, and whether the run ended
/// on the request that ends the session.
#[derive(Debug)]
pub struct Run {
    pub replies: Vec<Vec<Outgoing>>,
    pub shutdown: bool,
}

/// The views of the replies of a run.
pub open spec fn replies_view(replies: Seq<Vec<Outgoing>>) -> Seq<Seq<OutgoingView>> {
    replies.map_values(|r: Vec<Outgoing>| outgoing_view(r@))
}

/// `replies`, `shutdown` and `end` are a run of the loop over `events`
/// that starts with the documents of `store`. The messages are handled
/// one after the other, each on the store that the ones before it left,
/// up to the first request that ends the session, which is not handled,
/// and nothing after it is looked at; without such a request all messages
/// are handled. `end` is the store that the handled messages leave.
pub open spec fn run_ok(
    store: StoreView,
    context: Context,
    events: Seq<EventView>,
    replies: Seq<Seq<OutgoingView>>,
    shutdown: bool,
    end: StoreView,
) -> bool {
    &&& replies.len() <= events.len()
    &&& forall|i: int| 0 <= i < replies.len() ==> !ends_session((#[trigger] events[i]).message)
    &&& if shutdown {
        replies.len() < events.len() && ends_session(events[replies.len() as int].message)
    } else {
        replies.len() == events.len()
    }
    &&& forall|i: int|
        0 <= i < replies.len() ==> replies_ok(
            store_after_all(store, events.take(i)),
            context,
            events[i].message,
            events[i].outcome,
            #[trigger] replies[i],
        )
    &&& end == store_after_all(store, events.take(replies.len() as int))
}

/// The status notification that shows a status of the server.
pub fn status_notification(status: PublishServerStatus) -> (shown: Outgoing)
    ensures
        shown@ == status_shown(status),
{
    Outgoing::Status { text: send_server_status_notification(status.text()).text }
}

/// The text that a notification stores, if it stores one.
pub fn text_stored<'a>(method: &str, params: &'a Params) -> (text: Option<&'a str>)
    ensures
        match text {
            Some(text) => stored_text(method@, params@) is Some && stored_text(method@, params@)->0.text
                == text@,
            None => stored_text(method@, params@) is None,
        },
{
    match (notification_method(method), params) {
        (NotificationMethod::DidOpen, Params::Opened { uri, text }) => Some(text.as_str()),
        (NotificationMethod::DidChange, Params::Changed { uri, changes }) => {
            if changes.len() > 0 {
                Some(changes[0].as_str())
            } else {
                None
            }
        },
        _ => None,
    }
}

impl Server {
    /// Says what the engine has to do before the message can be handled.
    pub fn work_for<'a>(&'a self, message: &'a Message) -> (work: Work<'a>)
        ensures
            work@ == work_of(self@, message@),
    {
        match message {
            Message::Notification { method, params } => match text_stored(method.as_str(), params) {
                Some(text) => Work::Parse { text },
                None => Work::Nothing,
            },
            Message::Request { id, method, params } => match (request_method(method.as_str()), params) {
                (RequestMethod::Formatting, Params::Document { uri }) => match self.get(
                    uri.as_str(),
                ) {
                    Ok(document) => Work::Format {
                        text: document.text(),
                        dialect: dialect_from_document_uri(uri.as_str()),
                    },
                    Err(_) => Work::Nothing,
                },
                (RequestMethod::DocumentSymbol, Params::Document { uri }) => match self.forms_to_scan(
                    uri.as_str(),
                ) {
                    Ok(forms) => Work::Scan { forms },
                    Err(_) => Work::Nothing,
                },
                _ => Work::Nothing,
            },
            Message::Response { id } => Work::Nothing,
        }
    }

    /// Answers a request for the symbols of a document, with what came
    /// of the scan of its definitions.
    pub fn handle_symbols(&self, id: &RequestId, params: &Params, outcome: &Outcome) -> (replies: Vec<
        Outgoing,
    >)
        ensures
            symbols_request_ok(
                self@,
                self.engine_context(),
                id@,
                params@,
                outcome@,
                outgoing_view(replies@),
            ),
    {
        let id = id.duplicate();
        let reply = match params {
            Params::Document { uri } => {
                let listed = match self.forms_to_scan(uri.as_str()) {
                    Err(error) => Err(error),
                    Ok(_) => match outcome {
                        Outcome::Scanned(scanned) => self.document_symbols(uri.as_str(), scanned.as_ref()),
                        _ => Err(SessionError::EngineFailure),
                    },
                };
                match listed {
                    Ok(symbols) => Outgoing::Symbols { id, uri: uri.clone(), symbols },
                    Err(error) => Outgoing::Failure { id, error },
                }
            },
            _ => Outgoing::Failure { id, error: SessionError::MalformedMessage },
        };
        let mut replies: Vec<Outgoing> = Vec::new();
        replies.push(reply);
        assert(outgoing_view(replies@) =~= seq![reply@]);
        replies
    }

    /// Answers a request for the formatting of a document, with what came
    /// of the formatting of its text and with the status notifications
    /// that go with it.
    pub fn handle_formatting(&self, id: &RequestId, params: &Params, outcome: Outcome) -> (replies: Vec<
        Outgoing,
    >)
        ensures
            outgoing_view(replies@) == formatting_request_replies(self@, id@, params@, outcome@),
    {
        let id = id.duplicate();
        let mut replies: Vec<Outgoing> = Vec::new();
        let started = status_notification(PublishServerStatus::Formatting);
        replies.push(started);
        let formatted = match params {
            Params::Document { uri } => match self.get(uri.as_str()) {
                Err(error) => Err(error),
                Ok(_) => match outcome {
                    Outcome::Formatted(formatted) => self.format_document(uri.as_str(), formatted),
                    _ => Err(SessionError::EngineFailure),
                },
            },
            _ => Err(SessionError::MalformedMessage),
        };
        match formatted {
            Ok(edits) => {
                let done = status_notification(PublishServerStatus::Formatted);
                let reply = Outgoing::Edits { id, edits };
                replies.push(done);
                replies.push(reply);
                assert(outgoing_view(replies@) =~= seq![started@, done@, reply@]);
            },
            Err(error) => {
                let reply = Outgoing::Failure { id, error };
                replies.push(reply);
                assert(outgoing_view(replies@) =~= seq![started@, reply@]);
            },
        }
        replies
    }

    /// Takes in a notification: a text that comes with its analysis is
    /// stored and its diagnostics are published, a document that is
    /// closed is forgotten. A notification is never answered, and one
    /// that the server cannot read or does not know is passed over.
    pub fn handle_notification(&mut self, method: &str, params: &Params, outcome: Outcome) -> (replies: Vec<
        Outgoing,
    >)
        ensures
            final(self)@ == store_after(
                old(self)@,
                (MessageView::Notification { method: method@, params: params@ }),
                outcome@,
            ),
            final(self).engine_context() == old(self).engine_context(),
            outgoing_view(replies@) == notification_replies(method@, params@, outcome@),
    {
        let mut replies: Vec<Outgoing> = Vec::new();
        assert(outgoing_view(replies@) =~= Seq::<OutgoingView>::empty());
        match (notification_method(method), params) {
            (NotificationMethod::DidClose, Params::Document { uri }) => {
                self.close_document(uri.as_str());
            },
            (kind, Params::Opened { uri, .. }) | (kind, Params::Changed { uri, .. }) => {
                if let Some(text) = text_stored(method, params) {
                    if let Outcome::Parsed(analysis, diagnostics) = outcome {
                        self.process_document(uri.as_str(), text, analysis, diagnostics);
                        if let Ok(notification) = self.send_diagnostics(uri.as_str()) {
                            replies.push(notification);
                            assert(outgoing_view(replies@) =~= seq![notification@]);
                        }
                    }
                }
            },
            _ => {},
        }
        replies
    }

    /// Handles one incoming message, with what came of the engine's work
    /// for it, and says what to send in return.
    ///
    /// A request is answered by exactly one response with its identifier,
    /// also where it fails or the engine does; only the request that ends
    /// the session is left to the shutdown handshake. A notification is
    /// never answered. A response is dropped, as the server asks nothing
    /// of the client.
    pub fn handle_message(&mut self, message: &Message, outcome: Outcome) -> (step: Step)
        ensures
            final(self)@ == store_after(old(self)@, message@, outcome@),
            final(self).engine_context() == old(self).engine_context(),
            replies_ok(
                old(self)@,
                old(self).engine_context(),
                message@,
                outcome@,
                outgoing_view(step.replies@),
            ),
            step.shutdown == ends_session(message@),
    {
        match message {
            Message::Request { id, method, params } => {
                let kind = request_method(method.as_str());
                let replies = match kind {
                    RequestMethod::Shutdown => Vec::new(),
                    RequestMethod::DocumentSymbol => self.handle_symbols(id, params, &outcome),
                    RequestMethod::Formatting => self.handle_formatting(id, params, outcome),
                    RequestMethod::Unsupported => {
                        let reply = Outgoing::Failure {
                            id: id.duplicate(),
                            error: SessionError::UnsupportedMethod,
                        };
                        let mut replies: Vec<Outgoing> = Vec::new();
                        replies.push(reply);
                        assert(outgoing_view(replies@) =~= seq![reply@]);
                        replies
                    },
                };
                Step { replies, shutdown: kind == RequestMethod::Shutdown }
            },
            Message::Response { id } => Step { replies: Vec::new(), shutdown: false },
            Message::Notification { method, params } => {
                let replies = self.handle_notification(method.as_str(), params, outcome);
                Step { replies, shutdown: false }
            },
        }
    }

    /// Runs the dispatch loop over the incoming messages, in order, each
    /// with what came of the engine's work for it, and returns what to
    /// send for each. The loop takes one message at a time, each handled
    /// to its end before the next is looked at, and stops at the request
    /// that ends the session, which it leaves to the shutdown handshake
    /// together with all that follows it.
    pub fn run_loop(&mut self, events: Vec<Event>) -> (run: Run)
        ensures
            run_ok(
                old(self)@,
                old(self).engine_context(),
                events_view(events@),
                replies_view(run.replies@),
                run.shutdown,
                final(self)@,
            ),
            final(self).engine_context() == old(self).engine_context(),
    {
        let ghost start = self@;
        let ghost incoming = events_view(events@);
        let mut waiting = events;
        let mut replies: Vec<Vec<Outgoing>> = Vec::new();
        assert(incoming.take(0) =~= Seq::<EventView>::empty());
        assert(events_view(waiting@) =~= incoming.skip(0));
        while waiting.len() > 0
            invariant
                start == old(self)@,
                incoming == events_view(events@),
                self.engine_context() == old(self).engine_context(),
                replies@.len() + waiting@.len() == incoming.len(),
                events_view(waiting@) == incoming.skip(replies@.len() as int),
                self@ == store_after_all(start, incoming.take(replies@.len() as int)),
                forall|j: int| 0 <= j < replies@.len() ==> !ends_session((#[trigger] incoming[j]).message),
                forall|j: int|
                    0 <= j < replies@.len() ==> replies_ok(
                        store_after_all(start, incoming.take(j)),
                        old(self).engine_context(),
                        incoming[j].message,
                        incoming[j].outcome,
                        #[trigger] replies_view(replies@)[j],
                    ),
            decreases waiting@.len(),
        {
            let ghost i = replies@.len() as int;
            let ghost before = replies_view(replies@);
            let ghost queue = waiting@;
            let event = waiting.remove(0);
            proof {
                assert(events_view(queue)[0] == incoming.skip(i)[0]);
                assert(event@ == incoming[i]);
                assert(events_view(waiting@) =~= events_view(queue).remove(0));
                assert(incoming.skip(i).remove(0) =~= incoming.skip(i + 1));
                assert(incoming.take(i + 1).drop_last() =~= incoming.take(i));
                assert(incoming.take(i + 1).last() == incoming[i]);
            }
            let step = self.handle_message(&event.message, event.outcome);
            if step.shutdown {
                return Run { replies, shutdown: true };
            }
            replies.push(step.replies);
            proof {
                assert(replies_view(replies@) =~= before.push(outgoing_view(step.replies@)));
            }
        }
        assert(incoming.take(replies@.len() as int) =~= incoming);
        Run { replies, shutdown: false }
    }
}

} // verus!
