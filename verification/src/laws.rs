//! What holds of the session whatever messages come in: the laws that tie
//! the store to the texts that were sent, the published diagnostics to
//! the stored texts, and the responses to the requests.

use tan::context::Context;
use vstd::prelude::*;
use crate::dispatch::{
    ends_session, failure, replies_ok, run_ok, store_after, store_after_all, stored_text, sync_op,
    EventView, OutcomeView, StoredText,
};
use crate::document::{
    apply_ops, last_op_on, lemma_lookup_after_ops, DocumentView, StoreOp, StoreView,
};
use crate::message::{
    request_method_of, MessageView, OutgoingView, ParamsView, RequestIdView, RequestMethod,
    SessionError,
};
use crate::engine::Entry;
use crate::module::{lists_scope, report_of, reports_of};
use crate::server::{published, symbols_ok};
use crate::symbol::{
    document_symbols_of, is_definition, is_engine_name, lemma_document_order_is_unique, symbol_of,
    symbols_of, SymbolView,
};
use vstd::multiset::Multiset;
use vstd::seq_lib::{to_multiset_build, to_multiset_contains, to_multiset_len, to_multiset_remove};

verus! {

/// The event in the life of a document that a message reports, with what
/// came of the engine's work for it, if it reports one.
pub open spec fn op_of(event: EventView) -> Option<StoreOp> {
    match event.message {
        MessageView::Notification { method, params } => sync_op(method, params, event.outcome),
        _ => None,
    }
}

/// The text that a message stores, and the document it stores it for, if
/// the message stores one.
pub open spec fn stored_by(message: MessageView) -> Option<StoredText> {
    match message {
        MessageView::Notification { method, params } => stored_text(method, params),
        _ => None,
    }
}

/// The events in the life of the documents that a sequence of messages
/// reports, in order.
pub open spec fn ops_of(events: Seq<EventView>) -> Seq<StoreOp>
    decreases events.len(),
{
    if events.len() == 0 {
        Seq::empty()
    } else {
        match op_of(events.last()) {
            Some(op) => ops_of(events.drop_last()).push(op),
            None => ops_of(events.drop_last()),
        }
    }
}

/// The messages change the store by the events they report and by
/// nothing else.
pub proof fn lemma_store_follows_the_events(store: StoreView, events: Seq<EventView>)
    ensures
        store_after_all(store, events) == apply_ops(store, ops_of(events)),
    decreases events.len(),
{
    if events.len() > 0 {
        lemma_store_follows_the_events(store, events.drop_last());
        let earlier = ops_of(events.drop_last());
        match op_of(events.last()) {
            Some(op) => {
                assert(earlier.push(op).drop_last() =~= earlier);
                assert(earlier.push(op).last() == op);
            },
            None => {},
        }
    }
}

/// After any sequence of messages, a document that some message reported
/// an event for is open if and only if the last such event stored a
/// text, and it then holds exactly that text with the analysis that came
/// with that text, never that of an earlier one; a closed document is
/// gone. A document that no message reported an event for is as it was.
pub proof fn lemma_document_after_messages(store: StoreView, events: Seq<EventView>, uri: Seq<char>)
    ensures
        match last_op_on(ops_of(events), uri) {
            Some(op) => match op.document() {
                Some(document) => store_after_all(store, events).contains_key(uri) && store_after_all(
                    store,
                    events,
                )[uri] == document,
                None => !store_after_all(store, events).contains_key(uri),
            },
            None => store_after_all(store, events).contains_key(uri) == store.contains_key(uri) && (
            store.contains_key(uri) ==> store_after_all(store, events)[uri] == store[uri]),
        },
{
    lemma_store_follows_the_events(store, events);
    lemma_lookup_after_ops(store, ops_of(events), uri);
}

/// A text that comes with its analysis and its diagnostics is stored
/// with them, and the diagnostics are published, in one notification for
/// the document and no more, whether the list is empty or not; nothing
/// else is sent on such a message, and what is published is what the
/// store then holds for the document.
pub proof fn lemma_stored_text_is_published_once(
    store: StoreView,
    context: Context,
    message: MessageView,
    analysis: crate::engine::ParsedView,
    diagnostics: Seq<crate::diagnostic::DiagnosticView>,
    replies: Seq<OutgoingView>,
)
    requires
        replies_ok(store, context, message, OutcomeView::Parsed(analysis, diagnostics), replies),
        stored_by(message) is Some,
    ensures
        store_after(store, message, OutcomeView::Parsed(analysis, diagnostics)) == store.insert(
            stored_by(message)->0.uri,
            (DocumentView { text: stored_by(message)->0.text, analysis, diagnostics }),
        ),
        replies == seq![(OutgoingView::Diagnostics { uri: stored_by(message)->0.uri, diagnostics })],
        replies[0] == published(
            store_after(store, message, OutcomeView::Parsed(analysis, diagnostics)),
            stored_by(message)->0.uri,
        ),
{
}

/// Diagnostics are published on no message but one that stores a text.
pub proof fn lemma_published_only_for_stored_text(
    store: StoreView,
    context: Context,
    message: MessageView,
    outcome: OutcomeView,
    replies: Seq<OutgoingView>,
    i: int,
)
    requires
        replies_ok(store, context, message, outcome, replies),
        0 <= i < replies.len(),
        replies[i] is Diagnostics,
    ensures
        stored_by(message) is Some,
        outcome is Parsed,
        replies[i]->Diagnostics_uri == stored_by(message)->0.uri,
        replies.len() == 1,
{
}

/// A request, other than the one that ends the session, is answered by
/// exactly one response, which carries its identifier and is the last
/// message sent for it, whatever came of the engine's work; whatever is
/// sent before is no response.
pub proof fn lemma_request_is_answered_once(
    store: StoreView,
    context: Context,
    id: RequestIdView,
    method: Seq<char>,
    params: ParamsView,
    outcome: OutcomeView,
    replies: Seq<OutgoingView>,
)
    requires
        replies_ok(store, context, (MessageView::Request { id, method, params }), outcome, replies),
        request_method_of(method) != RequestMethod::Shutdown,
    ensures
        replies.len() >= 1,
        replies.last().answers(id),
        forall|i: int| 0 <= i < replies.len() - 1 ==> !(#[trigger] replies[i]).is_response(),
{
}

/// Nothing but a request is answered: no response is sent on a
/// notification or on a response.
pub proof fn lemma_only_requests_are_answered(
    store: StoreView,
    context: Context,
    message: MessageView,
    outcome: OutcomeView,
    replies: Seq<OutgoingView>,
)
    requires
        replies_ok(store, context, message, outcome, replies),
        !(message is Request),
    ensures
        forall|i: int| 0 <= i < replies.len() ==> !(#[trigger] replies[i]).is_response(),
{
}

/// A request for the symbols or the formatting of a document that is
/// not open fails as an unknown document, whatever the engine did.
pub proof fn lemma_request_on_unknown_document_fails(
    store: StoreView,
    context: Context,
    id: RequestIdView,
    method: Seq<char>,
    uri: Seq<char>,
    outcome: OutcomeView,
    replies: Seq<OutgoingView>,
)
    requires
        replies_ok(
            store,
            context,
            (MessageView::Request { id, method, params: ParamsView::Document { uri } }),
            outcome,
            replies,
        ),
        request_method_of(method) == RequestMethod::DocumentSymbol || request_method_of(method)
            == RequestMethod::Formatting,
        !store.contains_key(uri),
    ensures
        replies.len() >= 1,
        replies.last() == failure(id, SessionError::UnknownDocument),
{
}

/// A document for which no message has stored a text is not open: in a
/// session that started without documents, a sequence of messages none of
/// which stores a text for the document leaves the store without it.
pub proof fn lemma_never_opened_is_unknown(events: Seq<EventView>, uri: Seq<char>)
    requires
        forall|i: int|
            0 <= i < events.len() ==> match stored_by((#[trigger] events[i]).message) {
                Some(stored) => stored.uri != uri,
                None => true,
            },
    ensures
        !store_after_all(Map::empty(), events).contains_key(uri),
    decreases events.len(),
{
    if events.len() > 0 {
        assert forall|i: int| 0 <= i < events.drop_last().len() implies match stored_by(
            (#[trigger] events.drop_last()[i]).message,
        ) {
            Some(stored) => stored.uri != uri,
            None => true,
        } by {
            assert(events.drop_last()[i] == events[i]);
        }
        lemma_never_opened_is_unknown(events.drop_last(), uri);
        assert(match stored_by(events.last().message) {
            Some(stored) => stored.uri != uri,
            None => true,
        });
    }
}

/// In a run of the loop, each message that was handled and stored a text
/// with its analysis had the diagnostics of that analysis published
/// once, in its own replies, and no other message had diagnostics
/// published.
pub proof fn lemma_run_publishes_each_stored_text_once(
    store: StoreView,
    context: Context,
    events: Seq<EventView>,
    replies: Seq<Seq<OutgoingView>>,
    shutdown: bool,
    end: StoreView,
    i: int,
)
    requires
        run_ok(store, context, events, replies, shutdown, end),
        0 <= i < replies.len(),
    ensures
        match op_of(events[i]) {
            Some(StoreOp::Put { uri, document }) => replies[i] == seq![
                (OutgoingView::Diagnostics { uri, diagnostics: document.diagnostics }),
            ],
            _ => forall|k: int| 0 <= k < replies[i].len() ==> !(#[trigger] replies[i][k] is Diagnostics),
        },
{
    let before = store_after_all(store, events.take(i));
    assert(replies_ok(before, context, events[i].message, events[i].outcome, replies[i]));
}

/// In a run of the loop, each request that was handled got exactly one
/// response, with its identifier, in its own replies, and no response
/// was sent on any other message.
pub proof fn lemma_run_answers_each_request_once(
    store: StoreView,
    context: Context,
    events: Seq<EventView>,
    replies: Seq<Seq<OutgoingView>>,
    shutdown: bool,
    end: StoreView,
    i: int,
)
    requires
        run_ok(store, context, events, replies, shutdown, end),
        0 <= i < replies.len(),
    ensures
        match events[i].message {
            MessageView::Request { id, .. } => replies[i].len() >= 1 && replies[i].last().answers(id)
                && forall|k: int|
                0 <= k < replies[i].len() - 1 ==> !(#[trigger] replies[i][k]).is_response(),
            _ => forall|k: int| 0 <= k < replies[i].len() ==> !(#[trigger] replies[i][k]).is_response(),
        },
{
    let before = store_after_all(store, events.take(i));
    assert(replies_ok(before, context, events[i].message, events[i].outcome, replies[i]));
    assert(!ends_session(events[i].message));
    match events[i].message {
        MessageView::Request { id, method, params } => {
            lemma_request_is_answered_once(
                before,
                context,
                id,
                method,
                params,
                events[i].outcome,
                replies[i],
            );
        },
        _ => {
            lemma_only_requests_are_answered(
                before,
                context,
                events[i].message,
                events[i].outcome,
                replies[i],
            );
        },
    }
}

/// In a run of the loop that starts without documents, a request for the
/// symbols or the formatting of a document for which no earlier message
/// has stored a text fails as an unknown document.
pub proof fn lemma_run_fails_request_on_never_opened(
    context: Context,
    events: Seq<EventView>,
    replies: Seq<Seq<OutgoingView>>,
    shutdown: bool,
    end: StoreView,
    i: int,
    id: RequestIdView,
    method: Seq<char>,
    uri: Seq<char>,
)
    requires
        run_ok(Map::empty(), context, events, replies, shutdown, end),
        0 <= i < replies.len(),
        events[i].message == (MessageView::Request {
            id,
            method,
            params: ParamsView::Document { uri },
        }),
        request_method_of(method) == RequestMethod::DocumentSymbol || request_method_of(method)
            == RequestMethod::Formatting,
        forall|j: int|
            0 <= j < i ==> match stored_by((#[trigger] events[j]).message) {
                Some(stored) => stored.uri != uri,
                None => true,
            },
    ensures
        replies[i].len() >= 1,
        replies[i].last() == failure(id, SessionError::UnknownDocument),
{
    let earlier = events.take(i);
    assert forall|j: int| 0 <= j < earlier.len() implies match stored_by((#[trigger] earlier[j]).message) {
        Some(stored) => stored.uri != uri,
        None => true,
    } by {
        assert(earlier[j] == events[j]);
    }
    lemma_never_opened_is_unknown(earlier, uri);
    assert(replies_ok(
        store_after_all(Map::empty(), earlier),
        context,
        events[i].message,
        events[i].outcome,
        replies[i],
    ));
    lemma_request_on_unknown_document_fails(
        store_after_all(Map::empty(), earlier),
        context,
        id,
        method,
        uri,
        events[i].outcome,
        replies[i],
    );
}

/// The symbols that a sequence of entries gives rise to, as a collection
/// without order: one for each entry that is a definition of the
/// document.
pub open spec fn listed(entries: Seq<Entry>, context: Context) -> Multiset<SymbolView>
    decreases entries.len(),
{
    if entries.len() == 0 {
        Multiset::empty()
    } else if is_engine_name(entries.last().0) {
        listed(entries.drop_last(), context)
    } else {
        listed(entries.drop_last(), context).insert(symbol_of(report_of(entries.last(), context)))
    }
}

/// The symbols of the definitions among the reports of a sequence of
/// entries are, order apart, those that the entries give rise to.
pub proof fn lemma_listed_is_what_is_listed(entries: Seq<Entry>, context: Context)
    ensures
        document_symbols_of(reports_of(entries, context)).to_multiset() == listed(entries, context),
    decreases entries.len(),
{
    let reports = reports_of(entries, context);
    if entries.len() == 0 {
        reveal(Seq::filter);
        assert(document_symbols_of(reports) =~= Seq::<SymbolView>::empty());
        assert(document_symbols_of(reports).to_multiset() =~= Multiset::<SymbolView>::empty()) by {
            to_multiset_len(document_symbols_of(reports));
        }
    } else {
        lemma_listed_is_what_is_listed(entries.drop_last(), context);
        let earlier = reports_of(entries.drop_last(), context);
        let last = report_of(entries.last(), context);
        assert(reports =~= earlier.push(last));
        earlier.lemma_filter_push(last, is_definition());
        if !is_engine_name(entries.last().0) {
            let kept = earlier.filter(is_definition());
            assert(symbols_of(kept.push(last)) =~= symbols_of(kept).push(symbol_of(last)));
            to_multiset_build(symbols_of(kept), symbol_of(last));
        }
    }
}

/// Putting an entry into a sequence of entries, at whatever place, adds
/// the symbol of that entry and changes nothing else.
pub proof fn lemma_listed_with_one_more(entries: Seq<Entry>, at: int, entry: Entry, context: Context)
    requires
        0 <= at <= entries.len(),
    ensures
        listed(entries.insert(at, entry), context) == if is_engine_name(entry.0) {
            listed(entries, context)
        } else {
            listed(entries, context).insert(symbol_of(report_of(entry, context)))
        },
    decreases entries.len(),
{
    let longer = entries.insert(at, entry);
    if at == entries.len() {
        assert(longer.drop_last() =~= entries);
        assert(longer.last() == entry);
    } else {
        assert(longer.last() == entries.last());
        assert(longer.drop_last() =~= entries.drop_last().insert(at, entry));
        lemma_listed_with_one_more(entries.drop_last(), at, entry, context);
        if !is_engine_name(entry.0) && !is_engine_name(entries.last().0) {
            assert(listed(entries.drop_last(), context).insert(
                symbol_of(report_of(entry, context)),
            ).insert(symbol_of(report_of(entries.last(), context))) =~= listed(
                entries.drop_last(),
                context,
            ).insert(symbol_of(report_of(entries.last(), context))).insert(
                symbol_of(report_of(entry, context)),
            ));
        }
    }
}

/// The order in which a scope hands its bindings out does not show in
/// the symbols: two sequences that hold the same entries, each as often
/// as the other, give rise to the same symbols.
pub proof fn lemma_listed_whatever_the_order(a: Seq<Entry>, b: Seq<Entry>, context: Context)
    requires
        a.to_multiset() == b.to_multiset(),
    ensures
        listed(a, context) == listed(b, context),
    decreases a.len(),
{
    to_multiset_len(a);
    to_multiset_len(b);
    if a.len() > 0 {
        let entry = a.last();
        to_multiset_contains(a, entry);
        to_multiset_contains(b, entry);
        assert(a.contains(entry)) by {
            assert(a[a.len() - 1] == entry);
        }
        let at = choose|at: int| 0 <= at < b.len() && b[at] == entry;
        let rest = b.remove(at);
        to_multiset_remove(a, a.len() - 1);
        to_multiset_remove(b, at);
        assert(a.remove(a.len() - 1) =~= a.drop_last());
        assert(a.drop_last().to_multiset() =~= rest.to_multiset());
        lemma_listed_whatever_the_order(a.drop_last(), rest, context);
        assert(rest.insert(at, entry) =~= b);
        lemma_listed_with_one_more(rest, at, entry, context);
    }
}

/// The list of the symbols of a scope is settled by the scope and the
/// context: two lists that are both fit lists of its symbols are the same
/// list.
pub proof fn lemma_symbols_are_settled_by_the_scope(
    x: Seq<SymbolView>,
    y: Seq<SymbolView>,
    scope: tan::scope::Scope,
    context: Context,
)
    requires
        symbols_ok(x, scope, context),
        symbols_ok(y, scope, context),
    ensures
        x == y,
{
    let a = choose|a: Seq<Entry>|
        a.to_multiset() == crate::engine::bound_in(scope) && x.to_multiset() == document_symbols_of(
            #[trigger] reports_of(a, context),
        ).to_multiset();
    let b = choose|b: Seq<Entry>|
        b.to_multiset() == crate::engine::bound_in(scope) && y.to_multiset() == document_symbols_of(
            #[trigger] reports_of(b, context),
        ).to_multiset();
    lemma_listed_is_what_is_listed(a, context);
    lemma_listed_is_what_is_listed(b, context);
    lemma_listed_whatever_the_order(a, b, context);
    lemma_document_order_is_unique(x, y);
}

} // verus!
