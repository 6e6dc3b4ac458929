use std::collections::HashMap;
use std::sync::Arc;
use tan::api::{compile, parse_string_all};
use tan::context::Context;
use tan::error::Error;
use tan::eval::eval;
use tan::expr::{expr_clone, Expr};
use tan::scope::Scope;
use tan_formatting::pretty::Formatter;
use tan_lsp_server::diagnostic::{Diagnostic, Severity};
use tan_lsp_server::dialect::Dialect;
use tan_lsp_server::dispatch::{status_notification, Event, Outcome, Run, Step, Work};
use tan_lsp_server::module::{next_definition, open_scope};
use tan_lsp_server::message::{
    Message, Outgoing, Params, RequestId, SessionError, TextEdit,
};
use tan_lsp_server::range::{Position, Range};
use tan_lsp_server::server::Server;
use tan_lsp_server::status::PublishServerStatus;
use tan_lsp_server::symbol::{Symbol, SymbolKind};

fn context() -> Context {
    let top = Arc::new(Scope::default());
    Context {
        root_path: String::from("."),
        module_registry: HashMap::new(),
        scope: top.clone(),
        dynamic_scope: Arc::new(Scope::default()),
        top_scope: top,
    }
}

fn server() -> Server {
    Server::new(context())
}

fn lint(parsed: &Result<Vec<Expr>, Vec<Error>>) -> Vec<Diagnostic> {
    let convert = |d: tan_lints::Diagnostic| Diagnostic {
        range: Range {
            start: Position { line: d.range.start.line, character: d.range.start.character },
            end: Position { line: d.range.end.line, character: d.range.end.character },
        },
        severity: match d.severity {
            Some(tan_lints::DiagnosticSeverity::ERROR) => Some(Severity::Error),
            Some(tan_lints::DiagnosticSeverity::WARNING) => Some(Severity::Warning),
            Some(tan_lints::DiagnosticSeverity::INFORMATION) => Some(Severity::Information),
            Some(tan_lints::DiagnosticSeverity::HINT) => Some(Severity::Hint),
            _ => None,
        },
        message: d.message,
    };
    tan_lints::compute_diagnostics(parsed).into_iter().map(convert).collect()
}

fn parsed(text: &str) -> Outcome {
    let parsed = parse_string_all(text);
    let diagnostics = lint(&parsed);
    Outcome::Parsed(parsed, diagnostics)
}

fn scan(exprs: &[Expr], context: &mut Context) -> Option<Arc<Scope>> {
    open_scope(context);
    let mut from = 0;
    while let Some(at) = next_definition(exprs, from) {
        let expr = compile(expr_clone(&exprs[at]), context).ok()?;
        let _ = eval(&expr, context);
        from = at + 1;
    }
    Some(context.scope.clone())
}

fn formatted(text: &str, dialect: Dialect) -> Option<String> {
    let exprs = parse_string_all(text).ok()?;
    let dialect = match dialect {
        Dialect::Code => tan_formatting::types::Dialect::Code,
        Dialect::Data => tan_formatting::types::Dialect::Data,
    };
    Some(Formatter::for_dialect(&exprs, dialect).format())
}

fn engine(server: &mut Server, message: &Message) -> Outcome {
    let forms = match server.work_for(message) {
        Work::Nothing => return Outcome::Nothing,
        Work::Parse { text } => return parsed(text),
        Work::Format { text, dialect } => return Outcome::Formatted(formatted(text, dialect)),
        Work::Scan { forms } => forms.clone(),
    };
    Outcome::Scanned(scan(&forms, server.context_mut()))
}

fn drive(server: &mut Server, message: &Message) -> Step {
    let outcome = engine(server, message);
    server.handle_message(message, outcome)
}

fn run_all(server: &mut Server, messages: &[Message]) -> Run {
    let mut replies = Vec::new();
    for message in messages {
        let step = drive(server, message);
        if step.shutdown {
            return Run { replies, shutdown: true };
        }
        replies.push(step.replies);
    }
    Run { replies, shutdown: false }
}

fn store(server: &mut Server, uri: &str, text: &str) {
    let analysis = parse_string_all(text);
    let diagnostics = lint(&analysis);
    server.process_document(uri, text, analysis, diagnostics);
}

fn symbols(server: &mut Server, uri: &str) -> Result<Vec<Symbol>, SessionError> {
    let scanned = match server.forms_to_scan(uri) {
        Ok(forms) => {
            let forms = forms.clone();
            scan(&forms, server.context_mut())
        }
        Err(_) => None,
    };
    server.document_symbols(uri, scanned.as_ref())
}

fn format(server: &Server, uri: &str) -> Result<Vec<TextEdit>, SessionError> {
    let text = match server.get(uri) {
        Ok(document) => formatted(document.text(), tan_lsp_server::dialect::dialect_from_document_uri(uri)),
        Err(_) => None,
    };
    server.format_document(uri, text)
}

fn opened(uri: &str, text: &str) -> Message {
    Message::Notification {
        method: String::from("textDocument/didOpen"),
        params: Params::Opened { uri: String::from(uri), text: String::from(text) },
    }
}

fn changed(uri: &str, texts: &[&str]) -> Message {
    Message::Notification {
        method: String::from("textDocument/didChange"),
        params: Params::Changed {
            uri: String::from(uri),
            changes: texts.iter().map(|t| String::from(*t)).collect(),
        },
    }
}

fn closed(uri: &str) -> Message {
    Message::Notification {
        method: String::from("textDocument/didClose"),
        params: Params::Document { uri: String::from(uri) },
    }
}

fn request(id: i32, method: &str, uri: &str) -> Message {
    Message::Request {
        id: RequestId::Number(id),
        method: String::from(method),
        params: Params::Document { uri: String::from(uri) },
    }
}

fn symbols_of(id: i32, uri: &str) -> Message {
    request(id, "textDocument/documentSymbol", uri)
}

fn formatting_of(id: i32, uri: &str) -> Message {
    request(id, "textDocument/formatting", uri)
}

fn failure(id: i32, error: SessionError) -> Outgoing {
    Outgoing::Failure { id: RequestId::Number(id), error }
}

fn status(text: &str) -> Outgoing {
    Outgoing::Status { text: String::from(text) }
}

fn names(reply: &Outgoing) -> Vec<String> {
    match reply {
        Outgoing::Symbols { symbols, .. } => symbols.iter().map(|s| s.name.clone()).collect(),
        other => panic!("no list of symbols: {:?}", other),
    }
}

fn whole_document() -> Range {
    Range {
        start: Position { line: 0, character: 0 },
        end: Position { line: u32::MAX, character: u32::MAX },
    }
}

#[test]
fn a_new_session_has_no_documents() {
    let server = server();
    assert!(matches!(server.get("doc://x"), Err(SessionError::UnknownDocument)));
    assert!(matches!(server.send_diagnostics("doc://x"), Err(SessionError::UnknownDocument)));
    assert!(matches!(format(&server, "doc://x"), Err(SessionError::UnknownDocument)));
    assert!(matches!(
        server.format_document("doc://x", Some(String::from("x"))),
        Err(SessionError::UnknownDocument)
    ));
    assert!(matches!(server.forms_to_scan("doc://x"), Err(SessionError::UnknownDocument)));
}

#[test]
fn an_opened_document_is_found_with_its_text_and_analysis() {
    let mut server = server();
    store(&mut server, "doc://x", "(let a 1)(let b 2)");
    let document = server.get("doc://x").unwrap();
    assert_eq!(document.text(), "(let a 1)(let b 2)");
    assert_eq!(document.analysis().as_ref().unwrap().len(), 2);
    assert!(matches!(server.get("doc://y"), Err(SessionError::UnknownDocument)));
}

#[test]
fn the_analysis_is_always_that_of_the_last_text() {
    let mut server = server();
    let texts = ["(let a 1)", "(let a 1", "(let a 1) (let b 2) (let c 3)", "", "\"open"];
    for text in texts {
        store(&mut server, "doc://x", text);
        let document = server.get("doc://x").unwrap();
        assert_eq!(document.text(), text);
        let fresh = tan::api::parse_string_all(text);
        match (document.analysis(), &fresh) {
            (Ok(held), Ok(parsed)) => assert_eq!(held, parsed),
            (Err(held), Err(parsed)) => {
                let held: Vec<String> = held.iter().map(|e| e.to_string()).collect();
                let parsed: Vec<String> = parsed.iter().map(|e| e.to_string()).collect();
                assert_eq!(held, parsed);
            }
            _ => panic!("the stored analysis is not that of {:?}", text),
        }
    }
}

#[test]
fn documents_are_kept_apart() {
    let mut server = server();
    store(&mut server, "doc://x", "(let a 1)");
    store(&mut server, "doc://y", "(let b 2) (let c 3)");
    store(&mut server, "doc://x", "(let a 1) (let d 4) (let e 5)");
    assert_eq!(server.get("doc://x").unwrap().text(), "(let a 1) (let d 4) (let e 5)");
    assert_eq!(server.get("doc://x").unwrap().analysis().as_ref().unwrap().len(), 3);
    assert_eq!(server.get("doc://y").unwrap().text(), "(let b 2) (let c 3)");
    assert_eq!(server.get("doc://y").unwrap().analysis().as_ref().unwrap().len(), 2);
}

#[test]
fn a_closed_document_is_unknown() {
    let mut server = server();
    store(&mut server, "doc://x", "(let a 1)");
    store(&mut server, "doc://y", "(let b 2)");
    server.close_document("doc://x");
    assert!(matches!(server.get("doc://x"), Err(SessionError::UnknownDocument)));
    assert_eq!(server.get("doc://y").unwrap().text(), "(let b 2)");
    server.close_document("doc://x");
    server.close_document("doc://never-opened");
    assert!(matches!(server.get("doc://x"), Err(SessionError::UnknownDocument)));
    assert!(matches!(symbols(&mut server, "doc://x"), Err(SessionError::UnknownDocument)));
    assert!(matches!(format(&server, "doc://x"), Err(SessionError::UnknownDocument)));
    store(&mut server, "doc://x", "(let c 3)");
    assert_eq!(server.get("doc://x").unwrap().text(), "(let c 3)");
}

#[test]
fn a_clean_document_publishes_an_empty_list() {
    let mut server = server();
    store(&mut server, "doc://x", "(let a 1)(let b 2)");
    assert_eq!(
        server.send_diagnostics("doc://x"),
        Ok(Outgoing::Diagnostics { uri: String::from("doc://x"), diagnostics: Vec::new() })
    );
}

#[test]
fn a_text_that_does_not_parse_publishes_its_errors() {
    let mut server = server();
    let text = "(let a 1\n(let b \"2)";
    store(&mut server, "doc://bad", text);
    match server.send_diagnostics("doc://bad") {
        Ok(Outgoing::Diagnostics { uri, diagnostics }) => {
            assert_eq!(uri, "doc://bad");
            assert!(diagnostics.len() >= 1);
            let lines: Vec<&str> = text.split('\n').collect();
            for diagnostic in &diagnostics {
                let start = diagnostic.range.start;
                let end = diagnostic.range.end;
                assert!((start.line as usize) < lines.len());
                assert!((end.line as usize) < lines.len());
                assert!(start.character as usize <= lines[start.line as usize].chars().count());
                assert!(end.character as usize <= lines[end.line as usize].chars().count());
                assert!((start.line, start.character) <= (end.line, end.character));
                assert!(!diagnostic.message.is_empty());
            }
            assert_eq!(diagnostics[0].message, "unterminated string");
            assert_eq!(diagnostics[0].severity, None);
            assert_eq!(diagnostics[0].range.start, Position { line: 1, character: 7 });
        }
        other => panic!("no diagnostics: {:?}", other),
    }
}

#[test]
fn the_lints_report_on_a_text_that_parses() {
    let mut server = server();
    store(&mut server, 
        "doc://long",
        "(let a_very_long_name_that_goes_on_and_on_and_on_for_ever 1)\n(let x->y 2)",
    );
    match server.send_diagnostics("doc://long") {
        Ok(Outgoing::Diagnostics { diagnostics, .. }) => {
            assert_eq!(diagnostics.len(), 2);
            assert_eq!(
                diagnostics[0].message,
                "The symbol `a_very_long_name_that_goes_on_and_on_and_on_for_ever` is too long."
            );
            assert_eq!(diagnostics[0].severity, Some(Severity::Warning));
            assert_eq!(diagnostics[0].range.start, Position { line: 0, character: 5 });
            assert_eq!(diagnostics[0].range.end, Position { line: 0, character: 57 });
            assert_eq!(diagnostics[1].message, "The use of `->` should be avoided in names");
            assert_eq!(diagnostics[1].severity, Some(Severity::Warning));
            assert_eq!(diagnostics[1].range.start, Position { line: 1, character: 5 });
            assert_eq!(diagnostics[1].range.end, Position { line: 1, character: 9 });
        }
        other => panic!("no diagnostics: {:?}", other),
    }
}

#[test]
fn the_symbols_of_a_document_are_its_top_level_definitions() {
    let mut server = server();
    store(&mut server, 
        "doc://x",
        "(let a 1)\n(let b 2)\n(let zonk (Func [x y] (do (let inner 3) x)))\n(zonk a b)\n",
    );
    let symbols = symbols(&mut server, "doc://x").unwrap();
    assert_eq!(
        symbols,
        vec![
            Symbol {
                name: String::from("a"),
                kind: SymbolKind::Variable,
                range: Range {
                    start: Position { line: 0, character: 7 },
                    end: Position { line: 0, character: 8 },
                },
            },
            Symbol {
                name: String::from("b"),
                kind: SymbolKind::Variable,
                range: Range {
                    start: Position { line: 1, character: 7 },
                    end: Position { line: 1, character: 8 },
                },
            },
            Symbol {
                name: String::from("zonk"),
                kind: SymbolKind::Function,
                range: Range {
                    start: Position { line: 2, character: 1 },
                    end: Position { line: 2, character: 4 },
                },
            },
        ]
    );
}

#[test]
fn a_document_without_definitions_has_an_empty_list_of_symbols() {
    let mut server = server();
    store(&mut server, "doc://x", "(writeln 1)\n; nothing is defined here\n42");
    assert_eq!(symbols(&mut server, "doc://x"), Ok(Vec::new()));
    store(&mut server, "doc://empty", "");
    assert_eq!(symbols(&mut server, "doc://empty"), Ok(Vec::new()));
}

#[test]
fn a_document_with_errors_has_no_symbols() {
    let mut server = server();
    store(&mut server, "doc://bad", "(let a 1");
    assert_eq!(symbols(&mut server, "doc://bad"), Err(SessionError::ParseFailure));
    assert!(matches!(symbols(&mut server, "doc://none"), Err(SessionError::UnknownDocument)));
}

#[test]
fn listing_symbols_leaves_the_store_alone() {
    let mut server = server();
    store(&mut server, "doc://x", "(let a 1)");
    let _ = symbols(&mut server, "doc://x");
    let _ = symbols(&mut server, "doc://y");
    assert_eq!(server.get("doc://x").unwrap().text(), "(let a 1)");
    assert!(matches!(server.get("doc://y"), Err(SessionError::UnknownDocument)));
}

#[test]
fn formatting_replaces_the_whole_document() {
    let mut server = server();
    store(&mut server, "doc://x", "(let   c    3)");
    assert_eq!(
        format(&server, "doc://x"),
        Ok(vec![TextEdit { range: whole_document(), new_text: String::from("(let c 3)\n") }])
    );
}

#[test]
fn formatting_goes_by_the_dialect_of_the_uri() {
    let mut server = server();
    let text = "[1 2 3]";
    store(&mut server, "doc://numbers.tan", text);
    store(&mut server, "doc://numbers.data.tan", text);
    store(&mut server, "doc://numbers.config.tan", text);
    let code = format(&server, "doc://numbers.tan").unwrap();
    let data = format(&server, "doc://numbers.data.tan").unwrap();
    let config = format(&server, "doc://numbers.config.tan").unwrap();
    assert_eq!(code[0].new_text, "[1 2 3]\n");
    assert_eq!(data[0].new_text, "[\n    1\n    2\n    3\n]\n");
    assert_eq!(config, data);
}

#[test]
fn formatting_a_text_with_errors_fails() {
    let mut server = server();
    store(&mut server, "doc://bad", "(let a 1");
    assert_eq!(format(&server, "doc://bad"), Err(SessionError::ParseFailure));
}

#[test]
fn formatting_what_is_formatted_changes_nothing() {
    let mut server = server();
    let texts = [
        "(let a 1)(let b 2)",
        "(let zonk (Func [a b] (+ a b)))\n(let z (zonk 1 2))",
        "; a remark\n(let   numbers [1 2 3])\n\n\n(writeln   numbers)",
        "",
    ];
    for text in texts {
        store(&mut server, "doc://x", text);
        let once = format(&server, "doc://x").unwrap();
        store(&mut server, "doc://x", &once[0].new_text);
        let twice = format(&server, "doc://x").unwrap();
        assert_eq!(once, twice);
    }
}

#[test]
fn an_opened_document_has_its_diagnostics_published_once() {
    let mut server = server();
    let step = drive(&mut server, &opened("doc://x", "(let a 1)"));
    assert!(!step.shutdown);
    assert_eq!(
        step.replies,
        vec![Outgoing::Diagnostics { uri: String::from("doc://x"), diagnostics: Vec::new() }]
    );
    assert_eq!(server.get("doc://x").unwrap().text(), "(let a 1)");
}

#[test]
fn a_change_counts_with_its_first_text_only() {
    let mut server = server();
    drive(&mut server, &opened("doc://x", "(let a 1)"));
    let step = drive(&mut server, &changed("doc://x", &["(let b 2", "(let c 3)"]));
    assert_eq!(server.get("doc://x").unwrap().text(), "(let b 2");
    assert_eq!(step.replies.len(), 1);
    match &step.replies[0] {
        Outgoing::Diagnostics { uri, diagnostics } => {
            assert_eq!(uri, "doc://x");
            assert_eq!(diagnostics.len(), 1);
        }
        other => panic!("no diagnostics: {:?}", other),
    }
}

#[test]
fn a_change_without_a_text_does_nothing() {
    let mut server = server();
    drive(&mut server, &opened("doc://x", "(let a 1)"));
    let step = drive(&mut server, &changed("doc://x", &[]));
    assert_eq!(step.replies, Vec::new());
    assert_eq!(server.get("doc://x").unwrap().text(), "(let a 1)");
    let step = drive(&mut server, &changed("doc://y", &[]));
    assert_eq!(step.replies, Vec::new());
    assert!(matches!(server.get("doc://y"), Err(SessionError::UnknownDocument)));
}

#[test]
fn a_change_to_a_document_that_is_not_open_opens_it() {
    let mut server = server();
    let step = drive(&mut server, &changed("doc://x", &["(let a 1)"]));
    assert_eq!(
        step.replies,
        vec![Outgoing::Diagnostics { uri: String::from("doc://x"), diagnostics: Vec::new() }]
    );
    assert_eq!(server.get("doc://x").unwrap().text(), "(let a 1)");
}

#[test]
fn closing_publishes_nothing() {
    let mut server = server();
    drive(&mut server, &opened("doc://bad", "(let a 1"));
    let step = drive(&mut server, &closed("doc://bad"));
    assert_eq!(step.replies, Vec::new());
    assert!(!step.shutdown);
    assert!(matches!(server.get("doc://bad"), Err(SessionError::UnknownDocument)));
}

#[test]
fn notifications_that_are_not_understood_are_passed_over() {
    let mut server = server();
    drive(&mut server, &opened("doc://x", "(let a 1)"));
    let unknown = Message::Notification {
        method: String::from("workspace/didChangeConfiguration"),
        params: Params::Unreadable,
    };
    let misshapen = [
        Message::Notification {
            method: String::from("textDocument/didOpen"),
            params: Params::Document { uri: String::from("doc://x") },
        },
        Message::Notification {
            method: String::from("textDocument/didOpen"),
            params: Params::Unreadable,
        },
        Message::Notification {
            method: String::from("textDocument/didChange"),
            params: Params::Opened { uri: String::from("doc://x"), text: String::from("(let b 2)") },
        },
        Message::Notification {
            method: String::from("textDocument/didClose"),
            params: Params::Opened { uri: String::from("doc://x"), text: String::new() },
        },
        Message::Notification {
            method: String::from("exit"),
            params: Params::Unreadable,
        },
    ];
    assert_eq!(drive(&mut server, &unknown).replies, Vec::new());
    for message in &misshapen {
        let step = drive(&mut server, message);
        assert_eq!(step.replies, Vec::new());
        assert!(!step.shutdown);
    }
    assert_eq!(server.get("doc://x").unwrap().text(), "(let a 1)");
}

#[test]
fn a_response_is_dropped() {
    let mut server = server();
    let step = drive(&mut server, &Message::Response { id: RequestId::Number(7) });
    assert_eq!(step.replies, Vec::new());
    assert!(!step.shutdown);
}

#[test]
fn a_request_without_a_handler_is_answered_with_a_failure() {
    let mut server = server();
    let step = drive(&mut server, &request(5, "textDocument/hover", "doc://x"));
    assert_eq!(step.replies, vec![failure(5, SessionError::UnsupportedMethod)]);
    assert!(!step.shutdown);
    let step = drive(&mut server, &Message::Request {
        id: RequestId::Text(String::from("abc")),
        method: String::from("textDocument/rename"),
        params: Params::Unreadable,
    });
    assert_eq!(
        step.replies,
        vec![Outgoing::Failure {
            id: RequestId::Text(String::from("abc")),
            error: SessionError::UnsupportedMethod,
        }]
    );
}

#[test]
fn requests_with_misshapen_parameters_are_answered_with_a_failure() {
    let mut server = server();
    drive(&mut server, &opened("doc://x", "(let a 1)"));
    let step = drive(&mut server, &Message::Request {
        id: RequestId::Number(1),
        method: String::from("textDocument/documentSymbol"),
        params: Params::Unreadable,
    });
    assert_eq!(step.replies, vec![failure(1, SessionError::MalformedMessage)]);
    let step = drive(&mut server, &Message::Request {
        id: RequestId::Number(2),
        method: String::from("textDocument/formatting"),
        params: Params::Opened { uri: String::from("doc://x"), text: String::new() },
    });
    assert_eq!(
        step.replies,
        vec![status("👅 formatting"), failure(2, SessionError::MalformedMessage)]
    );
}

#[test]
fn requests_on_a_document_that_was_never_opened_fail() {
    let mut server = server();
    drive(&mut server, &opened("doc://other", "(let a 1)"));
    let step = drive(&mut server, &symbols_of(1, "doc://x"));
    assert_eq!(step.replies, vec![failure(1, SessionError::UnknownDocument)]);
    let step = drive(&mut server, &formatting_of(2, "doc://x"));
    assert_eq!(
        step.replies,
        vec![status("👅 formatting"), failure(2, SessionError::UnknownDocument)]
    );
}

#[test]
fn the_shutdown_request_ends_the_session() {
    let mut server = server();
    let step = drive(&mut server, &Message::Request {
        id: RequestId::Number(9),
        method: String::from("shutdown"),
        params: Params::Unreadable,
    });
    let Step { replies, shutdown } = step;
    assert!(shutdown);
    assert_eq!(replies, Vec::new());
}

#[test]
fn the_loop_stops_at_the_shutdown_request() {
    let mut server = server();
    let messages = vec![
        opened("doc://x", "(let a 1)"),
        Message::Request {
            id: RequestId::Number(1),
            method: String::from("shutdown"),
            params: Params::Unreadable,
        },
        opened("doc://y", "(let b 2)"),
        symbols_of(2, "doc://x"),
    ];
    let Run { replies, shutdown } = run_all(&mut server, &messages);
    assert!(shutdown);
    assert_eq!(
        replies,
        vec![vec![Outgoing::Diagnostics {
            uri: String::from("doc://x"),
            diagnostics: Vec::new()
        }]]
    );
    assert!(matches!(server.get("doc://y"), Err(SessionError::UnknownDocument)));
}

#[test]
fn the_loop_handles_every_message_where_none_ends_the_session() {
    let mut server = server();
    let run = run_all(&mut server, &[]);
    assert_eq!(run.replies, Vec::<Vec<Outgoing>>::new());
    assert!(!run.shutdown);
    let messages = vec![
        opened("doc://x", "(let a 1)"),
        Message::Response { id: RequestId::Number(3) },
        request(4, "textDocument/hover", "doc://x"),
        closed("doc://x"),
    ];
    let run = run_all(&mut server, &messages);
    assert!(!run.shutdown);
    assert_eq!(
        run.replies,
        vec![
            vec![Outgoing::Diagnostics { uri: String::from("doc://x"), diagnostics: Vec::new() }],
            vec![],
            vec![failure(4, SessionError::UnsupportedMethod)],
            vec![],
        ]
    );
}

#[test]
fn every_request_is_answered_once_and_nothing_else_is() {
    let mut server = server();
    let messages = vec![
        opened("doc://x", "(let a 1)"),
        symbols_of(1, "doc://x"),
        formatting_of(2, "doc://x"),
        symbols_of(3, "doc://none"),
        formatting_of(4, "doc://none"),
        request(5, "textDocument/definition", "doc://x"),
        changed("doc://x", &["(let a"]),
        symbols_of(6, "doc://x"),
        formatting_of(7, "doc://x"),
        Message::Response { id: RequestId::Number(8) },
        closed("doc://x"),
        symbols_of(9, "doc://x"),
    ];
    let run = run_all(&mut server, &messages);
    assert_eq!(run.replies.len(), messages.len());
    for (message, replies) in messages.iter().zip(run.replies.iter()) {
        let answers: Vec<&RequestId> = replies
            .iter()
            .filter_map(|reply| match reply {
                Outgoing::Symbols { id, .. } => Some(id),
                Outgoing::Edits { id, .. } => Some(id),
                Outgoing::Failure { id, .. } => Some(id),
                _ => None,
            })
            .collect();
        match message {
            Message::Request { id, .. } => assert_eq!(answers, vec![id]),
            _ => assert_eq!(answers, Vec::<&RequestId>::new()),
        }
    }
}

#[test]
fn every_stored_text_is_published_once() {
    let mut server = server();
    let messages = vec![
        opened("doc://x", "(let a 1)"),
        opened("doc://y", "(let b"),
        changed("doc://x", &["(let a 2)"]),
        changed("doc://y", &["(let b 2)", "(let"]),
        opened("doc://x", ""),
    ];
    let run = run_all(&mut server, &messages);
    let published: Vec<(&str, usize)> = run
        .replies
        .iter()
        .map(|replies| {
            assert_eq!(replies.len(), 1);
            match &replies[0] {
                Outgoing::Diagnostics { uri, diagnostics } => (uri.as_str(), diagnostics.len()),
                other => panic!("no diagnostics: {:?}", other),
            }
        })
        .collect();
    assert_eq!(
        published,
        vec![("doc://x", 0), ("doc://y", 1), ("doc://x", 0), ("doc://y", 0), ("doc://x", 0)]
    );
}

#[test]
fn symbols_follow_the_text_and_formatting_replaces_it() {
    let mut server = server();
    let step = drive(&mut server, &opened("doc://x", "(let a 1)(let b 2)"));
    assert_eq!(
        step.replies,
        vec![Outgoing::Diagnostics { uri: String::from("doc://x"), diagnostics: Vec::new() }]
    );
    let step = drive(&mut server, &symbols_of(1, "doc://x"));
    assert_eq!(step.replies.len(), 1);
    assert_eq!(names(&step.replies[0]), vec!["a", "b"]);
    match &step.replies[0] {
        Outgoing::Symbols { id, uri, .. } => {
            assert_eq!(id, &RequestId::Number(1));
            assert_eq!(uri, "doc://x");
        }
        other => panic!("no list of symbols: {:?}", other),
    }

    drive(&mut server, &changed("doc://x", &["(let c 3)"]));
    let step = drive(&mut server, &symbols_of(2, "doc://x"));
    assert_eq!(step.replies.len(), 1);
    assert_eq!(names(&step.replies[0]), vec!["c"]);

    let step = drive(&mut server, &formatting_of(3, "doc://x"));
    assert_eq!(
        step.replies,
        vec![
            status("👅 formatting"),
            status("👅 formatted"),
            Outgoing::Edits {
                id: RequestId::Number(3),
                edits: vec![TextEdit {
                    range: whole_document(),
                    new_text: String::from("(let c 3)\n"),
                }],
            },
        ]
    );
}

#[test]
fn a_text_that_does_not_parse_is_reported_and_has_no_symbols() {
    let mut server = server();
    let text = "(let a (";
    let step = drive(&mut server, &opened("doc://bad", text));
    assert_eq!(step.replies.len(), 1);
    match &step.replies[0] {
        Outgoing::Diagnostics { uri, diagnostics } => {
            assert_eq!(uri, "doc://bad");
            assert!(diagnostics.len() >= 1);
            for diagnostic in diagnostics {
                assert_eq!(diagnostic.range.start.line, 0);
                assert_eq!(diagnostic.range.end.line, 0);
                assert!(diagnostic.range.start.character as usize <= text.len());
                assert!(diagnostic.range.end.character as usize <= text.len());
            }
        }
        other => panic!("no diagnostics: {:?}", other),
    }
    let step = drive(&mut server, &symbols_of(1, "doc://bad"));
    assert_eq!(step.replies, vec![failure(1, SessionError::ParseFailure)]);
    let step = drive(&mut server, &formatting_of(2, "doc://bad"));
    assert_eq!(
        step.replies,
        vec![status("👅 formatting"), failure(2, SessionError::ParseFailure)]
    );
}

#[test]
fn a_function_is_told_from_a_variable() {
    let mut server = server();
    drive(&mut server, &opened(
        "doc://x",
        "(let a 1)\n(let b 2)\n(let zonk (Func [a b] (+ a b)))\n",
    ));
    let step = drive(&mut server, &symbols_of(1, "doc://x"));
    match &step.replies[0] {
        Outgoing::Symbols { symbols, .. } => {
            let listed: Vec<(&str, SymbolKind)> =
                symbols.iter().map(|s| (s.name.as_str(), s.kind)).collect();
            assert_eq!(
                listed,
                vec![
                    ("a", SymbolKind::Variable),
                    ("b", SymbolKind::Variable),
                    ("zonk", SymbolKind::Function),
                ]
            );
        }
        other => panic!("no list of symbols: {:?}", other),
    }
}

#[test]
fn the_status_notifications_carry_the_status_word() {
    assert_eq!(status_notification(PublishServerStatus::Started), status("👅 started"));
    assert_eq!(status_notification(PublishServerStatus::Formatting), status("👅 formatting"));
    assert_eq!(status_notification(PublishServerStatus::Formatted), status("👅 formatted"));
}

#[test]
fn the_session_says_what_the_engine_has_to_do() {
    let mut server = server();
    store(&mut server, "doc://x.data.tan", "(let a 1)");
    store(&mut server, "doc://bad", "(let a 1");
    assert!(matches!(
        server.work_for(&opened("doc://y", "(let b 2)")),
        Work::Parse { text: "(let b 2)" }
    ));
    assert!(matches!(
        server.work_for(&changed("doc://y", &["(let c 3)", "(let d 4)"])),
        Work::Parse { text: "(let c 3)" }
    ));
    assert!(matches!(server.work_for(&changed("doc://y", &[])), Work::Nothing));
    assert!(matches!(server.work_for(&closed("doc://x.data.tan")), Work::Nothing));
    assert!(matches!(
        server.work_for(&formatting_of(1, "doc://x.data.tan")),
        Work::Format { text: "(let a 1)", dialect: Dialect::Data }
    ));
    assert!(matches!(
        server.work_for(&formatting_of(1, "doc://bad")),
        Work::Format { text: "(let a 1", dialect: Dialect::Code }
    ));
    assert!(matches!(server.work_for(&formatting_of(1, "doc://none")), Work::Nothing));
    match server.work_for(&symbols_of(2, "doc://x.data.tan")) {
        Work::Scan { forms } => assert_eq!(forms, &parse_string_all("(let a 1)").unwrap()),
        other => panic!("no scan: {:?}", other),
    }
    assert!(matches!(server.work_for(&symbols_of(2, "doc://bad")), Work::Nothing));
    assert!(matches!(server.work_for(&symbols_of(2, "doc://none")), Work::Nothing));
    assert!(matches!(server.work_for(&request(3, "shutdown", "doc://x.data.tan")), Work::Nothing));
    assert!(matches!(server.work_for(&Message::Response { id: RequestId::Number(1) }), Work::Nothing));
}

#[test]
fn a_request_is_answered_also_where_the_engine_fails() {
    let mut server = server();
    store(&mut server, "doc://x", "(let a 1)");
    let step = server.handle_message(&symbols_of(1, "doc://x"), Outcome::Nothing);
    assert_eq!(step.replies, vec![failure(1, SessionError::EngineFailure)]);
    let step = server.handle_message(&formatting_of(2, "doc://x"), Outcome::Nothing);
    assert_eq!(
        step.replies,
        vec![status("👅 formatting"), failure(2, SessionError::EngineFailure)]
    );
    let step = server.handle_message(
        &symbols_of(3, "doc://x"),
        Outcome::Formatted(Some(String::from("(let a 1)\n"))),
    );
    assert_eq!(step.replies, vec![failure(3, SessionError::EngineFailure)]);
    let step = server.handle_message(&symbols_of(4, "doc://none"), Outcome::Nothing);
    assert_eq!(step.replies, vec![failure(4, SessionError::UnknownDocument)]);
    let step = server.handle_message(&symbols_of(5, "doc://x"), Outcome::Scanned(None));
    assert_eq!(step.replies, vec![failure(5, SessionError::ParseFailure)]);
    let step = server.handle_message(&formatting_of(6, "doc://x"), Outcome::Formatted(None));
    assert_eq!(
        step.replies,
        vec![status("👅 formatting"), failure(6, SessionError::ParseFailure)]
    );
}

#[test]
fn a_text_without_its_analysis_is_not_stored() {
    let mut server = server();
    store(&mut server, "doc://x", "(let a 1)");
    let step = server.handle_message(&changed("doc://x", &["(let b 2)"]), Outcome::Nothing);
    assert_eq!(step.replies, Vec::new());
    assert_eq!(server.get("doc://x").unwrap().text(), "(let a 1)");
    let step = server.handle_message(&opened("doc://y", "(let b 2)"), Outcome::Scanned(None));
    assert_eq!(step.replies, Vec::new());
    assert!(matches!(server.get("doc://y"), Err(SessionError::UnknownDocument)));
}

#[test]
fn the_loop_takes_each_message_with_what_the_engine_made_of_it() {
    let mut server = server();
    let events = vec![
        Event {
            message: opened("doc://x", "(let   c    3)"),
            outcome: parsed("(let   c    3)"),
        },
        Event {
            message: formatting_of(1, "doc://x"),
            outcome: Outcome::Formatted(formatted("(let   c    3)", Dialect::Code)),
        },
        Event { message: closed("doc://x"), outcome: Outcome::Nothing },
        Event { message: formatting_of(2, "doc://x"), outcome: Outcome::Nothing },
        Event { message: request(3, "shutdown", "doc://x"), outcome: Outcome::Nothing },
        Event {
            message: opened("doc://y", "(let a 1)"),
            outcome: parsed("(let a 1)"),
        },
    ];
    let run = server.run_loop(events);
    assert!(run.shutdown);
    assert_eq!(
        run.replies,
        vec![
            vec![Outgoing::Diagnostics { uri: String::from("doc://x"), diagnostics: Vec::new() }],
            vec![
                status("👅 formatting"),
                status("👅 formatted"),
                Outgoing::Edits {
                    id: RequestId::Number(1),
                    edits: vec![TextEdit {
                        range: whole_document(),
                        new_text: String::from("(let c 3)\n"),
                    }],
                },
            ],
            vec![],
            vec![status("👅 formatting"), failure(2, SessionError::UnknownDocument)],
        ]
    );
    assert!(matches!(server.get("doc://y"), Err(SessionError::UnknownDocument)));
    let run = server.run_loop(Vec::new());
    assert!(!run.shutdown);
    assert_eq!(run.replies, Vec::<Vec<Outgoing>>::new());
}

#[test]
fn the_session_keeps_its_context() {
    let context = context();
    context.top_scope.insert("seven", Expr::Int(7));
    let mut server = Server::new(context);
    assert!(server.context().top_scope.contains_name("seven"));
    server.context_mut().top_scope.insert("eight", Expr::Int(8));
    store(&mut server, "doc://x", "(let a 1)");
    assert!(server.context().top_scope.contains_name("eight"));
    assert_eq!(server.get("doc://x").unwrap().text(), "(let a 1)");
}
