use lsp_analyzer::classify::{classify, classify_request, get_request_source, get_source};
use lsp_analyzer::conversation::Conversation;
use lsp_analyzer::kind::{MessageKind, MessageSource};
use lsp_analyzer::message::{Message, MessageWithTimeStamp, Notification, ProtocolId, Request, Response};
use lsp_analyzer::tables::{category_of_method, is_progress_capable, origin_of_method};

fn request(id: i32, method: &str, params: &str, ts: i128) -> MessageWithTimeStamp {
    MessageWithTimeStamp {
        time_stamp: ts,
        message: Message::Request(Request {
            id: ProtocolId::Number(id),
            method: method.to_string(),
            params: params.to_string(),
        }),
    }
}

fn response_ok(id: i32, result: &str, ts: i128) -> MessageWithTimeStamp {
    MessageWithTimeStamp {
        time_stamp: ts,
        message: Message::Response(Response::new_ok(ProtocolId::Number(id), result.to_string())),
    }
}

fn notification(method: &str, params: &str, ts: i128) -> MessageWithTimeStamp {
    MessageWithTimeStamp {
        time_stamp: ts,
        message: Message::Notification(Notification {
            method: method.to_string(),
            params: params.to_string(),
        }),
    }
}

#[test]
fn static_tables_give_specified_values() {
    assert_eq!(category_of_method("initialize"), Some(MessageKind::Lifecycle));
    assert_eq!(origin_of_method("initialize"), Some(MessageSource::Client));
    assert_eq!(category_of_method("textDocument/hover"), Some(MessageKind::Hover));
    assert_eq!(origin_of_method("textDocument/hover"), Some(MessageSource::Client));
    assert_eq!(category_of_method("workspace/applyEdit"), Some(MessageKind::Workspace));
    assert_eq!(origin_of_method("workspace/applyEdit"), Some(MessageSource::Server));
    assert_eq!(category_of_method("telemetry/event"), Some(MessageKind::Telemetry));
    assert_eq!(origin_of_method("telemetry/event"), Some(MessageSource::Server));
    assert_eq!(category_of_method("textDocument/didOpen"), Some(MessageKind::TextDocumentSynchronization));
    assert_eq!(category_of_method("no/such/method"), None);
    assert_eq!(origin_of_method("no/such/method"), None);
}

#[test]
fn progress_capability_is_the_fixed_subset() {
    assert!(is_progress_capable("textDocument/completion"));
    assert!(is_progress_capable("initialize"));
    assert!(!is_progress_capable("completionItem/resolve"));
    assert!(!is_progress_capable("exit"));
}

#[test]
fn response_round_trip() {
    let messages = vec![
        request(1, "textDocument/hover", "{}", 10),
        response_ok(1, "{\"contents\":[]}", 20),
    ];
    let conversation = Conversation::from(messages);
    let response = conversation.messages()[1].message.clone();
    assert_eq!(classify(&response, &conversation), Some(MessageKind::Hover));
    assert_eq!(get_source(&response, &conversation), Some(MessageSource::Server));
}

#[test]
fn cancel_correlation_is_not_inverted() {
    let messages = vec![
        request(7, "textDocument/references", "{}", 10),
        notification("$/cancelRequest", "{\"id\":7}", 20),
    ];
    let conversation = Conversation::from(messages);
    let req = conversation.messages()[0].message.clone();
    let cancel = conversation.messages()[1].message.clone();
    assert_eq!(classify(&cancel, &conversation), Some(MessageKind::References));
    assert_eq!(get_source(&cancel, &conversation), get_source(&req, &conversation));
    assert_eq!(get_source(&cancel, &conversation), Some(MessageSource::Client));
}

#[test]
fn cancel_with_string_id_correlates() {
    let messages = vec![
        MessageWithTimeStamp {
            time_stamp: 1,
            message: Message::Request(Request {
                id: ProtocolId::Text("abc".to_string()),
                method: "textDocument/definition".to_string(),
                params: "{}".to_string(),
            }),
        },
        notification("$/cancelRequest", "{\"id\":\"abc\"}", 2),
    ];
    let conversation = Conversation::from(messages);
    let cancel = conversation.messages()[1].message.clone();
    assert_eq!(classify(&cancel, &conversation), Some(MessageKind::Definition));
}

#[test]
fn progress_correlation_inverts_origin() {
    let messages = vec![
        request(2, "textDocument/completion", "{\"workDoneToken\":\"tok-A\"}", 10),
        notification("$/progress", "{\"token\":\"tok-A\",\"value\":{\"kind\":\"report\"}}", 20),
    ];
    let conversation = Conversation::from(messages);
    let progress = conversation.messages()[1].message.clone();
    assert_eq!(classify(&progress, &conversation), Some(MessageKind::Completion));
    assert_eq!(get_source(&progress, &conversation), Some(MessageSource::Server));
}

#[test]
fn progress_token_of_non_capable_request_is_not_registered() {
    let messages = vec![
        request(3, "completionItem/resolve", "{\"workDoneToken\":\"tok-B\"}", 10),
        notification("$/progress", "{\"token\":\"tok-B\",\"value\":{\"kind\":\"report\"}}", 20),
    ];
    let conversation = Conversation::from(messages);
    let progress = conversation.messages()[1].message.clone();
    assert_eq!(classify(&progress, &conversation), None);
    assert_eq!(get_source(&progress, &conversation), None);
}

#[test]
fn unmatched_response_degrades_to_none() {
    let messages = vec![response_ok(42, "null", 5)];
    let conversation = Conversation::from(messages);
    let response = conversation.messages()[0].message.clone();
    assert_eq!(classify(&response, &conversation), None);
    assert_eq!(get_source(&response, &conversation), None);
}

#[test]
fn malformed_cancel_and_progress_payloads_degrade_to_none() {
    let messages = vec![
        request(1, "textDocument/hover", "{}", 1),
        notification("$/cancelRequest", "not json", 2),
        notification("$/progress", "{\"no_token\":true}", 3),
    ];
    let conversation = Conversation::from(messages);
    let cancel = conversation.messages()[1].message.clone();
    let progress = conversation.messages()[2].message.clone();
    assert_eq!(classify(&cancel, &conversation), None);
    assert_eq!(get_source(&cancel, &conversation), None);
    assert_eq!(classify(&progress, &conversation), None);
    assert_eq!(get_source(&progress, &conversation), None);
}

#[test]
fn plain_notifications_use_their_own_method() {
    let messages = vec![
        notification("initialized", "{}", 1),
        notification("window/showMessage", "{}", 2),
        notification("something/unknown", "{}", 3),
    ];
    let conversation = Conversation::from(messages);
    let initialized = conversation.messages()[0].message.clone();
    let show = conversation.messages()[1].message.clone();
    let unknown = conversation.messages()[2].message.clone();
    assert_eq!(classify(&initialized, &conversation), Some(MessageKind::Lifecycle));
    assert_eq!(get_source(&initialized, &conversation), Some(MessageSource::Client));
    assert_eq!(classify(&show, &conversation), Some(MessageKind::Workspace));
    assert_eq!(classify(&unknown, &conversation), None);
    assert_eq!(get_source(&unknown, &conversation), None);
}

#[test]
fn classification_is_idempotent() {
    let messages = vec![
        request(1, "textDocument/hover", "{}", 10),
        response_ok(1, "null", 20),
    ];
    let conversation = Conversation::from(messages);
    let response = conversation.messages()[1].message.clone();
    let first = classify(&response, &conversation);
    let second = classify(&response, &conversation);
    assert_eq!(first, second);
    let first_source = get_source(&response, &conversation);
    let second_source = get_source(&response, &conversation);
    assert_eq!(first_source, second_source);
}

#[test]
fn classification_is_unaffected_by_tie_order() {
    let tied_one = request(1, "textDocument/hover", "{}", 10);
    let tied_two = request(2, "textDocument/completion", "{\"workDoneToken\":\"t\"}", 10);
    let response = response_ok(1, "null", 20);
    let progress = notification("$/progress", "{\"token\":\"t\",\"value\":{\"kind\":\"report\"}}", 30);

    let order_a = Conversation::from(vec![
        tied_one.clone(),
        tied_two.clone(),
        response.clone(),
        progress.clone(),
    ]);
    let order_b = Conversation::from(vec![
        tied_two.clone(),
        tied_one.clone(),
        response.clone(),
        progress.clone(),
    ]);

    for msg in [&tied_one, &tied_two, &response, &progress] {
        assert_eq!(classify(&msg.message, &order_a), classify(&msg.message, &order_b));
        assert_eq!(get_source(&msg.message, &order_a), get_source(&msg.message, &order_b));
    }
}

#[test]
fn duplicate_request_id_lets_the_later_request_win() {
    let messages = vec![
        request(9, "textDocument/hover", "{}", 1),
        request(9, "textDocument/references", "{}", 2),
        response_ok(9, "null", 3),
    ];
    let conversation = Conversation::from(messages);
    let response = conversation.messages()[2].message.clone();
    assert_eq!(classify(&response, &conversation), Some(MessageKind::References));
}

#[test]
fn request_helpers_read_the_tables_directly() {
    let req = Request {
        id: ProtocolId::Number(1),
        method: "textDocument/rename".to_string(),
        params: "{}".to_string(),
    };
    assert_eq!(classify_request(&req), Some(MessageKind::Rename));
    assert_eq!(get_request_source(&req), Some(MessageSource::Client));
}

#[test]
fn requests_accessor_resolves_response_methods() {
    let messages = vec![request(4, "textDocument/formatting", "{}", 1), response_ok(4, "null", 2)];
    let conversation = Conversation::from(messages);
    let found = conversation.requests().get(&ProtocolId::Number(4));
    assert!(found.is_some());
    assert_eq!(found.unwrap().method, "textDocument/formatting");
    assert!(conversation.requests().get(&ProtocolId::Number(5)).is_none());
}
