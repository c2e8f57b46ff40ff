use lsp_analyzer::classify::classify;
use lsp_analyzer::kind::MessageKind;
use lsp_analyzer::message::{Message, MessageWithTimeStamp, Notification, ProtocolId, Request};
use lsp_analyzer::session::{
    NotificationRecord, RequestRecord, ResponseRecord, assemble_conversation, sort_by_time_stamp,
};

fn request_row(id: i64, request_id: &str, method: &str, params: &str, ts: i128) -> RequestRecord {
    RequestRecord {
        id,
        request_id: request_id.to_string(),
        method: method.to_string(),
        params: params.to_string(),
        time_stamp: ts,
    }
}

#[test]
fn assembly_merges_and_sorts_all_rows() {
    let requests = vec![
        request_row(100, "1", "textDocument/hover", "{}", 10),
        request_row(101, "2", "textDocument/completion", "{}", 30),
    ];
    let responses = vec![ResponseRecord {
        id: 100,
        is_error: false,
        result: Some("{\"contents\":[]}".to_string()),
        error_code: None,
        error_message: None,
        time_stamp: 20,
    }];
    let notifications = vec![NotificationRecord {
        method: "initialized".to_string(),
        params: "{}".to_string(),
        time_stamp: 5,
    }];

    let conversation = assemble_conversation(requests, responses, notifications);
    let messages = conversation.messages();
    assert_eq!(messages.len(), 4);
    let stamps: Vec<i128> = messages.iter().map(|m| m.time_stamp).collect();
    assert_eq!(stamps, vec![5, 10, 20, 30]);

    match &messages[2].message {
        Message::Response(resp) => {
            assert_eq!(resp.id, ProtocolId::Text("1".to_string()));
            assert_eq!(resp.result, Some("{\"contents\":[]}".to_string()));
            assert!(resp.error.is_none());
        }
        _ => panic!("expected the response at the third position"),
    }

    let response = messages[2].message.clone();
    assert_eq!(classify(&response, &conversation), Some(MessageKind::Hover));
}

#[test]
fn assembly_keeps_error_responses() {
    let requests = vec![request_row(7, "9", "textDocument/rename", "{}", 1)];
    let responses = vec![ResponseRecord {
        id: 7,
        is_error: true,
        result: None,
        error_code: Some(-32800),
        error_message: None,
        time_stamp: 2,
    }];
    let conversation = assemble_conversation(requests, responses, vec![]);
    match &conversation.messages()[1].message {
        Message::Response(resp) => {
            assert!(resp.result.is_none());
            let error = resp.error.as_ref().expect("an error outcome");
            assert_eq!(error.code, -32800);
            assert_eq!(error.message, "");
            assert!(error.data.is_none());
        }
        _ => panic!("expected a response"),
    }
}

#[test]
fn assembly_fills_a_missing_result_with_null() {
    let requests = vec![request_row(3, "5", "shutdown", "null", 1)];
    let responses = vec![ResponseRecord {
        id: 3,
        is_error: false,
        result: None,
        error_code: None,
        error_message: None,
        time_stamp: 2,
    }];
    let conversation = assemble_conversation(requests, responses, vec![]);
    match &conversation.messages()[1].message {
        Message::Response(resp) => {
            assert_eq!(resp.result, Some("null".to_string()));
        }
        _ => panic!("expected a response"),
    }
}

#[test]
fn sort_is_stable_for_equal_time_stamps() {
    let a = MessageWithTimeStamp {
        time_stamp: 10,
        message: Message::Notification(Notification {
            method: "first".to_string(),
            params: "{}".to_string(),
        }),
    };
    let b = MessageWithTimeStamp {
        time_stamp: 10,
        message: Message::Notification(Notification {
            method: "second".to_string(),
            params: "{}".to_string(),
        }),
    };
    let c = MessageWithTimeStamp {
        time_stamp: 1,
        message: Message::Notification(Notification {
            method: "third".to_string(),
            params: "{}".to_string(),
        }),
    };
    let sorted = sort_by_time_stamp(vec![a, b, c]);
    let methods: Vec<String> = sorted
        .iter()
        .map(|m| match &m.message {
            Message::Notification(n) => n.method.clone(),
            _ => unreachable!(),
        })
        .collect();
    assert_eq!(methods, vec!["third", "first", "second"]);
}

#[test]
fn duplicate_ids_resolve_to_the_last_indexed_request() {
    let messages = vec![
        MessageWithTimeStamp {
            time_stamp: 1,
            message: Message::Request(Request {
                id: ProtocolId::Number(1),
                method: "textDocument/hover".to_string(),
                params: "{}".to_string(),
            }),
        },
        MessageWithTimeStamp {
            time_stamp: 2,
            message: Message::Request(Request {
                id: ProtocolId::Number(1),
                method: "textDocument/definition".to_string(),
                params: "{}".to_string(),
            }),
        },
    ];
    let conversation = lsp_analyzer::conversation::Conversation::from(messages);
    let found = conversation.requests().get(&ProtocolId::Number(1)).expect("indexed request");
    assert_eq!(found.method, "textDocument/definition");
}
