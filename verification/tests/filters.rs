use lsp_analyzer::classify::classify;
use lsp_analyzer::conversation::Conversation;
use lsp_analyzer::filter::{GetSessionParams, KindSet, kinds_present};
use lsp_analyzer::kind::{MessageKind, MessageSource};
use lsp_analyzer::message::{Message, MessageWithTimeStamp, Notification, ProtocolId, Request};

fn empty_params(session_id: i64) -> GetSessionParams {
    GetSessionParams {
        session_id,
        life_cycle: None,
        document_synchronization: None,
        notebook_synchronization: None,
        workspace_synchronization: None,
        workspace: None,
        telemetry: None,
        declaration: None,
        definition: None,
        type_definition: None,
        implementation: None,
        references: None,
        call_hierarchy: None,
        type_hierarchy: None,
        document_highlight: None,
        document_link: None,
        hover: None,
        code_lens: None,
        folding_range: None,
        selection: None,
        symbol: None,
        semantic_tokens: None,
        inlay_hint: None,
        inline_value: None,
        moniker: None,
        completion: None,
        diagnostic: None,
        signature_help: None,
        code_action: None,
        document_color: None,
        formatting: None,
        rename: None,
        linked_editing_range: None,
        execute_command: None,
        uncategorized: None,
    }
}

#[test]
fn no_checkboxes_allows_every_category() {
    let allow = empty_params(1).build_message_classification_allow_list();
    for kind in MessageKind::all() {
        assert!(allow.contains(Some(kind)));
    }
    assert!(allow.contains(None));
}

#[test]
fn checked_boxes_allow_exactly_those_categories() {
    let mut params = empty_params(1);
    params.hover = Some(true);
    params.uncategorized = Some(true);
    params.telemetry = Some(false);
    let allow = params.build_message_classification_allow_list();
    assert!(allow.contains(Some(MessageKind::Hover)));
    assert!(allow.contains(None));
    assert!(!allow.contains(Some(MessageKind::Telemetry)));
    assert!(!allow.contains(Some(MessageKind::Lifecycle)));
    assert!(!allow.contains(Some(MessageKind::Completion)));
}

#[test]
fn kind_set_insert_and_contains() {
    let mut set = KindSet::empty();
    assert!(!set.contains(Some(MessageKind::Rename)));
    assert!(!set.contains(None));
    set.insert(Some(MessageKind::Rename));
    set.insert(None);
    assert!(set.contains(Some(MessageKind::Rename)));
    assert!(set.contains(None));
    assert!(!set.contains(Some(MessageKind::Hover)));
}

#[test]
fn kinds_present_reflects_classifications() {
    let messages = vec![
        MessageWithTimeStamp {
            time_stamp: 1,
            message: Message::Request(Request {
                id: ProtocolId::Number(1),
                method: "textDocument/hover".to_string(),
                params: "{}".to_string(),
            }),
        },
        MessageWithTimeStamp {
            time_stamp: 2,
            message: Message::Notification(Notification {
                method: "unknown/method".to_string(),
                params: "{}".to_string(),
            }),
        },
    ];
    let conversation = Conversation::from(messages);
    let present = kinds_present(&conversation);
    assert!(present.contains(Some(MessageKind::Hover)));
    assert!(present.contains(None));
    assert!(!present.contains(Some(MessageKind::Rename)));
    for message in conversation.messages() {
        assert!(present.contains(classify(&message.message, &conversation)));
    }
}

#[test]
fn all_lists_every_category_once() {
    let all = MessageKind::all();
    assert_eq!(all.len(), 33);
    for (i, a) in all.iter().enumerate() {
        for (j, b) in all.iter().enumerate() {
            if i != j {
                assert!(a != b);
            }
        }
    }
}

#[test]
fn kind_names_round_trip_through_the_query_keys() {
    for kind in MessageKind::all() {
        let key = kind.as_str().replace(" ", "_");
        assert_eq!(MessageKind::try_parse_str(&key), Some(kind));
    }
    assert_eq!(MessageKind::try_parse_str("hover"), Some(MessageKind::Hover));
    assert_eq!(MessageKind::try_parse_str("life_cycle"), Some(MessageKind::Lifecycle));
    assert_eq!(MessageKind::try_parse_str("life cycle"), None);
    assert_eq!(MessageKind::try_parse_str("bogus"), None);
}

#[test]
fn kind_display_names() {
    assert_eq!(MessageKind::Lifecycle.as_str(), "life cycle");
    assert_eq!(MessageKind::TextDocumentSynchronization.as_str(), "document synchronization");
    assert_eq!(MessageKind::ExecuteCommand.as_str(), "execute command");
}

#[test]
fn message_source_other_swaps_and_is_involutive() {
    assert_eq!(MessageSource::Client.other(), MessageSource::Server);
    assert_eq!(MessageSource::Server.other(), MessageSource::Client);
    assert_eq!(MessageSource::Client.other().other(), MessageSource::Client);
}
