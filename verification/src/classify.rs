//! The classifier and the origin resolver: pure annotators over one message
//! and the session's correlation index.
//!
//! Both consult the static tables directly for requests and for plain
//! notifications, and resolve responses, cancellations and progress
//! notifications through the index. Every failure mode — unparseable
//! payload, unknown method, dangling id or token — degrades to `None`.

use vstd::prelude::*;

use crate::conversation::{Conversation, ConversationView};
use crate::kind::{MessageKind, MessageSource};
use crate::message::{Message, MessageView, Request};
use crate::payload::{cancel_id_of, parse_cancel_id, parse_progress_token, progress_token_of};
use crate::tables::{
    category_of_method, origin_of_method, spec_category_of_method, spec_origin_of_method,
};
use crate::text::str_eq;

verus! {

/// The category of one message, given the index of the session it belongs
/// to. A response takes the category of the request it answers; a
/// cancellation that of the request it targets; a progress notification
/// that of the request that declared its token; a correlation that cannot
/// be resolved yields `None`.
pub open spec fn spec_classify(m: MessageView, c: ConversationView) -> Option<MessageKind> {
    match m {
        MessageView::Request(r) => spec_category_of_method(r.method),
        MessageView::Response(r) => if c.requests.contains_key(r.id) {
            spec_category_of_method(c.requests[r.id].method)
        } else {
            None
        },
        MessageView::Notification(n) => if n.method == "$/cancelRequest"@ {
            match cancel_id_of(n.params) {
                Some(id) => if c.requests.contains_key(id) {
                    spec_category_of_method(c.requests[id].method)
                } else {
                    None
                },
                None => None,
            }
        } else if n.method == "$/progress"@ {
            match progress_token_of(n.params) {
                Some(t) => if c.progress_tokens.contains_key(t) {
                    spec_category_of_method(c.progress_tokens[t].method)
                } else {
                    None
                },
                None => None,
            }
        } else {
            spec_category_of_method(n.method)
        },
    }
}

/// The originating peer of one message, given the index. A response comes
/// from the opposite peer of the request it answers; so does a progress
/// notification, since work-done progress flows back to the requester. A
/// cancellation is not inverted: it comes from the same peer that could
/// have sent the request it targets.
pub open spec fn spec_get_source(m: MessageView, c: ConversationView) -> Option<MessageSource> {
    match m {
        MessageView::Request(r) => spec_origin_of_method(r.method),
        MessageView::Response(r) => if c.requests.contains_key(r.id) {
            match spec_origin_of_method(c.requests[r.id].method) {
                Some(s) => Some(s.spec_other()),
                None => None,
            }
        } else {
            None
        },
        MessageView::Notification(n) => if n.method == "$/cancelRequest"@ {
            match cancel_id_of(n.params) {
                Some(id) => if c.requests.contains_key(id) {
                    spec_origin_of_method(c.requests[id].method)
                } else {
                    None
                },
                None => None,
            }
        } else if n.method == "$/progress"@ {
            match progress_token_of(n.params) {
                Some(t) => if c.progress_tokens.contains_key(t) {
                    match spec_origin_of_method(c.progress_tokens[t].method) {
                        Some(s) => Some(s.spec_other()),
                        None => None,
                    }
                } else {
                    None
                },
                None => None,
            }
        } else {
            spec_origin_of_method(n.method)
        },
    }
}

/// The category of a request, read directly from the static table.
pub fn classify_request(request: &Request) -> (r: Option<MessageKind>)
    ensures
        r == spec_category_of_method(request@.method),
{
    category_of_method(request.method.as_str())
}

/// The declared origin of a request, read directly from the static table.
pub fn get_request_source(request: &Request) -> (r: Option<MessageSource>)
    ensures
        r == spec_origin_of_method(request@.method),
{
    origin_of_method(request.method.as_str())
}

/// Classifies one message of a session. Pure and total: same message and
/// same index always give the same answer, and unresolvable input yields
/// `None` rather than an error.
pub fn classify(message: &Message, containing_conversation: &Conversation) -> (r: Option<
    MessageKind,
>)
    ensures
        r == spec_classify(message@, containing_conversation@),
{
    match message {
        Message::Request(request) => classify_request(request),
        Message::Response(response) => match containing_conversation.requests().get(&response.id) {
            Some(request) => classify_request(request),
            None => None,
        },
        Message::Notification(notification) => {
            if str_eq(notification.method.as_str(), "$/cancelRequest") {
                match parse_cancel_id(notification.params.as_str()) {
                    Some(request_id) => match containing_conversation.requests().get(&request_id) {
                        Some(request) => classify_request(request),
                        None => None,
                    },
                    None => None,
                }
            } else if str_eq(notification.method.as_str(), "$/progress") {
                match parse_progress_token(notification.params.as_str()) {
                    Some(token) => match containing_conversation.progress_tokens().get(&token) {
                        Some(request) => classify_request(request),
                        None => None,
                    },
                    None => None,
                }
            } else {
                category_of_method(notification.method.as_str())
            }
        }
    }
}

/// Resolves the originating peer of one message of a session. Pure and
/// total, with the same graceful degradation as `classify`.
pub fn get_source(message: &Message, containing_conversation: &Conversation) -> (r: Option<
    MessageSource,
>)
    ensures
        r == spec_get_source(message@, containing_conversation@),
{
    match message {
        Message::Request(request) => get_request_source(request),
        Message::Response(response) => match containing_conversation.requests().get(&response.id) {
            Some(request) => match get_request_source(request) {
                Some(source) => Some(source.other()),
                None => None,
            },
            None => None,
        },
        Message::Notification(notification) => {
            if str_eq(notification.method.as_str(), "$/cancelRequest") {
                match parse_cancel_id(notification.params.as_str()) {
                    Some(request_id) => match containing_conversation.requests().get(&request_id) {
                        Some(request) => get_request_source(request),
                        None => None,
                    },
                    None => None,
                }
            } else if str_eq(notification.method.as_str(), "$/progress") {
                match parse_progress_token(notification.params.as_str()) {
                    Some(token) => match containing_conversation.progress_tokens().get(&token) {
                        Some(request) => match get_request_source(request) {
                            Some(source) => Some(source.other()),
                            None => None,
                        },
                        None => None,
                    },
                    None => None,
                }
            } else {
                origin_of_method(notification.method.as_str())
            }
        }
    }
}

} // verus!
