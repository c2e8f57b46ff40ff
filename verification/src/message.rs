//! The wire-message model: the three message shapes, their identifiers, and
//! the time-stamped envelope a recorded session is made of.
//!
//! Payloads and identifiers are held as plain values (JSON text, numbers,
//! strings) so the correlation logic over them can be specified exactly.

use vstd::prelude::*;

verus! {

/// Mathematical value of a request identifier: peer-assigned, either numeric
/// or string-valued.
pub enum IdView {
    Num(int),
    Str(Seq<char>),
}

/// A request identifier as it appears on the wire.
#[derive(Clone, Debug, PartialEq, Eq)]
pub enum ProtocolId {
    Number(i32),
    Text(String),
}

impl View for ProtocolId {
    type V = IdView;

    open spec fn view(&self) -> IdView {
        match self {
            ProtocolId::Number(n) => IdView::Num(*n as int),
            ProtocolId::Text(s) => IdView::Str(s@),
        }
    }
}

impl ProtocolId {
    pub fn duplicate(&self) -> (r: Self)
        ensures
            r == *self,
    {
        match self {
            ProtocolId::Number(n) => ProtocolId::Number(*n),
            ProtocolId::Text(s) => ProtocolId::Text(s.clone()),
        }
    }

    /// Identifier equality, decided over the mathematical values.
    pub fn eq_id(&self, other: &ProtocolId) -> (r: bool)
        ensures
            r == (self@ == other@),
    {
        match (self, other) {
            (ProtocolId::Number(a), ProtocolId::Number(b)) => *a == *b,
            (ProtocolId::Text(a), ProtocolId::Text(b)) => *a == *b,
            _ => false,
        }
    }
}

pub struct RequestView {
    pub id: IdView,
    pub method: Seq<char>,
    pub params: Seq<char>,
}

/// A request: expects exactly one response while outstanding. `params` holds
/// the payload as JSON text and is treated as opaque except where correlation
/// needs to read a token out of it.
#[derive(Clone)]
pub struct Request {
    pub id: ProtocolId,
    pub method: String,
    pub params: String,
}

impl View for Request {
    type V = RequestView;

    open spec fn view(&self) -> RequestView {
        RequestView { id: self.id@, method: self.method@, params: self.params@ }
    }
}

impl Request {
    pub fn new(id: ProtocolId, method: String, params: String) -> (r: Request)
        ensures
            r == (Request { id, method, params }),
    {
        Request { id, method, params }
    }

    pub fn duplicate(&self) -> (r: Self)
        ensures
            r == *self,
    {
        Request { id: self.id.duplicate(), method: self.method.clone(), params: self.params.clone() }
    }
}

pub struct ResponseErrorView {
    pub code: int,
    pub message: Seq<char>,
    pub data: Option<Seq<char>>,
}

/// The error outcome a response can carry.
#[derive(Clone)]
pub struct ResponseError {
    pub code: i32,
    pub message: String,
    pub data: Option<String>,
}

impl View for ResponseError {
    type V = ResponseErrorView;

    open spec fn view(&self) -> ResponseErrorView {
        ResponseErrorView {
            code: self.code as int,
            message: self.message@,
            data: match &self.data {
                Some(d) => Some(d@),
                None => None,
            },
        }
    }
}

pub struct ResponseView {
    pub id: IdView,
    pub result: Option<Seq<char>>,
    pub error: Option<ResponseErrorView>,
}

/// A response: carries the id of the request it answers and either a result
/// payload (JSON text) or an error.
#[derive(Clone)]
pub struct Response {
    pub id: ProtocolId,
    pub result: Option<String>,
    pub error: Option<ResponseError>,
}

impl View for Response {
    type V = ResponseView;

    open spec fn view(&self) -> ResponseView {
        ResponseView {
            id: self.id@,
            result: match &self.result {
                Some(r) => Some(r@),
                None => None,
            },
            error: match &self.error {
                Some(e) => Some(e@),
                None => None,
            },
        }
    }
}

impl Response {
    /// The flat column values a response is persisted as: the error flag,
    /// error code, error message and error payload, and the result payload.
    /// An error outcome takes precedence; a response with neither outcome
    /// is stored as a success without a result.
    pub fn storage_fields(self) -> (r: (bool, Option<i32>, Option<String>, Option<String>, Option<
        String,
    >))
        ensures
            self.error is Some ==> r == (
                true,
                Some(self.error->Some_0.code),
                Some(self.error->Some_0.message),
                self.error->Some_0.data,
                None::<String>,
            ),
            self.error is None && self.result is Some ==> r == (
                false,
                None::<i32>,
                None::<String>,
                None::<String>,
                Some(self.result->Some_0),
            ),
            self.error is None && self.result is None ==> r == (
                false,
                None::<i32>,
                None::<String>,
                None::<String>,
                None::<String>,
            ),
    {
        if let Some(err) = self.error {
            (true, Some(err.code), Some(err.message), err.data, None)
        } else if let Some(res) = self.result {
            (false, None, None, None, Some(res))
        } else {
            (false, None, None, None, None)
        }
    }

    pub fn new_ok(id: ProtocolId, result: String) -> (r: Response)
        ensures
            r == (Response { id, result: Some(result), error: None }),
    {
        Response { id, result: Some(result), error: None }
    }

    pub fn new_err(id: ProtocolId, code: i32, message: String) -> (r: Response)
        ensures
            r == (Response { id, result: None, error: Some(ResponseError { code, message, data: None }) }),
    {
        Response { id, result: None, error: Some(ResponseError { code, message, data: None }) }
    }
}

pub struct NotificationView {
    pub method: Seq<char>,
    pub params: Seq<char>,
}

/// A notification: fire-and-forget, no id.
#[derive(Clone)]
pub struct Notification {
    pub method: String,
    pub params: String,
}

impl View for Notification {
    type V = NotificationView;

    open spec fn view(&self) -> NotificationView {
        NotificationView { method: self.method@, params: self.params@ }
    }
}

impl Notification {
    pub fn new(method: String, params: String) -> (r: Notification)
        ensures
            r == (Notification { method, params }),
    {
        Notification { method, params }
    }
}

pub enum MessageView {
    Request(RequestView),
    Response(ResponseView),
    Notification(NotificationView),
}

/// One unit of protocol traffic.
#[derive(Clone)]
pub enum Message {
    Request(Request),
    Response(Response),
    Notification(Notification),
}

impl View for Message {
    type V = MessageView;

    open spec fn view(&self) -> MessageView {
        match self {
            Message::Request(r) => MessageView::Request(r@),
            Message::Response(r) => MessageView::Response(r@),
            Message::Notification(n) => MessageView::Notification(n@),
        }
    }
}

pub struct TimedMessageView {
    pub time_stamp: int,
    pub message: MessageView,
}

/// A message together with the instant it was recorded, in nanoseconds since
/// the Unix epoch. Immutable once created.
#[derive(Clone)]
pub struct MessageWithTimeStamp {
    pub time_stamp: i128,
    pub message: Message,
}

impl View for MessageWithTimeStamp {
    type V = TimedMessageView;

    open spec fn view(&self) -> TimedMessageView {
        TimedMessageView { time_stamp: self.time_stamp as int, message: self.message@ }
    }
}

/// The views of a recorded sequence, element by element.
pub open spec fn views_of_messages(s: Seq<MessageWithTimeStamp>) -> Seq<TimedMessageView> {
    s.map_values(|m: MessageWithTimeStamp| m@)
}

} // verus!
