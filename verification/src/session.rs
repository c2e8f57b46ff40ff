//! Assembly of one session's stored records into a time-ordered
//! conversation: the storage collaborator hands over the rows it loaded,
//! and everything from row to ordered message sequence is computed here.

use vstd::multiset::Multiset;
use vstd::prelude::*;

use crate::conversation::{Conversation, spec_progress_tokens_of, spec_requests_of};
use crate::message::{
    IdView, Message, MessageView, MessageWithTimeStamp, Notification, NotificationView,
    ProtocolId, Request, RequestView, Response, ResponseErrorView, ResponseView,
    TimedMessageView, views_of_messages,
};

verus! {

/// A stored request row: the table's own row id, the wire identifier as
/// text, method, payload text, and the recorded instant.
pub struct RequestRecord {
    pub id: i64,
    pub request_id: String,
    pub method: String,
    pub params: String,
    pub time_stamp: i128,
}

pub struct RequestRecordView {
    pub id: int,
    pub request_id: Seq<char>,
    pub method: Seq<char>,
    pub params: Seq<char>,
    pub time_stamp: int,
}

impl View for RequestRecord {
    type V = RequestRecordView;

    open spec fn view(&self) -> RequestRecordView {
        RequestRecordView {
            id: self.id as int,
            request_id: self.request_id@,
            method: self.method@,
            params: self.params@,
            time_stamp: self.time_stamp as int,
        }
    }
}

/// A stored response row. The row is tied to its request row by `id`; the
/// error columns are meaningful only when `is_error` is set.
pub struct ResponseRecord {
    pub id: i64,
    pub is_error: bool,
    pub result: Option<String>,
    pub error_code: Option<i32>,
    pub error_message: Option<String>,
    pub time_stamp: i128,
}

pub struct ResponseRecordView {
    pub id: int,
    pub is_error: bool,
    pub result: Option<Seq<char>>,
    pub error_code: Option<int>,
    pub error_message: Option<Seq<char>>,
    pub time_stamp: int,
}

impl View for ResponseRecord {
    type V = ResponseRecordView;

    open spec fn view(&self) -> ResponseRecordView {
        ResponseRecordView {
            id: self.id as int,
            is_error: self.is_error,
            result: match &self.result {
                Some(s) => Some(s@),
                None => None,
            },
            error_code: match self.error_code {
                Some(c) => Some(c as int),
                None => None,
            },
            error_message: match &self.error_message {
                Some(s) => Some(s@),
                None => None,
            },
            time_stamp: self.time_stamp as int,
        }
    }
}

/// A stored notification row.
pub struct NotificationRecord {
    pub method: String,
    pub params: String,
    pub time_stamp: i128,
}

pub struct NotificationRecordView {
    pub method: Seq<char>,
    pub params: Seq<char>,
    pub time_stamp: int,
}

impl View for NotificationRecord {
    type V = NotificationRecordView;

    open spec fn view(&self) -> NotificationRecordView {
        NotificationRecordView {
            method: self.method@,
            params: self.params@,
            time_stamp: self.time_stamp as int,
        }
    }
}

pub open spec fn views_of_requests(s: Seq<RequestRecord>) -> Seq<RequestRecordView> {
    s.map_values(|r: RequestRecord| r@)
}

pub open spec fn views_of_responses(s: Seq<ResponseRecord>) -> Seq<ResponseRecordView> {
    s.map_values(|r: ResponseRecord| r@)
}

pub open spec fn views_of_notifications(s: Seq<NotificationRecord>) -> Seq<NotificationRecordView> {
    s.map_values(|r: NotificationRecord| r@)
}

/// The first request row with the given row id.
pub open spec fn spec_find_request(s: Seq<RequestRecordView>, id: int) -> Option<RequestRecordView>
    decreases s.len(),
{
    if s.len() == 0 {
        None
    } else if s.first().id == id {
        Some(s.first())
    } else {
        spec_find_request(s.drop_first(), id)
    }
}

/// The message a request row denotes. The wire identifier was persisted as
/// text, so it comes back as a string-valued id.
pub open spec fn spec_request_message(r: RequestRecordView) -> TimedMessageView {
    TimedMessageView {
        time_stamp: r.time_stamp,
        message: MessageView::Request(
            RequestView { id: IdView::Str(r.request_id), method: r.method, params: r.params },
        ),
    }
}

/// The message a response row denotes, given its request row: an error
/// response keeps its code and message (a missing message becomes empty,
/// the error payload is not persisted); a success keeps its result payload
/// (a missing one becomes the null payload).
pub open spec fn spec_response_message(r: ResponseRecordView, req: RequestRecordView)
    -> TimedMessageView {
    TimedMessageView {
        time_stamp: r.time_stamp,
        message: MessageView::Response(
            ResponseView {
                id: IdView::Str(req.request_id),
                result: if r.is_error {
                    None
                } else {
                    Some(
                        match r.result {
                            Some(s) => s,
                            None => "null"@,
                        },
                    )
                },
                error: if r.is_error {
                    Some(
                        ResponseErrorView {
                            code: match r.error_code {
                                Some(c) => c,
                                None => 0,
                            },
                            message: match r.error_message {
                                Some(m) => m,
                                None => Seq::empty(),
                            },
                            data: None,
                        },
                    )
                } else {
                    None
                },
            },
        ),
    }
}

/// The message a notification row denotes.
pub open spec fn spec_notification_message(r: NotificationRecordView) -> TimedMessageView {
    TimedMessageView {
        time_stamp: r.time_stamp,
        message: MessageView::Notification(
            NotificationView { method: r.method, params: r.params },
        ),
    }
}

/// Every response row refers to a request row that is present, and an
/// error response carries its code.
pub open spec fn spec_responses_resolvable(
    responses: Seq<ResponseRecordView>,
    requests: Seq<RequestRecordView>,
) -> bool {
    forall|i: int|
        0 <= i < responses.len() ==> (#[trigger] spec_find_request(requests, responses[i].id)
            is Some && (responses[i].is_error ==> responses[i].error_code is Some))
}

/// The messages a list of response rows denotes, each resolved through
/// its request row.
pub open spec fn spec_response_messages(
    responses: Seq<ResponseRecordView>,
    requests: Seq<RequestRecordView>,
) -> Seq<TimedMessageView> {
    responses.map_values(
        |r: ResponseRecordView| spec_response_message(r, spec_find_request(requests, r.id)->Some_0),
    )
}

pub open spec fn spec_request_messages(requests: Seq<RequestRecordView>) -> Seq<TimedMessageView> {
    requests.map_values(|r: RequestRecordView| spec_request_message(r))
}

pub open spec fn spec_notification_messages(notifications: Seq<NotificationRecordView>) -> Seq<
    TimedMessageView,
> {
    notifications.map_values(|r: NotificationRecordView| spec_notification_message(r))
}

/// The messages the three record lists denote, responses first, then
/// requests, then notifications, before sorting.
pub open spec fn spec_assembled_messages(
    requests: Seq<RequestRecordView>,
    responses: Seq<ResponseRecordView>,
    notifications: Seq<NotificationRecordView>,
) -> Seq<TimedMessageView> {
    spec_response_messages(responses, requests) + spec_request_messages(requests)
        + spec_notification_messages(notifications)
}

/// Ascending by time stamp.
pub open spec fn spec_sorted_by_time(s: Seq<TimedMessageView>) -> bool {
    forall|i: int, j: int| 0 <= i <= j < s.len() ==> #[trigger] s[i].time_stamp <= #[trigger] s[j].time_stamp
}

fn find_request_record<'a>(requests: &'a Vec<RequestRecord>, id: i64) -> (r: Option<
    &'a RequestRecord,
>)
    ensures
        match r {
            Some(req) => spec_find_request(views_of_requests(requests@), id as int) == Some(req@),
            None => spec_find_request(views_of_requests(requests@), id as int) is None,
        },
{
    let ghost vs = views_of_requests(requests@);
    proof {
        assert(vs.skip(0) =~= vs);
    }
    let mut i: usize = 0;
    while i < requests.len()
        invariant
            i <= requests.len(),
            vs == views_of_requests(requests@),
            vs.len() == requests@.len(),
            spec_find_request(vs, id as int) == spec_find_request(vs.skip(i as int), id as int),
        decreases requests.len() - i,
    {
        proof {
            assert(vs.skip(i as int).first() == vs[i as int]);
            assert(vs.skip(i as int).drop_first() =~= vs.skip(i + 1));
            assert(vs[i as int] == requests@[i as int]@);
        }
        if requests[i].id == id {
            return Some(&requests[i]);
        }
        i = i + 1;
    }
    proof {
        assert(vs.skip(requests@.len() as int) =~= Seq::<RequestRecordView>::empty());
    }
    None
}

/// Sorting a sequence of recorded messages keeps the collection of views.
proof fn lemma_views_multiset(a: Seq<MessageWithTimeStamp>, b: Seq<MessageWithTimeStamp>)
    requires
        a.to_multiset() == b.to_multiset(),
    ensures
        views_of_messages(a).to_multiset() == views_of_messages(b).to_multiset(),
    decreases a.len(),
{
    a.to_multiset_ensures();
    b.to_multiset_ensures();
    if a.len() == 0 {
        assert(b.len() == 0);
        assert(views_of_messages(a) =~= views_of_messages(b));
    } else {
        let x = a.last();
        assert(a.contains(x));
        vstd::seq_lib::to_multiset_contains(a, x);
        vstd::seq_lib::to_multiset_contains(b, x);
        assert(b.contains(x));
        let j = choose|j: int| 0 <= j < b.len() && b[j] == x;

        let a1 = a.drop_last();
        let b1 = b.remove(j);
        assert(a =~= a1.push(x));
        a1.to_multiset_ensures();
        assert(a.to_multiset() == a1.to_multiset().insert(x));
        assert(b1.to_multiset() == b.to_multiset().remove(x));
        assert(a1.to_multiset() =~= b1.to_multiset()) by {
            assert(a1.to_multiset() == a.to_multiset().remove(x));
        }
        lemma_views_multiset(a1, b1);

        let va = views_of_messages(a);
        let vb = views_of_messages(b);
        let va1 = views_of_messages(a1);
        let vb1 = views_of_messages(b1);
        va1.to_multiset_ensures();
        vb.to_multiset_ensures();
        assert(va =~= va1.push(x@));
        assert(va.to_multiset() == va1.to_multiset().insert(x@));
        assert(vb1 =~= vb.remove(j));
        assert(vb.remove(j).to_multiset() == vb.to_multiset().remove(vb[j]));
        assert(vb[j] == x@);
        assert(va.to_multiset() =~= vb.to_multiset());
    }
}

/// Sorts recorded messages ascending by time stamp; the collection of
/// messages is unchanged. The relative order of messages with equal time
/// stamps is not part of the contract and must not be relied upon.
pub fn sort_by_time_stamp(v: Vec<MessageWithTimeStamp>) -> (r: Vec<MessageWithTimeStamp>)
    ensures
        views_of_messages(r@).to_multiset() == views_of_messages(v@).to_multiset(),
        spec_sorted_by_time(views_of_messages(r@)),
{
    let ghost orig = v@;
    let mut rest = v;
    let mut out: Vec<MessageWithTimeStamp> = Vec::new();
    proof {
        broadcast use vstd::multiset::group_multiset_axioms;

        assert(out@ =~= Seq::<MessageWithTimeStamp>::empty());
        assert(out@.to_multiset() =~= Multiset::<MessageWithTimeStamp>::empty()) by {
            assert forall|a: MessageWithTimeStamp| out@.to_multiset().count(a) == 0 by {
                vstd::seq_lib::to_multiset_contains(out@, a);
            }
        }
        assert(out@.to_multiset().add(rest@.to_multiset()) =~= orig.to_multiset());
    }
    while rest.len() > 0
        invariant
            out@.to_multiset().add(rest@.to_multiset()) == orig.to_multiset(),
            forall|i: int, j: int|
                0 <= i <= j < out@.len() ==> #[trigger] out@[i].time_stamp
                    <= #[trigger] out@[j].time_stamp,
        decreases rest.len(),
    {
        let ghost pre = rest@;
        let x = rest.pop().unwrap();
        proof {
            pre.drop_last().to_multiset_ensures();
            assert(pre =~= pre.drop_last().push(x));
            assert(pre.to_multiset() == rest@.to_multiset().insert(x));
        }

        let mut p: usize = 0;
        while p < out.len() && out[p].time_stamp < x.time_stamp
            invariant
                p <= out@.len(),
                forall|k: int| 0 <= k < p ==> #[trigger] out@[k].time_stamp < x.time_stamp,
            decreases out.len() - p,
        {
            p = p + 1;
        }

        let ghost before = out@;
        proof {
            assert(p == before.len() || before[p as int].time_stamp >= x.time_stamp);
        }
        out.insert(p, x);
        proof {
            broadcast use vstd::multiset::group_multiset_axioms;

            before.insert_ensures(p as int, x);
            vstd::seq_lib::to_multiset_insert(before, p as int, x);
            assert(out@.to_multiset().add(rest@.to_multiset()) =~= orig.to_multiset());
            assert forall|i: int, j: int| 0 <= i <= j < out@.len() implies #[trigger] out@[
                i
            ].time_stamp <= #[trigger] out@[j].time_stamp by {
                if j < p {
                } else if i < p && j == p {
                } else if i == p && j == p {
                } else if i <= p && j > p {
                    assert(out@[j] == before[j - 1]);
                    assert(before[p as int].time_stamp >= x.time_stamp || p == before.len());
                } else {
                }
            }
        }
    }
    proof {
        broadcast use vstd::multiset::group_multiset_axioms;

        rest@.to_multiset_ensures();
        assert(rest@ =~= Seq::<MessageWithTimeStamp>::empty());
        assert(rest@.to_multiset() =~= Multiset::<MessageWithTimeStamp>::empty()) by {
            assert forall|a: MessageWithTimeStamp| rest@.to_multiset().count(a) == 0 by {
                vstd::seq_lib::to_multiset_contains(rest@, a);
            }
        }
        assert(out@.to_multiset() =~= orig.to_multiset());
        lemma_views_multiset(out@, orig);
        assert forall|i: int, j: int|
            0 <= i <= j < views_of_messages(out@).len() implies #[trigger] views_of_messages(out@)[
            i
        ].time_stamp <= #[trigger] views_of_messages(out@)[j].time_stamp by {
            assert(views_of_messages(out@)[i].time_stamp == out@[i].time_stamp as int);
            assert(views_of_messages(out@)[j].time_stamp == out@[j].time_stamp as int);
        }
    }
    out
}

/// Builds the conversation for one session from its stored rows: each row
/// becomes its message (responses resolve their wire identifier through
/// their request row), the messages are sorted ascending by time stamp,
/// and the correlation index is built over the result.
pub fn assemble_conversation(
    requests: Vec<RequestRecord>,
    responses: Vec<ResponseRecord>,
    notifications: Vec<NotificationRecord>,
) -> (r: Conversation)
    requires
        spec_responses_resolvable(views_of_responses(responses@), views_of_requests(requests@)),
    ensures
        r@.messages.to_multiset() == spec_assembled_messages(
            views_of_requests(requests@),
            views_of_responses(responses@),
            views_of_notifications(notifications@),
        ).to_multiset(),
        spec_sorted_by_time(r@.messages),
        r@.requests == spec_requests_of(r@.messages),
        r@.progress_tokens == spec_progress_tokens_of(r@.messages),
{
    let ghost req_views = views_of_requests(requests@);
    let ghost resp_views = views_of_responses(responses@);
    let ghost not_views = views_of_notifications(notifications@);

    let mut all_messages: Vec<MessageWithTimeStamp> = Vec::new();

    let mut i: usize = 0;
    while i < responses.len()
        invariant
            i <= responses.len(),
            resp_views == views_of_responses(responses@),
            req_views == views_of_requests(requests@),
            resp_views.len() == responses@.len(),
            spec_responses_resolvable(resp_views, req_views),
            all_messages@.len() == i,
            forall|n: int|
                0 <= n < i ==> #[trigger] all_messages@[n]@ == spec_response_message(
                    resp_views[n],
                    spec_find_request(req_views, resp_views[n].id)->Some_0,
                ),
        decreases responses.len() - i,
    {
        proof {
            assert(resp_views[i as int] == responses@[i as int]@);
        }
        let record = &responses[i];
        let matching = find_request_record(&requests, record.id);
        let request = match matching {
            Some(request) => request,
            None => {
                proof {
                    assert(spec_find_request(req_views, resp_views[i as int].id) is Some);
                }
                unreached()
            }
        };
        let id = ProtocolId::Text(request.request_id.clone());
        let message = if record.is_error {
            let code = match record.error_code {
                Some(code) => code,
                None => {
                    proof {
                        assert(resp_views[i as int].error_code is Some);
                    }
                    unreached()
                }
            };
            let error_message = match &record.error_message {
                Some(m) => m.clone(),
                None => String::new(),
            };
            Response::new_err(id, code, error_message)
        } else {
            let result = match &record.result {
                Some(s) => s.clone(),
                None => {
                    let null_text: String = "null".to_owned();
                    null_text
                }
            };
            Response::new_ok(id, result)
        };
        let entry = MessageWithTimeStamp {
            time_stamp: record.time_stamp,
            message: Message::Response(message),
        };
        proof {
            assert(entry@ == spec_response_message(
                resp_views[i as int],
                spec_find_request(req_views, resp_views[i as int].id)->Some_0,
            ));
        }
        all_messages.push(entry);
        i = i + 1;
    }

    let ghost response_count = resp_views.len();
    let mut j: usize = 0;
    while j < requests.len()
        invariant
            j <= requests.len(),
            req_views == views_of_requests(requests@),
            req_views.len() == requests@.len(),
            all_messages@.len() == response_count + j,
            forall|n: int|
                0 <= n < response_count ==> #[trigger] all_messages@[n]@ == spec_response_message(
                    resp_views[n],
                    spec_find_request(req_views, resp_views[n].id)->Some_0,
                ),
            forall|n: int|
                response_count <= n < response_count + j ==> #[trigger] all_messages@[n]@
                    == spec_request_message(req_views[n - response_count]),
        decreases requests.len() - j,
    {
        proof {
            assert(req_views[j as int] == requests@[j as int]@);
        }
        let record = &requests[j];
        let entry = MessageWithTimeStamp {
            time_stamp: record.time_stamp,
            message: Message::Request(
                Request {
                    id: ProtocolId::Text(record.request_id.clone()),
                    method: record.method.clone(),
                    params: record.params.clone(),
                },
            ),
        };
        proof {
            assert(entry@ == spec_request_message(req_views[j as int]));
        }
        all_messages.push(entry);
        j = j + 1;
    }

    let ghost request_count = req_views.len();
    let mut k: usize = 0;
    while k < notifications.len()
        invariant
            k <= notifications.len(),
            not_views == views_of_notifications(notifications@),
            not_views.len() == notifications@.len(),
            all_messages@.len() == response_count + request_count + k,
            forall|n: int|
                0 <= n < response_count ==> #[trigger] all_messages@[n]@ == spec_response_message(
                    resp_views[n],
                    spec_find_request(req_views, resp_views[n].id)->Some_0,
                ),
            forall|n: int|
                response_count <= n < response_count + request_count ==> #[trigger] all_messages@[
                    n
                ]@ == spec_request_message(req_views[n - response_count]),
            forall|n: int|
                response_count + request_count <= n < response_count + request_count + k
                    ==> #[trigger] all_messages@[n]@ == spec_notification_message(
                    not_views[n - response_count - request_count],
                ),
        decreases notifications.len() - k,
    {
        proof {
            assert(not_views[k as int] == notifications@[k as int]@);
        }
        let record = &notifications[k];
        let entry = MessageWithTimeStamp {
            time_stamp: record.time_stamp,
            message: Message::Notification(
                Notification { method: record.method.clone(), params: record.params.clone() },
            ),
        };
        proof {
            assert(entry@ == spec_notification_message(not_views[k as int]));
        }
        all_messages.push(entry);
        k = k + 1;
    }

    proof {
        let assembled = spec_assembled_messages(req_views, resp_views, not_views);
        let responses_part = spec_response_messages(resp_views, req_views);
        let requests_part = spec_request_messages(req_views);
        let notifications_part = spec_notification_messages(not_views);
        assert(assembled.len() == all_messages@.len());
        assert forall|n: int|
            0 <= n < all_messages@.len() implies views_of_messages(all_messages@)[n] == assembled[
            n
        ] by {
            assert(views_of_messages(all_messages@)[n] == all_messages@[n]@);
            if n < response_count {
                assert(assembled[n] == responses_part[n]);
                assert(responses_part[n] == spec_response_message(
                    resp_views[n],
                    spec_find_request(req_views, resp_views[n].id)->Some_0,
                ));
            } else if n < response_count + request_count {
                assert(assembled[n] == requests_part[n - response_count]);
                assert(requests_part[n - response_count] == spec_request_message(
                    req_views[n - response_count],
                ));
            } else {
                assert(assembled[n] == notifications_part[n - response_count - request_count]);
                assert(notifications_part[n - response_count - request_count]
                    == spec_notification_message(not_views[n - response_count - request_count]));
            }
        }
        assert(views_of_messages(all_messages@) =~= spec_assembled_messages(
            req_views,
            resp_views,
            not_views,
        ));
    }

    let sorted = sort_by_time_stamp(all_messages);
    Conversation::from(sorted)
}

} // verus!
