//! The correlation index: built once from a complete, time-ordered message
//! sequence, read-only afterwards.
//!
//! The index holds two mappings, identifier to request and progress token to
//! request, both populated in a single pass. When a key is seen twice the
//! later entry wins, matching the documented last-write-wins handling of
//! duplicate request ids.

use vstd::prelude::*;

use crate::message::{
    IdView, Message, MessageView, MessageWithTimeStamp, ProtocolId, Request, RequestView,
    TimedMessageView, views_of_messages,
};
use crate::payload::{parse_work_done_token, work_done_token_of};
use crate::tables::{is_progress_capable, spec_progress_capable};

verus! {

/// The mapping an entry list denotes: entries are folded left to right, so a
/// later entry with the same key overwrites an earlier one.
pub open spec fn entries_map(s: Seq<(ProtocolId, Request)>) -> Map<IdView, RequestView>
    decreases s.len(),
{
    if s.len() == 0 {
        Map::empty()
    } else {
        entries_map(s.drop_last()).insert(s.last().0@, s.last().1@)
    }
}

/// A mapping from identifiers to requests, held as the list of insertions
/// and abstracted as a `Map`.
pub struct RequestMap {
    entries: Vec<(ProtocolId, Request)>,
}

impl View for RequestMap {
    type V = Map<IdView, RequestView>;

    closed spec fn view(&self) -> Map<IdView, RequestView> {
        entries_map(self.entries@)
    }
}

/// Entries at positions `i` and above never mention key `k`, so the denoted
/// mapping at `k` is already settled by the first `i` entries.
proof fn lemma_entries_map_settled(s: Seq<(ProtocolId, Request)>, k: IdView, i: int)
    requires
        0 <= i <= s.len(),
        forall|j: int| i <= j < s.len() ==> #[trigger] s[j].0@ != k,
    ensures
        entries_map(s).contains_key(k) == entries_map(s.take(i)).contains_key(k),
        entries_map(s).contains_key(k) ==> entries_map(s)[k] == entries_map(s.take(i))[k],
    decreases s.len() - i,
{
    if i == s.len() {
        assert(s.take(i) =~= s);
    } else {
        lemma_entries_map_settled(s, k, i + 1);
        assert(s.take(i + 1).drop_last() =~= s.take(i));
        assert(s.take(i + 1).last() == s[i]);
    }
}

impl RequestMap {
    pub fn new() -> (r: RequestMap)
        ensures
            r@ == Map::<IdView, RequestView>::empty(),
    {
        RequestMap { entries: Vec::new() }
    }

    pub fn insert(&mut self, id: ProtocolId, req: Request)
        ensures
            final(self)@ == old(self)@.insert(id@, req@),
    {
        proof {
            let s = self.entries@;
            assert(s.push((id, req)).drop_last() =~= s);
        }
        self.entries.push((id, req));
    }

    /// Looks an identifier up; the latest insertion under that identifier
    /// wins.
    pub fn get(&self, id: &ProtocolId) -> (r: Option<&Request>)
        ensures
            match r {
                Some(req) => self@.contains_key(id@) && req@ == self@[id@],
                None => !self@.contains_key(id@),
            },
    {
        let ghost s = self.entries@;
        let mut i = self.entries.len();
        while i > 0
            invariant
                i <= self.entries.len(),
                s == self.entries@,
                forall|j: int| i <= j < s.len() ==> #[trigger] s[j].0@ != id@,
            decreases i,
        {
            i = i - 1;
            if self.entries[i].0.eq_id(id) {
                proof {
                    lemma_entries_map_settled(s, id@, i + 1);
                    assert(s.take(i + 1).drop_last() =~= s.take(i as int));
                    assert(s.take(i + 1).last() == s[i as int]);
                }
                return Some(&self.entries[i].1);
            }
        }
        proof {
            lemma_entries_map_settled(s, id@, 0);
            assert(s.take(0) =~= Seq::<(ProtocolId, Request)>::empty());
        }
        None
    }
}

/// The identifier-to-request mapping a message sequence induces: every
/// request is recorded under its id, later requests overwriting earlier ones
/// with the same id.
pub open spec fn spec_requests_of(s: Seq<TimedMessageView>) -> Map<IdView, RequestView>
    decreases s.len(),
{
    if s.len() == 0 {
        Map::empty()
    } else {
        let m = spec_requests_of(s.drop_last());
        match s.last().message {
            MessageView::Request(r) => m.insert(r.id, r),
            _ => m,
        }
    }
}

/// The token-to-request mapping a message sequence induces: a request of a
/// progress-capable method whose payload declares a work-done token is
/// recorded under that token.
pub open spec fn spec_progress_tokens_of(s: Seq<TimedMessageView>) -> Map<IdView, RequestView>
    decreases s.len(),
{
    if s.len() == 0 {
        Map::empty()
    } else {
        let m = spec_progress_tokens_of(s.drop_last());
        match s.last().message {
            MessageView::Request(r) => if spec_progress_capable(r.method) {
                match work_done_token_of(r.params) {
                    Some(t) => m.insert(t, r),
                    None => m,
                }
            } else {
                m
            },
            _ => m,
        }
    }
}

pub struct ConversationView {
    pub messages: Seq<TimedMessageView>,
    pub requests: Map<IdView, RequestView>,
    pub progress_tokens: Map<IdView, RequestView>,
}

/// The index a message sequence induces: the sequence itself and the two
/// mappings derived from it.
pub open spec fn index_view_of(s: Seq<TimedMessageView>) -> ConversationView {
    ConversationView {
        messages: s,
        requests: spec_requests_of(s),
        progress_tokens: spec_progress_tokens_of(s),
    }
}

/// The in-memory correlation index for one session: the recorded messages
/// together with the two derived mappings. Built once, never mutated.
pub struct Conversation {
    messages: Vec<MessageWithTimeStamp>,
    requests: RequestMap,
    progress_tokens: RequestMap,
}

impl View for Conversation {
    type V = ConversationView;

    closed spec fn view(&self) -> ConversationView {
        ConversationView {
            messages: views_of_messages(self.messages@),
            requests: self.requests@,
            progress_tokens: self.progress_tokens@,
        }
    }
}

impl Conversation {
    /// Builds the index from a complete session snapshot in one linear pass.
    /// The input must already be sorted by the caller; nothing here re-sorts
    /// or deduplicates.
    pub fn from(value: Vec<MessageWithTimeStamp>) -> (r: Conversation)
        ensures
            r@ == index_view_of(views_of_messages(value@)),
            r@.messages == views_of_messages(value@),
            r@.requests == spec_requests_of(views_of_messages(value@)),
            r@.progress_tokens == spec_progress_tokens_of(views_of_messages(value@)),
    {
        let ghost vs = views_of_messages(value@);
        let mut requests = RequestMap::new();
        let mut progress_tokens = RequestMap::new();

        let mut i: usize = 0;
        while i < value.len()
            invariant
                i <= value.len(),
                vs == views_of_messages(value@),
                vs.len() == value@.len(),
                requests@ == spec_requests_of(vs.take(i as int)),
                progress_tokens@ == spec_progress_tokens_of(vs.take(i as int)),
            decreases value.len() - i,
        {
            proof {
                assert(vs.take(i + 1).drop_last() =~= vs.take(i as int));
                assert(vs.take(i + 1).last() == vs[i as int]);
                assert(vs[i as int] == value@[i as int]@);
            }
            match &value[i].message {
                Message::Request(request) => {
                    requests.insert(request.id.duplicate(), request.duplicate());

                    if is_progress_capable(request.method.as_str()) {
                        if let Some(token) = parse_work_done_token(request.params.as_str()) {
                            progress_tokens.insert(token, request.duplicate());
                        }
                    }
                }
                Message::Response(_) => {}
                Message::Notification(_) => {}
            }
            i = i + 1;
        }

        proof {
            assert(vs.take(value@.len() as int) =~= vs);
        }
        let conversation = Conversation { messages: value, requests, progress_tokens };
        proof {
            assert(conversation@ =~= index_view_of(vs));
        }
        conversation
    }

    /// The recorded messages, in their original order.
    pub fn messages(&self) -> (r: &Vec<MessageWithTimeStamp>)
        ensures
            views_of_messages(r@) == self@.messages,
    {
        &self.messages
    }

    /// The identifier-to-request mapping, for resolving which request a
    /// response answers.
    pub fn requests(&self) -> (r: &RequestMap)
        ensures
            r@ == self@.requests,
    {
        &self.requests
    }

    /// The token-to-request mapping, for resolving which request a progress
    /// notification reports on.
    pub fn progress_tokens(&self) -> (r: &RequestMap)
        ensures
            r@ == self@.progress_tokens,
    {
        &self.progress_tokens
    }
}

} // verus!
