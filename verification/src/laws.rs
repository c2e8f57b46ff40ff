//! Properties of the engine that hold beyond the individual contracts:
//! graceful degradation, the correlation rules for responses, cancellations
//! and progress, determinism, and independence of the index from the
//! relative order of equally-timed messages.

use vstd::prelude::*;

use crate::classify::{spec_classify, spec_get_source};
use crate::conversation::{ConversationView, index_view_of, spec_progress_tokens_of, spec_requests_of};
use crate::message::{IdView, MessageView, NotificationView, RequestView, ResponseView, TimedMessageView};
use crate::payload::{cancel_id_of, progress_token_of, work_done_token_of};
use crate::tables::{spec_category_of_method, spec_origin_of_method, spec_progress_capable};

verus! {

/// Whether a recorded message is a request carrying identifier `id`.
pub open spec fn request_id_entry(t: TimedMessageView, id: IdView) -> bool {
    match t.message {
        MessageView::Request(r) => r.id == id,
        _ => false,
    }
}

/// Whether a recorded message is a progress-capable request declaring
/// work-done token `tok`.
pub open spec fn token_entry(t: TimedMessageView, tok: IdView) -> bool {
    match t.message {
        MessageView::Request(r) => spec_progress_capable(r.method) && work_done_token_of(r.params)
            == Some(tok),
        _ => false,
    }
}

/// The request a recorded message carries.
pub open spec fn request_view_of(t: TimedMessageView) -> RequestView
    recommends
        t.message is Request,
{
    match t.message {
        MessageView::Request(r) => r,
        _ => arbitrary(),
    }
}

/// No two distinct positions carry requests with the same identifier.
pub open spec fn unique_request_ids(s: Seq<TimedMessageView>) -> bool {
    forall|i: int, j: int, id: IdView|
        0 <= i < s.len() && 0 <= j < s.len() && #[trigger] request_id_entry(s[i], id)
            && #[trigger] request_id_entry(s[j], id) ==> i == j
}

/// No two distinct positions carry requests declaring the same work-done
/// token.
pub open spec fn unique_progress_tokens(s: Seq<TimedMessageView>) -> bool {
    forall|i: int, j: int, tok: IdView|
        0 <= i < s.len() && 0 <= j < s.len() && #[trigger] token_entry(s[i], tok)
            && #[trigger] token_entry(s[j], tok) ==> i == j
}

proof fn lemma_contains_split<A>(s: Seq<A>, t: A)
    requires
        s.len() > 0,
    ensures
        s.contains(t) <==> (s.drop_last().contains(t) || t == s.last()),
{
    if s.contains(t) {
        let i = choose|i: int| 0 <= i < s.len() && s[i] == t;
        if i < s.len() - 1 {
            assert(s.drop_last()[i] == t);
        }
    }
    if s.drop_last().contains(t) {
        let i = choose|i: int| 0 <= i < s.drop_last().len() && s.drop_last()[i] == t;
        assert(s[i] == t);
    }
    if t == s.last() {
        assert(s[s.len() - 1] == t);
    }
}

proof fn lemma_unique_ids_drop_last(s: Seq<TimedMessageView>)
    requires
        s.len() > 0,
        unique_request_ids(s),
    ensures
        unique_request_ids(s.drop_last()),
{
    assert forall|i: int, j: int, id: IdView|
        0 <= i < s.drop_last().len() && 0 <= j < s.drop_last().len()
            && #[trigger] request_id_entry(s.drop_last()[i], id)
            && #[trigger] request_id_entry(s.drop_last()[j], id) implies i == j by {
        assert(s.drop_last()[i] == s[i]);
        assert(s.drop_last()[j] == s[j]);
    }
}

proof fn lemma_unique_tokens_drop_last(s: Seq<TimedMessageView>)
    requires
        s.len() > 0,
        unique_progress_tokens(s),
    ensures
        unique_progress_tokens(s.drop_last()),
{
    assert forall|i: int, j: int, tok: IdView|
        0 <= i < s.drop_last().len() && 0 <= j < s.drop_last().len()
            && #[trigger] token_entry(s.drop_last()[i], tok)
            && #[trigger] token_entry(s.drop_last()[j], tok) implies i == j by {
        assert(s.drop_last()[i] == s[i]);
        assert(s.drop_last()[j] == s[j]);
    }
}

/// An identifier is in the request index exactly when some recorded message
/// is a request carrying it.
proof fn lemma_requests_key(s: Seq<TimedMessageView>, id: IdView)
    ensures
        spec_requests_of(s).contains_key(id) <==> exists|t: TimedMessageView|
            #[trigger] s.contains(t) && request_id_entry(t, id),
    decreases s.len(),
{
    if s.len() == 0 {
    } else {
        lemma_requests_key(s.drop_last(), id);
        if spec_requests_of(s).contains_key(id) {
            match s.last().message {
                MessageView::Request(r) => {
                    if r.id == id {
                        lemma_contains_split(s, s.last());
                        assert(s.contains(s.last()) && request_id_entry(s.last(), id));
                    } else {
                        let t = choose|t: TimedMessageView|
                            #[trigger] s.drop_last().contains(t) && request_id_entry(t, id);
                        lemma_contains_split(s, t);
                    }
                }
                _ => {
                    let t = choose|t: TimedMessageView|
                        #[trigger] s.drop_last().contains(t) && request_id_entry(t, id);
                    lemma_contains_split(s, t);
                }
            }
        }
        if exists|t: TimedMessageView| #[trigger] s.contains(t) && request_id_entry(t, id) {
            let t = choose|t: TimedMessageView| #[trigger] s.contains(t) && request_id_entry(t, id);
            lemma_contains_split(s, t);
            if t == s.last() {
            } else {
                assert(s.drop_last().contains(t));
            }
        }
    }
}

/// Under unique request ids, the request index maps each identifier to the
/// one request that carries it, wherever that request stands.
proof fn lemma_requests_value(s: Seq<TimedMessageView>, t: TimedMessageView, id: IdView)
    requires
        unique_request_ids(s),
        s.contains(t),
        request_id_entry(t, id),
    ensures
        spec_requests_of(s).contains_key(id),
        spec_requests_of(s)[id] == request_view_of(t),
    decreases s.len(),
{
    lemma_contains_split(s, t);
    lemma_unique_ids_drop_last(s);
    match s.last().message {
        MessageView::Request(r) => {
            if t == s.last() {
            } else {
                lemma_requests_value(s.drop_last(), t, id);
                if r.id == id {
                    let i = choose|i: int|
                        0 <= i < s.drop_last().len() && s.drop_last()[i] == t;
                    assert(s[i] == t);
                    assert(request_id_entry(s[i], id));
                    assert(request_id_entry(s[s.len() - 1], id));
                }
            }
        }
        _ => {
            assert(t != s.last());
            lemma_requests_value(s.drop_last(), t, id);
        }
    }
}

/// A token is in the progress index exactly when some recorded message is a
/// progress-capable request declaring it.
proof fn lemma_tokens_key(s: Seq<TimedMessageView>, tok: IdView)
    ensures
        spec_progress_tokens_of(s).contains_key(tok) <==> exists|t: TimedMessageView|
            #[trigger] s.contains(t) && token_entry(t, tok),
    decreases s.len(),
{
    if s.len() == 0 {
    } else {
        lemma_tokens_key(s.drop_last(), tok);
        if spec_progress_tokens_of(s).contains_key(tok) {
            if token_entry(s.last(), tok) {
                lemma_contains_split(s, s.last());
            } else {
                let t = choose|t: TimedMessageView|
                    #[trigger] s.drop_last().contains(t) && token_entry(t, tok);
                lemma_contains_split(s, t);
            }
        }
        if exists|t: TimedMessageView| #[trigger] s.contains(t) && token_entry(t, tok) {
            let t = choose|t: TimedMessageView| #[trigger] s.contains(t) && token_entry(t, tok);
            lemma_contains_split(s, t);
            if t == s.last() {
            } else {
                assert(s.drop_last().contains(t));
            }
        }
    }
}

/// Under unique tokens, the progress index maps each token to the one
/// request that declared it.
proof fn lemma_tokens_value(s: Seq<TimedMessageView>, t: TimedMessageView, tok: IdView)
    requires
        unique_progress_tokens(s),
        s.contains(t),
        token_entry(t, tok),
    ensures
        spec_progress_tokens_of(s).contains_key(tok),
        spec_progress_tokens_of(s)[tok] == request_view_of(t),
    decreases s.len(),
{
    lemma_contains_split(s, t);
    lemma_unique_tokens_drop_last(s);
    if t == s.last() {
    } else {
        lemma_tokens_value(s.drop_last(), t, tok);
        if token_entry(s.last(), tok) {
            let i = choose|i: int| 0 <= i < s.drop_last().len() && s.drop_last()[i] == t;
            assert(s[i] == t);
            assert(token_entry(s[i], tok));
            assert(token_entry(s[s.len() - 1], tok));
        }
    }
}

/// The correlation index is a function of the multiset of recorded
/// messages: two orderings of the same session — in particular two ways of
/// breaking ties between equal time stamps — induce the same request index
/// and the same progress index, provided request ids and declared tokens
/// are unique, the one documented case where order matters.
pub proof fn lemma_index_order_independent(s1: Seq<TimedMessageView>, s2: Seq<TimedMessageView>)
    requires
        s1.to_multiset() == s2.to_multiset(),
        unique_request_ids(s1),
        unique_request_ids(s2),
        unique_progress_tokens(s1),
        unique_progress_tokens(s2),
    ensures
        spec_requests_of(s1) == spec_requests_of(s2),
        spec_progress_tokens_of(s1) == spec_progress_tokens_of(s2),
{
    assert forall|t: TimedMessageView| s1.contains(t) == s2.contains(t) by {
        vstd::seq_lib::to_multiset_contains(s1, t);
        vstd::seq_lib::to_multiset_contains(s2, t);
    }
    assert forall|id: IdView|
        spec_requests_of(s1).contains_key(id) == spec_requests_of(s2).contains_key(id) by {
        lemma_requests_key(s1, id);
        lemma_requests_key(s2, id);
        if spec_requests_of(s1).contains_key(id) {
            let t = choose|t: TimedMessageView| #[trigger] s1.contains(t) && request_id_entry(t, id);
            assert(s2.contains(t) && request_id_entry(t, id));
        }
        if spec_requests_of(s2).contains_key(id) {
            let t = choose|t: TimedMessageView| #[trigger] s2.contains(t) && request_id_entry(t, id);
            assert(s1.contains(t) && request_id_entry(t, id));
        }
    }
    assert forall|id: IdView| spec_requests_of(s1).contains_key(id) implies spec_requests_of(s1)[id]
        == spec_requests_of(s2)[id] by {
        lemma_requests_key(s1, id);
        let t = choose|t: TimedMessageView| #[trigger] s1.contains(t) && request_id_entry(t, id);
        lemma_requests_value(s1, t, id);
        lemma_requests_value(s2, t, id);
    }
    assert(spec_requests_of(s1) =~= spec_requests_of(s2));

    assert forall|tok: IdView|
        spec_progress_tokens_of(s1).contains_key(tok) == spec_progress_tokens_of(s2).contains_key(
            tok,
        ) by {
        lemma_tokens_key(s1, tok);
        lemma_tokens_key(s2, tok);
        if spec_progress_tokens_of(s1).contains_key(tok) {
            let t = choose|t: TimedMessageView| #[trigger] s1.contains(t) && token_entry(t, tok);
            assert(s2.contains(t) && token_entry(t, tok));
        }
        if spec_progress_tokens_of(s2).contains_key(tok) {
            let t = choose|t: TimedMessageView| #[trigger] s2.contains(t) && token_entry(t, tok);
            assert(s1.contains(t) && token_entry(t, tok));
        }
    }
    assert forall|tok: IdView| spec_progress_tokens_of(s1).contains_key(tok)
        implies spec_progress_tokens_of(s1)[tok] == spec_progress_tokens_of(s2)[tok] by {
        lemma_tokens_key(s1, tok);
        let t = choose|t: TimedMessageView| #[trigger] s1.contains(t) && token_entry(t, tok);
        lemma_tokens_value(s1, t, tok);
        lemma_tokens_value(s2, t, tok);
    }
    assert(spec_progress_tokens_of(s1) =~= spec_progress_tokens_of(s2));
}

/// Classification and origin of each individual message are unaffected by
/// the relative order of equally-timed messages in the recorded sequence:
/// any reordering of a session with unique request ids and unique declared
/// tokens classifies every message identically.
pub proof fn lemma_classification_order_independent(
    s1: Seq<TimedMessageView>,
    s2: Seq<TimedMessageView>,
    m: MessageView,
)
    requires
        s1.to_multiset() == s2.to_multiset(),
        unique_request_ids(s1),
        unique_request_ids(s2),
        unique_progress_tokens(s1),
        unique_progress_tokens(s2),
    ensures
        spec_classify(m, index_view_of(s1)) == spec_classify(m, index_view_of(s2)),
        spec_get_source(m, index_view_of(s1)) == spec_get_source(m, index_view_of(s2)),
{
    lemma_index_order_independent(s1, s2);
}

/// The two static tables are mutually consistent by construction: a method
/// name has a category exactly when it has a declared origin, and every
/// progress-capable method is present in both.
pub proof fn lemma_tables_mutually_consistent(m: Seq<char>)
    ensures
        spec_category_of_method(m) is Some <==> spec_origin_of_method(m) is Some,
        spec_progress_capable(m) ==> spec_category_of_method(m) is Some,
{
}

/// Graceful degradation: a response whose id has no matching request is
/// classified `None` and attributed to no peer, not treated as an error.
pub proof fn lemma_unmatched_response_degrades(r: ResponseView, c: ConversationView)
    requires
        !c.requests.contains_key(r.id),
    ensures
        spec_classify(MessageView::Response(r), c) is None,
        spec_get_source(MessageView::Response(r), c) is None,
{
}

/// A response takes the category of the request it answers and originates
/// from the opposite peer of that request's declared origin.
pub proof fn lemma_response_correlation(r: ResponseView, c: ConversationView)
    requires
        c.requests.contains_key(r.id),
    ensures
        spec_classify(MessageView::Response(r), c) == spec_category_of_method(
            c.requests[r.id].method,
        ),
        spec_get_source(MessageView::Response(r), c) == match spec_origin_of_method(
            c.requests[r.id].method,
        ) {
            Some(s) => Some(s.spec_other()),
            None => None,
        },
{
}

/// A cancellation takes the category of the request it targets, and its
/// origin is not inverted: it is attributed to the very peer the targeted
/// request is declared to come from, because cancellation is sent by the
/// requester itself.
pub proof fn lemma_cancel_correlation(n: NotificationView, c: ConversationView, id: IdView)
    requires
        n.method == "$/cancelRequest"@,
        cancel_id_of(n.params) == Some(id),
        c.requests.contains_key(id),
    ensures
        spec_classify(MessageView::Notification(n), c) == spec_category_of_method(
            c.requests[id].method,
        ),
        spec_get_source(MessageView::Notification(n), c) == spec_get_source(
            MessageView::Request(c.requests[id]),
            c,
        ),
{
}

/// A progress notification takes the category of the request that declared
/// its token, and originates from the opposite peer of that request's
/// declared origin, like a response.
pub proof fn lemma_progress_correlation(n: NotificationView, c: ConversationView, tok: IdView)
    requires
        n.method == "$/progress"@,
        progress_token_of(n.params) == Some(tok),
        c.progress_tokens.contains_key(tok),
    ensures
        spec_classify(MessageView::Notification(n), c) == spec_category_of_method(
            c.progress_tokens[tok].method,
        ),
        spec_get_source(MessageView::Notification(n), c) == match spec_origin_of_method(
            c.progress_tokens[tok].method,
        ) {
            Some(s) => Some(s.spec_other()),
            None => None,
        },
{
    reveal_strlit("$/cancelRequest");
    reveal_strlit("$/progress");
    assert("$/progress"@.len() != "$/cancelRequest"@.len());
}

/// Classification and origin resolution are pure: the same message and the
/// same index always yield the same results, no matter how often they are
/// consulted.
pub proof fn lemma_classification_idempotent(
    m1: MessageView,
    m2: MessageView,
    c1: ConversationView,
    c2: ConversationView,
)
    requires
        m1 == m2,
        c1 == c2,
    ensures
        spec_classify(m1, c1) == spec_classify(m2, c2),
        spec_get_source(m1, c1) == spec_get_source(m2, c2),
{
}

} // verus!
