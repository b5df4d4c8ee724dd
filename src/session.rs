//! The state of one attached session: the request-id counter, the calls that
//! wait for a reply, the registered bindings, and the step that routes each
//! frame read from the pipe.
use vstd::prelude::*;
use crossbeam_channel::Sender;
use dashmap::DashMap;
use crate::json::{Json, json_parse};
use crate::protocol::{Frame, Relayed, frame_is, relayed_is, classify_frame, classify_relayed, call_text, is_call_text};
use crate::binding::{BindingCall, call_fields};

verus! {

/// What a call yields: the value, or the error that the browser reported.
pub type JSResult = Result<Json, Json>;

#[verifier::external_type_specification]
#[verifier::external_body]
#[verifier::reject_recursive_types(T)]
pub struct ExSender<T>(crossbeam_channel::Sender<T>);

#[verifier::external_type_specification]
#[verifier::external_body]
#[verifier::reject_recursive_types(K)]
#[verifier::reject_recursive_types(V)]
#[verifier::reject_recursive_types(S)]
pub struct ExDashMap<K, V, S>(dashmap::DashMap<K, V, S>);

/// The calls that wait for a reply that a map holds: each request id with the
/// channel of the caller that waits for it.
pub uninterp spec fn waiting_in(m: DashMap<i64, Sender<JSResult>>) -> Map<i64, Sender<JSResult>>;

/// No waiting calls.
pub open spec fn no_calls() -> Map<i64, Sender<JSResult>> {
    Map::empty()
}

/// Relies on DashMap::new: a map with no entries.
#[verifier::external_body]
fn no_waiting() -> (r: DashMap<i64, Sender<JSResult>>)
    ensures
        waiting_in(r) == no_calls(),
{
    DashMap::new()
}

/// Relies on DashMap::insert: afterwards `id` maps to `reply`, and the other
/// entries stay.
#[verifier::external_body]
fn put_waiting(m: &mut DashMap<i64, Sender<JSResult>>, id: i64, reply: Sender<JSResult>)
    ensures
        waiting_in(*final(m)) == waiting_in(*old(m)).insert(id, reply),
{
    m.insert(id, reply);
}

/// Relies on DashMap::remove: the value that `id` mapped to, if any, and the
/// map without `id`.
#[verifier::external_body]
fn take_waiting(m: &mut DashMap<i64, Sender<JSResult>>, id: i64) -> (r: Option<Sender<JSResult>>)
    ensures
        r == handed(waiting_in(*old(m)), id),
        waiting_in(*final(m)) == waiting_in(*old(m)).remove(id),
{
    m.remove(&id).map(|entry| entry.1)
}

/// The channel that waits for the reply to `id`, if any.
pub open spec fn handed<S>(waiting: Map<i64, S>, id: i64) -> Option<S> {
    if waiting.contains_key(id) {
        Some(waiting[id])
    } else {
        None
    }
}

/// The channels that replies with the ids `ids`, arriving in this order, are
/// handed to, starting from the waiting calls `waiting`: each reply takes the
/// entry of its id, if one is left.
pub open spec fn settle_all<S>(waiting: Map<i64, S>, ids: Seq<i64>) -> Seq<Option<S>>
    decreases ids.len(),
{
    if ids.len() == 0 {
        Seq::empty()
    } else {
        seq![handed(waiting, ids[0])] + settle_all(waiting.remove(ids[0]), ids.drop_first())
    }
}

/// Replies are matched by id alone: however replies with distinct ids are
/// ordered, each reaches the channel that was recorded for its id, and a reply
/// whose id no call waits for reaches none.
pub proof fn lemma_replies_reach_their_callers<S>(waiting: Map<i64, S>, ids: Seq<i64>)
    requires
        ids.no_duplicates(),
    ensures
        settle_all(waiting, ids).len() == ids.len(),
        forall|j: int|
            0 <= j < ids.len() ==> #[trigger] settle_all(waiting, ids)[j] == handed(waiting, ids[j]),
    decreases ids.len(),
{
    if ids.len() > 0 {
        let rest = ids.drop_first();
        assert(rest.no_duplicates());
        lemma_replies_reach_their_callers(waiting.remove(ids[0]), rest);
        assert forall|j: int| 0 <= j < ids.len() implies #[trigger] settle_all(waiting, ids)[j]
            == handed(waiting, ids[j]) by {
            if j > 0 {
                assert(ids[j] == rest[j - 1]);
                assert(ids[j] != ids[0]);
                assert(settle_all(waiting, ids)[j] == settle_all(waiting.remove(ids[0]), rest)[j - 1]);
            }
        }
    }
}

/// The waiting calls after calls that take the ids from `next` on, one after
/// the other, each waiting on the channel in `channels`, before any reply.
pub open spec fn issue_all<S>(waiting: Map<i64, S>, next: int, channels: Seq<S>) -> Map<i64, S>
    decreases channels.len(),
{
    if channels.len() == 0 {
        waiting
    } else {
        issue_all(waiting.insert(next as i64, channels[0]), next + 1, channels.drop_first())
    }
}

/// Calls issued one after the other wait under the ids `next`, `next + 1`,
/// ..., each on its own channel, beside the calls that waited before.
pub proof fn lemma_issued_calls_wait<S>(waiting: Map<i64, S>, next: int, channels: Seq<S>)
    requires
        forall|id: i64| #[trigger] waiting.contains_key(id) ==> id < next,
        0 <= next,
        next + channels.len() <= i64::MAX,
    ensures
        forall|i: int|
            0 <= i < channels.len() ==> handed(issue_all(waiting, next, channels), (next + i) as i64)
                == Some(#[trigger] channels[i]),
        forall|id: i64|
            id < next ==> handed(#[trigger] issue_all(waiting, next, channels), id) == handed(
                waiting,
                id,
            ),
    decreases channels.len(),
{
    if channels.len() > 0 {
        let w1 = waiting.insert(next as i64, channels[0]);
        let rest = channels.drop_first();
        assert forall|id: i64| #[trigger] w1.contains_key(id) implies id < next + 1 by {
            if id != next as i64 {
                assert(waiting.contains_key(id));
            }
        }
        lemma_issued_calls_wait(w1, next + 1, rest);
        assert forall|i: int| 0 <= i < channels.len() implies handed(
            issue_all(waiting, next, channels),
            (next + i) as i64,
        ) == Some(#[trigger] channels[i]) by {
            if i > 0 {
                assert(rest[i - 1] == channels[i]);
                assert((next + 1 + (i - 1)) as i64 == (next + i) as i64);
            } else {
                assert(handed(issue_all(w1, next + 1, rest), next as i64) == handed(w1, next as i64));
            }
        }
        assert forall|id: i64| id < next implies handed(
            #[trigger] issue_all(waiting, next, channels),
            id,
        ) == handed(waiting, id) by {
            assert(handed(w1, id) == handed(waiting, id));
        }
    }
}

/// Every call gets the reply with its own id: calls issued one after the
/// other from the id `next` on, whose replies then arrive in any order (each
/// id once), each reach the channel of the call that took the reply's id.
pub proof fn lemma_each_call_gets_its_reply<S>(
    waiting: Map<i64, S>,
    next: int,
    channels: Seq<S>,
    replies: Seq<i64>,
)
    requires
        forall|id: i64| #[trigger] waiting.contains_key(id) ==> id < next,
        0 <= next,
        next + channels.len() <= i64::MAX,
        replies.no_duplicates(),
    ensures
        forall|j: int|
            0 <= j < replies.len() && next <= replies[j] < next + channels.len() ==> #[trigger] settle_all(
                issue_all(waiting, next, channels),
                replies,
            )[j] == Some(channels[replies[j] - next]),
{
    lemma_issued_calls_wait(waiting, next, channels);
    lemma_replies_reach_their_callers(issue_all(waiting, next, channels), replies);
    assert forall|j: int|
        0 <= j < replies.len() && next <= replies[j] < next + channels.len() implies #[trigger] settle_all(
            issue_all(waiting, next, channels),
            replies,
        )[j] == Some(channels[replies[j] - next]) by {
        let i = replies[j] - next;
        assert((next + i) as i64 == replies[j]);
        assert(handed(issue_all(waiting, next, channels), (next + i) as i64) == Some(channels[i]));
    }
}

/// A reply is matched at most once: once the entry of an id was taken, a
/// late reply with the same id is handed to no call and leaves the waiting
/// calls as they are.
pub proof fn lemma_late_reply_discarded<S>(waiting: Map<i64, S>, id: i64)
    ensures
        handed(waiting.remove(id), id) is None,
        waiting.remove(id).remove(id) == waiting.remove(id),
        settle_all(waiting, seq![id, id])[1] is None,
{
    assert(waiting.remove(id).remove(id) =~= waiting.remove(id));
    assert(seq![id, id].drop_first() =~= seq![id]);
    assert(seq![id].drop_first() =~= Seq::<i64>::empty());
    let after = waiting.remove(id);
    assert(settle_all(after, seq![id]) == seq![handed(after, id)] + settle_all(
        after.remove(id),
        Seq::<i64>::empty(),
    ));
    assert(settle_all(after, seq![id])[0] is None);
    assert(settle_all(waiting, seq![id, id]) == seq![handed(waiting, id)] + settle_all(
        after,
        seq![id],
    ));
}

/// The waiting calls after calls that take the ids from `next` on, one after
/// the other, each waiting on the channel in `channels` and each answered
/// before the next one starts.
pub open spec fn awaited_calls<S>(waiting: Map<i64, S>, next: int, channels: Seq<S>) -> Map<i64, S>
    decreases channels.len(),
{
    if channels.len() == 0 {
        waiting
    } else {
        awaited_calls(
            waiting.insert(next as i64, channels[0]).remove(next as i64),
            next + 1,
            channels.drop_first(),
        )
    }
}

/// Calls that are answered one after the other leave the waiting calls as
/// they were, given that no waiting call has an id from `next` on.
pub proof fn lemma_awaited_calls_leave_no_trace<S>(waiting: Map<i64, S>, next: int, channels: Seq<S>)
    requires
        forall|id: i64| #[trigger] waiting.contains_key(id) ==> id < next,
        next + channels.len() <= i64::MAX,
    ensures
        awaited_calls(waiting, next, channels) == waiting,
    decreases channels.len(),
{
    if channels.len() > 0 {
        assert(waiting.insert(next as i64, channels[0]).remove(next as i64) =~= waiting);
        lemma_awaited_calls_leave_no_trace(waiting, next + 1, channels.drop_first());
    }
}

/// Enabling the domains again changes nothing: the enable commands, each
/// answered before the next, leave the waiting calls as they were, and so
/// does a second run of them; the ids, target, session and bindings are kept
/// by every call (see `Session::begin_call`).
pub proof fn lemma_enable_twice<S>(waiting: Map<i64, S>, next: int, first: Seq<S>, second: Seq<S>)
    requires
        forall|id: i64| #[trigger] waiting.contains_key(id) ==> id < next,
        next + first.len() + second.len() <= i64::MAX,
    ensures
        awaited_calls(waiting, next, first) == waiting,
        awaited_calls(awaited_calls(waiting, next, first), next + first.len(), second)
            == awaited_calls(waiting, next, first),
{
    lemma_awaited_calls_leave_no_trace(waiting, next, first);
    assert forall|id: i64| #[trigger] waiting.contains_key(id) implies id < next + first.len() by {}
    lemma_awaited_calls_leave_no_trace(waiting, next + first.len(), second);
}

/// What the dispatch loop does with one frame.
#[derive(Debug)]
pub enum Dispatch {
    /// The pipe gave an empty frame: the browser is gone and the loop ends.
    Closed,
    /// A frame held no JSON document: the loop ends.
    Malformed,
    /// The session's target went away: the browser is to be shut down and the
    /// loop ends.
    TargetDestroyed,
    /// A frame that asks for nothing.
    Ignored,
    /// Console output or an exception of the page, for the log.
    Diagnostic(Json),
    /// A call to a registered binding, for its callback.
    Invoke(BindingCall),
    /// A reply, with the channel of the call that waits for it.
    Reply(Sender<JSResult>, JSResult),
    /// A reply with this id for which no call waits, dropped.
    Unmatched(i64),
}

impl Dispatch {
    /// Whether the dispatch loop ends after this frame.
    pub open spec fn ends_loop(self) -> bool {
        self is Closed || self is Malformed || self is TargetDestroyed
    }

    /// Whether the dispatch loop ends after this frame.
    pub fn is_final(&self) -> (r: bool)
        ensures
            r == self.ends_loop(),
    {
        match self {
            Dispatch::Closed | Dispatch::Malformed | Dispatch::TargetDestroyed => true,
            _ => false,
        }
    }
}

/// The state of one attached session.
pub struct Session {
    next_id: i64,
    target_id: String,
    session_id: String,
    pending: DashMap<i64, Sender<JSResult>>,
    bindings: Vec<String>,
    window: i32,
}

/// The first request id after the two that the handshake takes.
pub const FIRST_CALL_ID: i64 = 2;

/// What a relayed message does, once sorted as `rel`, to the waiting calls
/// `before` of a session with the bindings `names`: the result `r` of the
/// step, and the waiting calls `after` it.
pub open spec fn relayed_answer(
    rel: Relayed,
    names: Seq<Seq<char>>,
    before: Map<i64, Sender<JSResult>>,
    r: Dispatch,
    after: Map<i64, Sender<JSResult>>,
) -> bool {
    match rel {
        Relayed::Diagnostic(j) => r == Dispatch::Diagnostic(j) && after == before,
        Relayed::BindingCalled { name, payload, context_id } => after == before && if names.contains(
            name@,
        ) {
            match json_parse(payload@) {
                None => r is Malformed,
                Some(p) => match r {
                    Dispatch::Invoke(c) => call_fields(p) == Some((c.name(), c.seq(), c.arguments()))
                        && c.context_id() == context_id && !c.is_settled(),
                    Dispatch::Ignored => call_fields(p) is None,
                    _ => false,
                },
            }
        } else {
            r is Ignored
        },
        Relayed::Reply { id, outcome } => match handed(before, id) {
            Some(s) => r == Dispatch::Reply(s, outcome) && after == before.remove(id),
            None => r == Dispatch::Unmatched(id) && after == before,
        },
        Relayed::Other => r is Ignored && after == before,
    }
}

impl Session {
    /// The id that the next call takes.
    pub closed spec fn next_id(&self) -> i64 {
        self.next_id
    }

    /// The id of the page target that the session controls.
    pub closed spec fn target(&self) -> Seq<char> {
        self.target_id@
    }

    /// The id of the session, which every relayed request carries.
    pub closed spec fn session(&self) -> Seq<char> {
        self.session_id@
    }

    /// The calls that wait for a reply, by request id.
    pub closed spec fn waiting(&self) -> Map<i64, Sender<JSResult>> {
        waiting_in(self.pending)
    }

    /// The names of the registered bindings.
    pub closed spec fn names(&self) -> Seq<Seq<char>> {
        self.bindings@.map_values(|b: String| b@)
    }

    /// Every waiting call has an id below the next one, and no binding is
    /// registered twice.
    pub closed spec fn wf(&self) -> bool {
        &&& FIRST_CALL_ID <= self.next_id
        &&& forall|id: i64| #[trigger] self.waiting().contains_key(id) ==> id < self.next_id
        &&& self.names().no_duplicates()
    }

    /// A session attached to the target `target_id` under `session_id`, with
    /// no waiting calls and no bindings.
    pub fn new(target_id: String, session_id: String) -> (r: Session)
        ensures
            r.wf(),
            r.next_id() == FIRST_CALL_ID,
            r.target() == target_id@,
            r.session() == session_id@,
            r.waiting() == Map::<i64, Sender<JSResult>>::empty(),
            r.names() == Seq::<Seq<char>>::empty(),
            r.window() == 0,
    {
        let r = Session {
            next_id: FIRST_CALL_ID,
            target_id,
            session_id,
            pending: no_waiting(),
            bindings: Vec::new(),
            window: 0,
        };
        assert(r.names() =~= Seq::<Seq<char>>::empty());
        r
    }

    /// The handle of the browser window, 0 until it is known.
    pub closed spec fn window(&self) -> i32 {
        self.window
    }

    /// The handle of the browser window, 0 until it is known.
    pub fn window_id(&self) -> (r: i32)
        ensures
            r == self.window(),
    {
        self.window
    }

    /// Records the handle of the browser window.
    pub fn set_window(&mut self, window: i32)
        requires
            old(self).wf(),
        ensures
            final(self).wf(),
            final(self).window() == window,
            final(self).next_id() == old(self).next_id(),
            final(self).waiting() == old(self).waiting(),
            final(self).target() == old(self).target(),
            final(self).session() == old(self).session(),
            final(self).names() == old(self).names(),
    {
        self.window = window;
        assert(self.waiting() == old(self).waiting());
    }

    /// The id of the page target that the session controls.
    pub fn target_id(&self) -> (r: &str)
        ensures
            r@ == self.target(),
    {
        self.target_id.as_str()
    }

    /// The id of the session.
    pub fn session_id(&self) -> (r: &str)
        ensures
            r@ == self.session(),
    {
        self.session_id.as_str()
    }

    /// Whether another call can take an id.
    pub fn has_ids_left(&self) -> (r: bool)
        ensures
            r == (self.next_id() < i64::MAX),
    {
        self.next_id < i64::MAX
    }

    /// Starts a call of `method` with `params`: takes the next id, records
    /// `reply` as the channel that waits for the reply, and gives the id and
    /// the text to write to the pipe.
    pub fn begin_call(&mut self, method: &str, params: Json, reply: Sender<JSResult>) -> (r: (i64, String))
        requires
            old(self).wf(),
            old(self).next_id() < i64::MAX,
        ensures
            final(self).wf(),
            r.0 == old(self).next_id(),
            !old(self).waiting().contains_key(r.0),
            final(self).next_id() == old(self).next_id() + 1,
            final(self).waiting() == old(self).waiting().insert(r.0, reply),
            is_call_text(r.1@, r.0, method@, params, old(self).session()),
            final(self).target() == old(self).target(),
            final(self).session() == old(self).session(),
            final(self).names() == old(self).names(),
    {
        let id = self.next_id;
        let text = call_text(id, method, params, self.session_id.as_str());
        put_waiting(&mut self.pending, id, reply);
        self.next_id = id + 1;
        assert forall|k: i64| #[trigger] self.waiting().contains_key(k) implies k < self.next_id by {
            if k != id {
                assert(old(self).waiting().contains_key(k));
            }
        }
        (id, text)
    }

    /// Whether a binding of this name is registered.
    pub fn is_bound(&self, name: &str) -> (r: bool)
        ensures
            r == self.names().contains(name@),
    {
        let mut i: usize = 0;
        while i < self.bindings.len()
            invariant
                i <= self.bindings.len(),
                self.names().len() == self.bindings.len(),
                forall|j: int| 0 <= j < i ==> self.names()[j] != name@,
            decreases self.bindings.len() - i,
        {
            if crate::json::same_text(self.bindings[i].as_str(), name) {
                assert(self.names()[i as int] == name@);
                return true;
            }
            i = i + 1;
        }
        false
    }

    /// Registers a binding name; a name registered before stays once.
    pub fn register(&mut self, name: &str)
        requires
            old(self).wf(),
        ensures
            final(self).wf(),
            final(self).names().to_set() == old(self).names().to_set().insert(name@),
            final(self).next_id() == old(self).next_id(),
            final(self).waiting() == old(self).waiting(),
            final(self).target() == old(self).target(),
            final(self).session() == old(self).session(),
    {
        if !self.is_bound(name) {
            self.bindings.push(name.to_owned());
            assert(self.names() =~= old(self).names().push(name@));
            assert forall|i: int, j: int|
                0 <= i < self.names().len() && 0 <= j < self.names().len() && i != j
                implies self.names()[i] != self.names()[j] by {
                if i == old(self).names().len() {
                    assert(old(self).names().contains(self.names()[j]));
                } else if j == old(self).names().len() {
                    assert(old(self).names().contains(self.names()[i]));
                }
            }
            assert(self.names().to_set() =~= old(self).names().to_set().insert(name@)) by {
                old(self).names().lemma_push_to_set_commute(name@);
            }
        } else {
            assert(old(self).names().to_set().insert(name@) =~= old(self).names().to_set());
        }
        assert(self.names().no_duplicates());
        assert(self.waiting() == old(self).waiting());
    }

    /// Routes a message relayed from the session's target.
    pub fn dispatch_relayed(&mut self, res: Json) -> (r: Dispatch)
        requires
            old(self).wf(),
        ensures
            final(self).wf(),
            exists|rel: Relayed| #[trigger] relayed_is(res, rel) && relayed_answer(
                rel,
                old(self).names(),
                old(self).waiting(),
                r,
                final(self).waiting(),
            ),
            final(self).next_id() == old(self).next_id(),
            final(self).target() == old(self).target(),
            final(self).session() == old(self).session(),
            final(self).names() == old(self).names(),
    {
        let rel = classify_relayed(res);
        let ghost rel_copy = rel;
        let r = match rel {
            Relayed::Diagnostic(j) => Dispatch::Diagnostic(j),
            Relayed::BindingCalled { name, payload, context_id } => {
                if self.is_bound(name.as_str()) {
                    match Json::parse(payload.as_str()) {
                        None => Dispatch::Malformed,
                        Some(p) => match BindingCall::from_payload(p, context_id) {
                            Some(c) => Dispatch::Invoke(c),
                            None => Dispatch::Ignored,
                        },
                    }
                } else {
                    Dispatch::Ignored
                }
            },
            Relayed::Reply { id, outcome } => match take_waiting(&mut self.pending, id) {
                Some(s) => Dispatch::Reply(s, outcome),
                None => {
                    assert(old(self).waiting().remove(id) =~= old(self).waiting());
                    Dispatch::Unmatched(id)
                },
            },
            Relayed::Other => Dispatch::Ignored,
        };
        assert(relayed_is(res, rel_copy));
        assert(relayed_answer(rel_copy, old(self).names(), old(self).waiting(), r, self.waiting()));
        assert forall|k: i64| #[trigger] self.waiting().contains_key(k) implies k < self.next_id by {
            assert(old(self).waiting().contains_key(k));
        }
        r
    }

    /// Routes one frame read from the pipe.
    pub fn dispatch(&mut self, text: &str) -> (r: Dispatch)
        requires
            old(self).wf(),
        ensures
            final(self).wf(),
            final(self).next_id() == old(self).next_id(),
            final(self).target() == old(self).target(),
            final(self).session() == old(self).session(),
            final(self).names() == old(self).names(),
            text@.len() == 0 ==> r is Closed && final(self).waiting() == old(self).waiting(),
            text@.len() != 0 ==> match json_parse(text@) {
                None => r is Malformed && final(self).waiting() == old(self).waiting(),
                Some(msg) => exists|f: Frame| #[trigger] frame_is(msg, old(self).target(), old(self).session(), f) && match f {
                    Frame::TargetDestroyed => r is TargetDestroyed && final(self).waiting() == old(self).waiting(),
                    Frame::Relayed(t) => match json_parse(t@) {
                        None => r is Malformed && final(self).waiting() == old(self).waiting(),
                        Some(res) => exists|rel: Relayed| #[trigger] relayed_is(res, rel) && relayed_answer(
                            rel,
                            old(self).names(),
                            old(self).waiting(),
                            r,
                            final(self).waiting(),
                        ),
                    },
                    _ => r is Ignored && final(self).waiting() == old(self).waiting(),
                },
            },
    {
        if text.is_empty() {
            return Dispatch::Closed;
        }
        let msg = match Json::parse(text) {
            Some(m) => m,
            None => return Dispatch::Malformed,
        };
        let frame = classify_frame(&msg, self.target_id.as_str(), self.session_id.as_str());
        let ghost frame_copy = frame;
        let r = match frame {
            Frame::TargetDestroyed => Dispatch::TargetDestroyed,
            Frame::Relayed(t) => match Json::parse(t.as_str()) {
                None => Dispatch::Malformed,
                Some(res) => self.dispatch_relayed(res),
            },
            _ => Dispatch::Ignored,
        };
        assert(frame_is(msg, old(self).target(), old(self).session(), frame_copy));
        r
    }
}

} // verus!
