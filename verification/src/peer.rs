//! The bookkeeping of a bidirectional JSON-RPC connection: calls we made that
//! still wait for their answer, requests the other side made that are still
//! being served, and what to do with each frame the read loop takes off the
//! wire.
//!
//! The connection itself (its channels, tasks and loops) lives with the async
//! runtime; everything it decides is decided here.

use vstd::prelude::*;
use std::collections::HashMap;
use crate::codec::{classify, frame_of, Frame, Message};
use crate::error::{Error, bare, with_data, INTERNAL_ERROR, INVALID_REQUEST};
use crate::id::{RequestId, RequestKey};
use crate::json::{json_number, json_object, json_string, number_value, object_value};
use crate::method::CANCEL_REQUEST;
use crate::text::{owned, same_text};

verus! {

broadcast use vstd::std_specs::hash::group_hash_axioms;

/// The id after `n`: ids are handed out by a counter that wraps.
pub open spec fn successor(n: i64) -> i64 {
    if n == i64::MAX { i64::MIN } else { (n + 1) as i64 }
}

/// The calls this side made that still wait for an answer, each with the
/// waiter its answer is handed to.
pub struct PendingCalls<W> {
    next_id: i64,
    waiting: HashMap<i64, W>,
}

impl<W> PendingCalls<W> {
    /// The id the next call will get.
    pub closed spec fn next(&self) -> i64 {
        self.next_id
    }

    /// The calls still waiting, by id.
    pub closed spec fn waiting(&self) -> Map<i64, W> {
        self.waiting@
    }

    pub fn new() -> (p: PendingCalls<W>)
        ensures
            p.next() == 0,
            p.waiting() == Map::<i64, W>::empty(),
            issued(p.next()) == Set::<i64>::empty(),
            counted(p.next(), p.waiting()),
    {
        PendingCalls { next_id: 0, waiting: HashMap::new() }
    }

    /// Give a new call the next id, and remember who waits for its answer.
    /// The id is one never handed out since the counter started, and one
    /// nobody still waits on; until the counter comes round, that stays so.
    pub fn register(&mut self, waiter: W) -> (id: RequestId)
        ensures
            id == RequestId::Num(old(self).next()),
            final(self).next() == successor(old(self).next()),
            final(self).waiting() == old(self).waiting().insert(old(self).next(), waiter),
            !issued(old(self).next()).contains(old(self).next()),
            0 <= old(self).next() < i64::MAX ==> issued(final(self).next()) == issued(
                old(self).next(),
            ).insert(old(self).next()),
            counted(old(self).next(), old(self).waiting()) ==> !old(self).waiting().contains_key(
                old(self).next(),
            ),
            counted(old(self).next(), old(self).waiting()) && 0 <= old(self).next() < i64::MAX
                ==> counted(final(self).next(), final(self).waiting()),
    {
        proof {
            if 0 <= self.next_id < i64::MAX {
                assert(issued(successor(self.next_id)) =~= issued(self.next_id).insert(
                    self.next_id,
                ));
            }
        }
        let n = self.next_id;
        self.next_id = if n == i64::MAX { i64::MIN } else { n + 1 };
        self.waiting.insert(n, waiter);
        RequestId::Num(n)
    }

    /// Hand back whoever waits for the answer to `id`, and stop waiting for it.
    /// Only numeric ids are ever handed out, so any other id waits for nothing.
    pub fn take(&mut self, id: &RequestId) -> (w: Option<W>)
        ensures
            final(self).next() == old(self).next(),
            counted(old(self).next(), old(self).waiting()) ==> counted(
                final(self).next(),
                final(self).waiting(),
            ),
            match id.key() {
                RequestKey::Num(n) => {
                    &&& final(self).waiting() == old(self).waiting().remove(n)
                    &&& w == (if old(self).waiting().contains_key(n) {
                        Some(old(self).waiting()[n])
                    } else {
                        None
                    })
                },
                _ => {
                    &&& final(self).waiting() == old(self).waiting()
                    &&& w is None
                },
            },
    {
        match id {
            RequestId::Num(n) => self.waiting.remove(n),
            _ => None,
        }
    }

    /// Give up on the call `id`: stop waiting for its answer and, if it was
    /// still waiting, the notification that tells the other side to stop
    /// working on it. A call that was already answered needs nothing sent.
    pub fn abandon(&mut self, id: &RequestId) -> (cancel: Option<Message>)
        ensures
            final(self).next() == old(self).next(),
            counted(old(self).next(), old(self).waiting()) ==> counted(
                final(self).next(),
                final(self).waiting(),
            ),
            match id.key() {
                RequestKey::Num(n) => {
                    &&& final(self).waiting() == old(self).waiting().remove(n)
                    &&& (cancel is Some <==> old(self).waiting().contains_key(n))
                    &&& cancel matches Some(m) ==> is_cancel_of(m, n)
                },
                _ => {
                    &&& final(self).waiting() == old(self).waiting()
                    &&& cancel is None
                },
            },
    {
        match id {
            RequestId::Num(n) => {
                let n = *n;
                match self.waiting.remove(&n) {
                    Some(_) => Some(cancel_message(n)),
                    None => None,
                }
            },
            _ => None,
        }
    }

    /// Stop waiting for everything, and hand back every waiter so each can be
    /// told the connection is gone.
    pub fn take_all(&mut self) -> (all: HashMap<i64, W>)
        ensures
            all@ == old(self).waiting(),
            final(self).waiting() == Map::<i64, W>::empty(),
            final(self).next() == old(self).next(),
            counted(final(self).next(), final(self).waiting()),
    {
        let mut all: HashMap<i64, W> = HashMap::new();
        std::mem::swap(&mut all, &mut self.waiting);
        all
    }
}

/// The entries of `s`, by the key of their id.
pub open spec fn key_map<W>(s: Seq<(RequestId, W)>) -> Map<RequestKey, W> {
    Map::new(
        |k: RequestKey| exists|i: int| 0 <= i < s.len() && s[i].0.key() == k,
        |k: RequestKey| s[choose|i: int| 0 <= i < s.len() && s[i].0.key() == k].1,
    )
}

/// No id occurs twice.
pub open spec fn unique_keys<W>(s: Seq<(RequestId, W)>) -> bool {
    forall|i: int, j: int|
        0 <= i < s.len() && 0 <= j < s.len() && #[trigger] s[i].0.key() == #[trigger] s[j].0.key()
            ==> i == j
}

proof fn lemma_key_map_at<W>(s: Seq<(RequestId, W)>, i: int)
    requires
        unique_keys(s),
        0 <= i < s.len(),
    ensures
        key_map(s).contains_key(s[i].0.key()),
        key_map(s)[s[i].0.key()] == s[i].1,
{
    let k = s[i].0.key();
    assert(exists|j: int| 0 <= j < s.len() && s[j].0.key() == k);
    let j = choose|j: int| 0 <= j < s.len() && s[j].0.key() == k;
    assert(s[j].0.key() == s[i].0.key());
}

proof fn lemma_key_map_push<W>(s: Seq<(RequestId, W)>, id: RequestId, w: W)
    requires
        unique_keys(s),
        !key_map(s).contains_key(id.key()),
    ensures
        unique_keys(s.push((id, w))),
        key_map(s.push((id, w))) == key_map(s).insert(id.key(), w),
{
    let t = s.push((id, w));
    assert forall|i: int, j: int|
        0 <= i < t.len() && 0 <= j < t.len() && #[trigger] t[i].0.key() == #[trigger] t[j].0.key()
        implies i == j by {
        if i < s.len() && j == s.len() {
            assert(s[i].0.key() == id.key());
        } else if j < s.len() && i == s.len() {
            assert(s[j].0.key() == id.key());
        } else if i < s.len() && j < s.len() {
            assert(s[i].0.key() == s[j].0.key());
        }
    }
    lemma_key_map_at(t, s.len() as int);
    assert forall|k: RequestKey| key_map(s).contains_key(k) implies key_map(t).contains_key(k)
        && key_map(t)[k] == key_map(s)[k] by {
        let i = choose|i: int| 0 <= i < s.len() && s[i].0.key() == k;
        lemma_key_map_at(s, i);
        assert(t[i] == s[i]);
        lemma_key_map_at(t, i);
    }
    assert forall|k: RequestKey| key_map(t).contains_key(k) implies k == id.key()
        || key_map(s).contains_key(k) by {
        let i = choose|i: int| 0 <= i < t.len() && t[i].0.key() == k;
        if i < s.len() {
            assert(s[i].0.key() == k);
        }
    }
    assert(t[s.len() as int] == (id, w));
    let goal = key_map(s).insert(id.key(), w);
    assert forall|k: RequestKey| #[trigger] key_map(t).contains_key(k) == goal.contains_key(k) by {
        if key_map(s).contains_key(k) {
            let i = choose|i: int| 0 <= i < s.len() && s[i].0.key() == k;
            assert(t[i] == s[i]);
        }
    }
    assert forall|k: RequestKey| #[trigger] goal.contains_key(k) implies key_map(t)[k] == goal[k] by {
        if k != id.key() {
            let i = choose|i: int| 0 <= i < s.len() && s[i].0.key() == k;
            lemma_key_map_at(s, i);
            assert(t[i] == s[i]);
            lemma_key_map_at(t, i);
        }
    }
    assert(key_map(t) =~= goal);
}

proof fn lemma_key_map_remove<W>(s: Seq<(RequestId, W)>, i: int)
    requires
        unique_keys(s),
        0 <= i < s.len(),
    ensures
        unique_keys(s.remove(i)),
        key_map(s.remove(i)) == key_map(s).remove(s[i].0.key()),
{
    let t = s.remove(i);
    let gone = s[i].0.key();
    assert forall|a: int, b: int|
        0 <= a < t.len() && 0 <= b < t.len() && #[trigger] t[a].0.key() == #[trigger] t[b].0.key()
        implies a == b by {
        let a2 = if a < i { a } else { a + 1 };
        let b2 = if b < i { b } else { b + 1 };
        assert(t[a] == s[a2]);
        assert(t[b] == s[b2]);
        assert(s[a2].0.key() == s[b2].0.key());
    }
    assert forall|k: RequestKey| #[trigger] key_map(t).contains_key(k) implies k != gone
        && key_map(s).contains_key(k) && key_map(t)[k] == key_map(s)[k] by {
        let a = choose|a: int| 0 <= a < t.len() && t[a].0.key() == k;
        let a2 = if a < i { a } else { a + 1 };
        assert(t[a] == s[a2]);
        lemma_key_map_at(t, a);
        lemma_key_map_at(s, a2);
        assert(s[a2].0.key() == k);
        if k == gone {
            assert(s[i].0.key() == s[a2].0.key());
        }
    }
    assert forall|k: RequestKey| key_map(s).contains_key(k) && k != gone
        implies #[trigger] key_map(t).contains_key(k) by {
        let a = choose|a: int| 0 <= a < s.len() && s[a].0.key() == k;
        assert(a != i);
        let a2 = if a < i { a } else { a - 1 };
        assert(t[a2] == s[a]);
    }
    assert(key_map(t) =~= key_map(s).remove(gone));
}

/// The requests the other side made that are still being served, each with a
/// handle that stops its task.
pub struct InFlight<W> {
    entries: Vec<(RequestId, W)>,
}

impl<W> InFlight<W> {
    #[verifier::type_invariant]
    spec fn one_entry_per_id(self) -> bool {
        unique_keys(self.entries@)
    }

    /// The tasks in flight, by the id of the request each serves.
    pub closed spec fn tasks(&self) -> Map<RequestKey, W> {
        key_map(self.entries@)
    }

    pub fn new() -> (f: InFlight<W>)
        ensures
            f.tasks() == Map::<RequestKey, W>::empty(),
    {
        let f = InFlight { entries: Vec::new() };
        assert(f.tasks() =~= Map::<RequestKey, W>::empty());
        f
    }

    fn position(&self, id: &RequestId) -> (at: Option<usize>)
        ensures
            match at {
                Some(i) => i < self.entries@.len() && self.entries@[i as int].0.key() == id.key(),
                None => !self.tasks().contains_key(id.key()),
            },
    {
        let mut i: usize = 0;
        while i < self.entries.len()
            invariant
                i <= self.entries@.len(),
                forall|j: int| 0 <= j < i ==> (#[trigger] self.entries@[j]).0.key() != id.key(),
            decreases self.entries@.len() - i,
        {
            if self.entries[i].0.same(id) {
                return Some(i);
            }
            i += 1;
        }
        None
    }

    /// Remember the task serving `id`. A request that reuses the id of one
    /// still in flight replaces it; the replaced handle is handed back.
    pub fn insert(&mut self, id: RequestId, task: W) -> (replaced: Option<W>)
        ensures
            final(self).tasks() == old(self).tasks().insert(id.key(), task),
            replaced == (if old(self).tasks().contains_key(id.key()) {
                Some(old(self).tasks()[id.key()])
            } else {
                None
            }),
    {
        proof { use_type_invariant(&*self); }
        let at = self.position(&id);
        let mut entries: Vec<(RequestId, W)> = Vec::new();
        std::mem::swap(&mut entries, &mut self.entries);
        let ghost s0 = entries@;
        let replaced = match at {
            Some(i) => {
                let old_entry = entries.remove(i);
                proof {
                    lemma_key_map_at(s0, i as int);
                    lemma_key_map_remove(s0, i as int);
                }
                Some(old_entry.1)
            },
            None => None,
        };
        let ghost s1 = entries@;
        proof {
            assert(key_map(s1) == key_map(s0).remove(id.key()));
            assert(!key_map(s1).contains_key(id.key()));
            lemma_key_map_push(s1, id, task);
            assert(key_map(s1).insert(id.key(), task) =~= key_map(s0).insert(id.key(), task));
        }
        entries.push((id, task));
        self.entries = entries;
        replaced
    }

    /// The task serving `id`, no longer in flight.
    pub fn remove(&mut self, id: &RequestId) -> (task: Option<W>)
        ensures
            final(self).tasks() == old(self).tasks().remove(id.key()),
            task == (if old(self).tasks().contains_key(id.key()) {
                Some(old(self).tasks()[id.key()])
            } else {
                None
            }),
    {
        proof { use_type_invariant(&*self); }
        let at = self.position(id);
        match at {
            Some(i) => {
                let mut entries: Vec<(RequestId, W)> = Vec::new();
                std::mem::swap(&mut entries, &mut self.entries);
                let ghost s0 = entries@;
                let e = entries.remove(i);
                proof {
                    lemma_key_map_at(s0, i as int);
                    lemma_key_map_remove(s0, i as int);
                }
                self.entries = entries;
                Some(e.1)
            },
            None => {
                assert(old(self).tasks().remove(id.key()) =~= old(self).tasks());
                None
            },
        }
    }
}


/// The ids handed out so far by a counter that stands at `next` and has not
/// come round: every one from 0 up to `next`.
pub open spec fn issued(next: i64) -> Set<i64> {
    Set::new(|k: i64| 0 <= k < next)
}

/// A call that was made, before and after: every id still waiting is one
/// that was handed out since the counter started.
pub open spec fn counted<W>(next: i64, waiting: Map<i64, W>) -> bool {
    forall|k: i64| #[trigger] waiting.contains_key(k) ==> 0 <= k < next
}

/// Request ids are never reused while the counter has not come round: an
/// id handed out when the counter stood at `earlier` is among those issued
/// by any later count, and the id a later call gets is not.
pub proof fn lemma_ids_are_never_reused(earlier: i64, later: i64)
    requires
        0 <= earlier < later,
    ensures
        issued(later).contains(earlier),
        !issued(later).contains(later),
        issued(earlier).subset_of(issued(later)),
{
}

/// A new call never takes the id of one still waiting, as long as the
/// counter has not come round: registering keeps every waiting id below the
/// counter.
pub proof fn lemma_new_call_ids_are_fresh<W>(next: i64, waiting: Map<i64, W>, waiter: W)
    requires
        counted(next, waiting),
        0 <= next < i64::MAX,
    ensures
        !waiting.contains_key(next),
        counted(successor(next), waiting.insert(next, waiter)),
{
}

/// Handing back the waiter for an id, or stopping everything, keeps the
/// waiting ids below the counter.
pub proof fn lemma_answers_keep_ids_counted<W>(next: i64, waiting: Map<i64, W>, n: i64)
    requires
        counted(next, waiting),
    ensures
        counted(next, waiting.remove(n)),
        counted(next, Map::<i64, W>::empty()),
{
}

/// Each call is answered at most once: once the waiter for an id has been
/// handed back, a second answer with that id finds nobody waiting.
pub proof fn lemma_answered_at_most_once<W>(waiting: Map<i64, W>, n: i64)
    ensures
        !waiting.remove(n).contains_key(n),
{
}

/// A request cancelled or finished is out of flight: cancelling it again
/// finds no task to stop.
pub proof fn lemma_cancel_after_finish_is_a_no_op<W>(tasks: Map<RequestKey, W>, k: RequestKey)
    ensures
        !tasks.remove(k).contains_key(k),
        tasks.remove(k).remove(k) == tasks.remove(k),
{
    assert(tasks.remove(k).remove(k) =~= tasks.remove(k));
}

/// The params of `$/cancel_request` for the call `n`: `{"requestId": n}`.
pub open spec fn cancel_params(n: i64) -> serde_json::Value {
    json_object(seq![("requestId"@, json_number(n as int))])
}

/// `m` tells the other side to stop serving the call `n`.
pub open spec fn is_cancel_of(m: Message, n: i64) -> bool {
    &&& m.id is None
    &&& m.method matches Some(name) && name@ == CANCEL_REQUEST@
    &&& m.params == Some(cancel_params(n))
    &&& m.result is None
    &&& m.error is None
}

/// The notification that tells the other side to stop serving the call `n`.
pub fn cancel_message(n: i64) -> (m: Message)
    ensures
        is_cancel_of(m, n),
{
    let mut members: Vec<(String, serde_json::Value)> = Vec::new();
    members.push((owned("requestId"), number_value(n)));
    let params = object_value(members);
    proof {
        assert(members@.map_values(|e: (String, serde_json::Value)| (e.0@, e.1)) =~= seq![
            ("requestId"@, json_number(n as int)),
        ]);
    }
    Message::notification(owned(CANCEL_REQUEST), params)
}

/// A call this side gives up on reaches the other side's read loop as a
/// cancellation naming that call, never as a notification for its handler.
pub proof fn lemma_abandoned_calls_are_cancelled_on_the_peer(m: Message, n: i64)
    requires
        is_cancel_of(m, n),
    ensures
        steps_to(Ok(m), Step::Cancel { params: Some(cancel_params(n)) }),
{
}

/// The error every caller sees once the connection is gone.
pub open spec fn is_disconnected(e: Error) -> bool {
    with_data(e, INTERNAL_ERROR, "Internal error"@, json_string("connection closed"@))
}

/// The error every caller sees once the connection is gone.
pub fn disconnected() -> (e: Error)
    ensures
        is_disconnected(e),
{
    Error::internal_error().with_text(owned("connection closed"))
}

/// What became of a call, from what reached its waiter: nothing at all means
/// the connection closed before the answer came.
pub fn settle(received: Option<Result<serde_json::Value, Error>>) -> (r: Result<serde_json::Value, Error>)
    ensures
        match received {
            Some(outcome) => r == outcome,
            None => r matches Err(e) && is_disconnected(e),
        },
{
    match received {
        Some(outcome) => outcome,
        None => Err(disconnected()),
    }
}

/// The message that answers request `id` with what its handler returned.
/// A handler's error goes back as the error; it never tears down the
/// connection.
pub fn answer(id: RequestId, outcome: Result<serde_json::Value, Error>) -> (m: Message)
    ensures
        m.id == Some(id),
        m.method is None,
        m.params is None,
        match outcome {
            Ok(v) => m.result == Some(v) && m.error is None,
            Err(e) => m.result is None && m.error == Some(e),
        },
{
    match outcome {
        Ok(v) => Message::response(id, v),
        Err(e) => Message::error(Some(id), e),
    }
}

/// What the read loop does with one frame it took off the wire.
#[derive(Debug)]
pub enum Step {
    /// An answer to one of our calls: hand it to whoever waits for `id`.
    Resolve { id: RequestId, outcome: Result<serde_json::Value, Error> },
    /// `$/cancel_request`: stop the task serving the request it names.
    Cancel { params: Option<serde_json::Value> },
    /// Any other notification: hand it to the handler, and wait for it, so
    /// notifications stay in wire order.
    Notify { method: String, params: Option<serde_json::Value> },
    /// A request: serve it on a task of its own, so a slow handler does not
    /// stall the stream.
    Serve { id: RequestId, method: String, params: Option<serde_json::Value> },
    /// Send this back, and carry on reading.
    Reply(Message),
}

/// `m` reports `e` about no request in particular.
pub open spec fn reports(m: Message, e: Error) -> bool {
    &&& m.id is None
    &&& m.method is None
    &&& m.params is None
    &&& m.result is None
    &&& m.error == Some(e)
}

/// What the read loop does with one frame. A frame that did not decode is
/// the peer's bug: it is answered with that error and reading goes on. A
/// frame with neither id nor method is answered `invalid request`.
pub open spec fn steps_to(read: Result<Message, Error>, step: Step) -> bool {
    match read {
        Err(e) => step matches Step::Reply(m) && reports(m, e),
        Ok(m) => match frame_of(m) {
            Frame::Response { id, outcome } => step == Step::Resolve { id, outcome },
            Frame::Notification { method, params } => if method@ == CANCEL_REQUEST@ {
                step == Step::Cancel { params }
            } else {
                step == Step::Notify { method, params }
            },
            Frame::Request { id, method, params } => step == Step::Serve { id, method, params },
            Frame::Invalid => step matches Step::Reply(r) && r.error matches Some(e) && reports(r, e)
                && bare(e, INVALID_REQUEST, "Invalid request"@),
        },
    }
}

/// The read loop hands every frame on as it came: a notification other than
/// `$/cancel_request` reaches its handler with its own method and params, a
/// cancellation carries its params, a request is served with its own id,
/// method and params, and an answer resolves its call with its result or
/// its error.
pub proof fn lemma_frames_are_handed_on_as_sent(m: Message, step: Step)
    requires
        steps_to(Ok(m), step),
    ensures
        (m.id is None && m.method is Some && m.method->0@ != CANCEL_REQUEST@) ==> step == (
        Step::Notify { method: m.method->0, params: m.params }),
        (m.id is None && m.method is Some && m.method->0@ == CANCEL_REQUEST@) ==> step == (
        Step::Cancel { params: m.params }),
        (m.id is Some && m.method is Some) ==> step == (Step::Serve {
            id: m.id->0,
            method: m.method->0,
            params: m.params,
        }),
        (m.id is Some && m.method is None && m.error is Some) ==> step == (Step::Resolve {
            id: m.id->0,
            outcome: Err(m.error->0),
        }),
        (m.id is Some && m.method is None && m.error is None && m.result is Some) ==> step == (
        Step::Resolve { id: m.id->0, outcome: Ok(m.result->0) }),
{
}

/// Decide what to do with one frame the read loop took off the wire (or the
/// error decoding it gave).
pub fn next_step(read: Result<Message, Error>) -> (step: Step)
    ensures
        steps_to(read, step),
{
    match read {
        Err(e) => Step::Reply(Message::error(None, e)),
        Ok(m) => match classify(m) {
            Frame::Response { id, outcome } => Step::Resolve { id, outcome },
            Frame::Notification { method, params } => {
                if same_text(method.as_str(), CANCEL_REQUEST) {
                    Step::Cancel { params }
                } else {
                    Step::Notify { method, params }
                }
            },
            Frame::Request { id, method, params } => Step::Serve { id, method, params },
            Frame::Invalid => Step::Reply(Message::error(None, Error::invalid_request())),
        },
    }
}

} // verus!
