use vstd::prelude::*;
use std::collections::HashMap;

use crate::input::lookup;
use crate::msg::{next_id, CallbackId, OutgoingMsg, RequestId};

verus! {

broadcast use vstd::std_specs::hash::group_hash_axioms;

/// A protocol rule that a message broke.
#[derive(Debug, Clone, Copy, PartialEq, Eq, Structural)]
pub enum ProtocolError {
    /// A response came while no request was waiting for one.
    UnexpectedResponse(RequestId),
}

/// What the correlator holds, as plain values.
pub struct CorrelatorView<A, R> {
    pub next_request_id: u32,
    /// Callback calls read while a request waited, oldest first.
    pub callbacks: Seq<(CallbackId, Option<A>)>,
    /// Responses read while another request waited, by request id.
    pub responses: Map<u32, R>,
}

/// The client's side of the protocol: it numbers requests, and keeps what it
/// reads while waiting for one response until its turn comes. Calls are
/// synchronous, yet callbacks and the responses of other calls may arrive
/// meanwhile: nothing read is lost.
#[derive(Debug)]
pub struct Correlator<A, R> {
    next_request_id: u32,
    unread_callbacks: Vec<(CallbackId, Option<A>)>,
    unread_responses: HashMap<u32, R>,
}

impl<A, R> View for Correlator<A, R> {
    type V = CorrelatorView<A, R>;

    closed spec fn view(&self) -> CorrelatorView<A, R> {
        CorrelatorView {
            next_request_id: self.next_request_id,
            callbacks: self.unread_callbacks@,
            responses: self.unread_responses@,
        }
    }
}

/// The correlator after reading `msg` while request `awaited` waits, and the
/// response handed to it if `msg` is that response. Anything else is kept.
pub open spec fn step<A, R>(v: CorrelatorView<A, R>, awaited: RequestId, msg: OutgoingMsg<A, R>) -> (
    CorrelatorView<A, R>,
    Option<R>,
) {
    match msg {
        OutgoingMsg::CallCallback { callback_id, args } => (
            CorrelatorView { callbacks: v.callbacks.push((callback_id, args)), ..v },
            None,
        ),
        OutgoingMsg::RequestResponse { request_id, response } => if request_id == awaited {
            (v, Some(response))
        } else {
            (CorrelatorView { responses: v.responses.insert(request_id.0, response), ..v }, None)
        },
    }
}

/// Reading `msgs` one after the other while `awaited` waits, until its
/// response comes: the correlator after, and the response if it came.
pub open spec fn feed<A, R>(
    v: CorrelatorView<A, R>,
    awaited: RequestId,
    msgs: Seq<OutgoingMsg<A, R>>,
) -> (CorrelatorView<A, R>, Option<R>)
    decreases msgs.len(),
{
    if msgs.len() == 0 {
        (v, None)
    } else {
        let (v1, r) = step(v, awaited, msgs[0]);
        if r is Some {
            (v1, r)
        } else {
            feed(v1, awaited, msgs.drop_first())
        }
    }
}

/// The callback calls among `msgs`, in order.
pub open spec fn callbacks_in<A, R>(msgs: Seq<OutgoingMsg<A, R>>) -> Seq<(CallbackId, Option<A>)>
    decreases msgs.len(),
{
    if msgs.len() == 0 {
        seq![]
    } else {
        let rest = callbacks_in(msgs.drop_first());
        match msgs[0] {
            OutgoingMsg::CallCallback { callback_id, args } => seq![(callback_id, args)] + rest,
            _ => rest,
        }
    }
}

/// `msgs[k]` is the response to `id`.
pub open spec fn is_response_to<A, R>(msgs: Seq<OutgoingMsg<A, R>>, k: int, id: RequestId) -> bool {
    match msgs[k] {
        OutgoingMsg::RequestResponse { request_id, .. } => request_id == id,
        _ => false,
    }
}

/// A call that waits for request `id` gets the response that bears its id,
/// whatever came before it: the callback calls read meanwhile are all kept, in
/// order, after those kept before, and the other responses are kept by id.
pub proof fn lemma_call_gets_own_response<A, R>(
    v: CorrelatorView<A, R>,
    id: RequestId,
    msgs: Seq<OutgoingMsg<A, R>>,
    k: int,
)
    requires
        0 <= k < msgs.len(),
        is_response_to(msgs, k, id),
        forall|j: int| 0 <= j < k ==> !is_response_to(msgs, j, id),
    ensures
        ({
            let (v1, r) = feed(v, id, msgs);
            &&& r == Some(msgs[k]->response)
            &&& v1.callbacks == v.callbacks + callbacks_in(msgs.subrange(0, k))
            &&& v1.next_request_id == v.next_request_id
            &&& forall|j: int|
                0 <= j < k && msgs[j] is RequestResponse ==> v1.responses.contains_key(
                    msgs[j]->request_id.0,
                )
        }),
    decreases k,
{
    let (v1, r1) = step(v, id, msgs[0]);
    if k == 0 {
        assert(msgs.subrange(0, 0) =~= Seq::<OutgoingMsg<A, R>>::empty());
        assert(v.callbacks + seq![] =~= v.callbacks);
    } else {
        assert(!is_response_to(msgs, 0, id));
        let rest = msgs.drop_first();
        assert forall|j: int| 0 <= j < k - 1 implies !is_response_to(rest, j, id) by {
            assert(rest[j] == msgs[j + 1]);
            assert(!is_response_to(msgs, j + 1, id));
        }
        assert(rest[k - 1] == msgs[k]);
        lemma_call_gets_own_response(v1, id, rest, k - 1);
        let (v2, r2) = feed(v1, id, rest);
        assert(msgs.subrange(0, k).drop_first() =~= rest.subrange(0, k - 1));
        assert(msgs.subrange(0, k)[0] == msgs[0]);
        match msgs[0] {
            OutgoingMsg::CallCallback { callback_id, args } => {
                assert(v1.callbacks == v.callbacks.push((callback_id, args)));
                assert(callbacks_in(msgs.subrange(0, k)) == seq![(callback_id, args)] + callbacks_in(
                    rest.subrange(0, k - 1),
                ));
                assert(v.callbacks.push((callback_id, args)) + callbacks_in(rest.subrange(0, k - 1))
                    =~= v.callbacks + (seq![(callback_id, args)] + callbacks_in(
                    rest.subrange(0, k - 1),
                )));
            },
            OutgoingMsg::RequestResponse { request_id, response } => {
                assert(callbacks_in(msgs.subrange(0, k)) == callbacks_in(rest.subrange(0, k - 1)));
            },
        }
        assert forall|j: int|
            0 <= j < k && msgs[j] is RequestResponse implies v2.responses.contains_key(
            msgs[j]->request_id.0,
        ) by {
            if j > 0 {
                assert(rest[j - 1] == msgs[j]);
            } else {
                lemma_feed_keeps_responses(v1, id, rest, msgs[0]->request_id.0);
            }
        }
    }
}

/// Feeding messages never drops a stashed response.
pub proof fn lemma_feed_keeps_responses<A, R>(
    v: CorrelatorView<A, R>,
    id: RequestId,
    msgs: Seq<OutgoingMsg<A, R>>,
    key: u32,
)
    requires
        v.responses.contains_key(key),
    ensures
        feed(v, id, msgs).0.responses.contains_key(key),
    decreases msgs.len(),
{
    if msgs.len() > 0 {
        let (v1, r) = step(v, id, msgs[0]);
        if r is None {
            lemma_feed_keeps_responses(v1, id, msgs.drop_first(), key);
        }
    }
}

impl<A, R> Correlator<A, R> {
    pub fn new() -> (r: Correlator<A, R>)
        ensures
            r@.next_request_id == 0,
            r@.callbacks == Seq::<(CallbackId, Option<A>)>::empty(),
            r@.responses == Map::<u32, R>::empty(),
    {
        Correlator { next_request_id: 0, unread_callbacks: Vec::new(), unread_responses: HashMap::new() }
    }

    /// Allocate the id of a new request.
    pub fn next_request_id(&mut self) -> (r: RequestId)
        ensures
            r == RequestId(old(self)@.next_request_id),
            final(self)@ == (CorrelatorView {
                next_request_id: next_id(old(self)@.next_request_id),
                ..old(self)@
            }),
    {
        let id = self.next_request_id;
        self.next_request_id = self.next_request_id.wrapping_add(1);
        RequestId(id)
    }

    /// Take the response to `id` if it was read earlier, while another call
    /// waited.
    pub fn take_response(&mut self, id: RequestId) -> (r: Option<R>)
        ensures
            r == lookup(old(self)@.responses, id.0),
            final(self)@ == (CorrelatorView {
                responses: old(self)@.responses.remove(id.0),
                ..old(self)@
            }),
    {
        self.unread_responses.remove(&id.0)
    }

    /// Read `msg` while the call for `awaited` waits: its response is handed
    /// back; anything else is kept for later.
    pub fn receive(&mut self, awaited: RequestId, msg: OutgoingMsg<A, R>) -> (r: Option<R>)
        ensures
            (final(self)@, r) == step(old(self)@, awaited, msg),
    {
        match msg {
            OutgoingMsg::CallCallback { callback_id, args } => {
                self.unread_callbacks.push((callback_id, args));
                None
            },
            OutgoingMsg::RequestResponse { request_id, response } => {
                if request_id.0 == awaited.0 {
                    Some(response)
                } else {
                    self.unread_responses.insert(request_id.0, response);
                    None
                }
            },
        }
    }

    /// Hand out the callback calls kept so far, oldest first.
    pub fn take_callbacks(&mut self) -> (r: Vec<(CallbackId, Option<A>)>)
        ensures
            r@ == old(self)@.callbacks,
            final(self)@ == (CorrelatorView {
                callbacks: Seq::<(CallbackId, Option<A>)>::empty(),
                ..old(self)@
            }),
    {
        let mut taken: Vec<(CallbackId, Option<A>)> = Vec::new();
        std::mem::swap(&mut taken, &mut self.unread_callbacks);
        taken
    }

    /// Read `msg` while no call waits: a callback call is handed back to be
    /// run. A response is out of place here; it is kept, and reported.
    pub fn dispatch(&mut self, msg: OutgoingMsg<A, R>) -> (r: Result<
        (CallbackId, Option<A>),
        ProtocolError,
    >)
        ensures
            match msg {
                OutgoingMsg::CallCallback { callback_id, args } => r == Ok::<
                    (CallbackId, Option<A>),
                    ProtocolError,
                >((callback_id, args)) && final(self)@ == old(self)@,
                OutgoingMsg::RequestResponse { request_id, response } => r == Err::<
                    (CallbackId, Option<A>),
                    ProtocolError,
                >(ProtocolError::UnexpectedResponse(request_id)) && final(self)@ == (CorrelatorView {
                    responses: old(self)@.responses.insert(request_id.0, response),
                    ..old(self)@
                }),
            },
    {
        match msg {
            OutgoingMsg::CallCallback { callback_id, args } => Ok((callback_id, args)),
            OutgoingMsg::RequestResponse { request_id, response } => {
                self.unread_responses.insert(request_id.0, response);
                Err(ProtocolError::UnexpectedResponse(request_id))
            },
        }
    }
}

/// The callbacks of the configuration process, each at the index its
/// [`CallbackId`] names.
#[derive(Debug)]
pub struct CallbackVec<C> {
    callbacks: Vec<C>,
}

impl<C> View for CallbackVec<C> {
    type V = Seq<C>;

    closed spec fn view(&self) -> Seq<C> {
        self.callbacks@
    }
}

impl<C> CallbackVec<C> {
    /// Create a new, empty `CallbackVec`.
    pub fn new() -> (r: CallbackVec<C>)
        ensures
            r@ == Seq::<C>::empty(),
    {
        CallbackVec { callbacks: Vec::new() }
    }

    pub fn len(&self) -> (r: usize)
        ensures
            r == self@.len(),
    {
        self.callbacks.len()
    }

    /// Add `callback`; it goes by the id handed back. `None` once ids run out.
    pub fn add(&mut self, callback: C) -> (r: Option<CallbackId>)
        ensures
            old(self)@.len() < u32::MAX ==> r == Some(CallbackId(old(self)@.len() as u32))
                && final(self)@ == old(self)@.push(callback),
            old(self)@.len() >= u32::MAX ==> r is None && final(self)@ == old(self)@,
    {
        if self.callbacks.len() >= u32::MAX as usize {
            return None;
        }
        let id = self.callbacks.len() as u32;
        self.callbacks.push(callback);
        Some(CallbackId(id))
    }

    /// Put `callback` in place of callback `id`, and hand back the one it
    /// replaces; `None`, and nothing changed, when there is no such callback.
    pub fn replace(&mut self, id: CallbackId, callback: C) -> (r: Option<C>)
        ensures
            (id.0 as int) < old(self)@.len() ==> r == Some(old(self)@[id.0 as int]) && final(self)@
                == old(self)@.update(id.0 as int, callback),
            (id.0 as int) >= old(self)@.len() ==> r is None && final(self)@ == old(self)@,
    {
        let i = id.0 as usize;
        if i >= self.callbacks.len() {
            return None;
        }
        let mut c = callback;
        std::mem::swap(&mut c, &mut self.callbacks[i]);
        Some(c)
    }
}

} // verus!
