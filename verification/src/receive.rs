//! The decisions of the client's receiver: which request a reply belongs to,
//! where events go, and how a broken transport is reported. The receiver
//! holds at most one reply that its request has not taken yet.

use vstd::prelude::*;
use crate::context::opt_view;
use crate::text::str_eq;

verus! {

/// A message from the browser: an event, or the success or failure reply
/// to the request with an id, within a session or not.
pub enum Response<J, E> {
    Event(Option<String>, E),
    Return(Option<String>, u32, J),
    Error(Option<String>, u32, J),
}

/// What reading the head of the receiver tells a request.
pub enum HeadCheck<J> {
    /// The request's success reply, taken from the receiver.
    Reply(J),
    /// The request's failure reply, taken from the receiver.
    CommandError(J),
    /// The transport failed with this message.
    Broken(String),
    /// A reply for another request is waiting to be taken.
    Wait,
    /// Nothing is held: read the next message.
    Empty,
}

/// What the receiver does with a message read from the transport.
pub enum Accepted<E> {
    /// Hand the event to the subscribers of this session.
    Dispatch(Option<String>, E),
    /// The reply (or the failure) is now held.
    Stored,
    /// The transport ended; subscribers are dropped.
    Ended,
}

/// What a wait for the next message may do.
pub enum NextStep {
    /// A reply is still held: wait until its request takes it, and read
    /// nothing meanwhile.
    Wait,
    /// Nothing is held: read the next message and accept it.
    Read,
}

/// The reply (or transport failure) a receiver holds, if any.
pub struct ReceiveState<J, E> {
    pub head: Option<Result<Response<J, E>, String>>,
}

/// Whether a message holds no event.
pub open spec fn not_event<J, E>(h: Option<Result<Response<J, E>, String>>) -> bool {
    !(h matches Some(Ok(Response::Event(..))))
}

/// Whether a reply with these ids answers the request with these ids.
pub open spec fn same_ids(a: Option<String>, i: u32, b: Option<String>, j: u32) -> bool {
    opt_view(a) == opt_view(b) && i == j
}

/// What reading the head tells the request (`sid`, `id`), and the head
/// afterwards.
pub open spec fn head_check_of<J, E>(
    h: Option<Result<Response<J, E>, String>>,
    sid: Option<String>,
    id: u32,
) -> (Option<Result<Response<J, E>, String>>, HeadCheck<J>) {
    match h {
        Some(Ok(Response::Return(s, i, v))) => if same_ids(s, i, sid, id) {
            (None, HeadCheck::Reply(v))
        } else {
            (h, HeadCheck::Wait)
        },
        Some(Ok(Response::Error(s, i, v))) => if same_ids(s, i, sid, id) {
            (None, HeadCheck::CommandError(v))
        } else {
            (h, HeadCheck::Wait)
        },
        Some(Err(m)) => (h, HeadCheck::Broken(m)),
        Some(Ok(Response::Event(..))) => (h, HeadCheck::Wait),
        None => (None, HeadCheck::Empty),
    }
}

/// What the receiver does with message `item` (nothing for the end of
/// the transport) while it holds nothing, and what it holds afterwards.
pub open spec fn accept_of<J, E>(
    item: Option<Result<Response<J, E>, String>>,
) -> (Option<Result<Response<J, E>, String>>, Accepted<E>) {
    match item {
        Some(Ok(Response::Event(s, e))) => (None, Accepted::Dispatch(s, e)),
        Some(m) => (Some(m), Accepted::Stored),
        None => (None, Accepted::Ended),
    }
}

/// What a wait for the next message may do while the receiver holds `h`.
pub open spec fn next_of<J, E>(h: Option<Result<Response<J, E>, String>>) -> NextStep {
    if h is Some {
        NextStep::Wait
    } else {
        NextStep::Read
    }
}

fn ids_match(a: &Option<String>, i: u32, b: &Option<String>, j: u32) -> (r: bool)
    ensures
        r == same_ids(*a, i, *b, j),
{
    if i != j {
        return false;
    }
    match (a, b) {
        (Some(x), Some(y)) => str_eq(x.as_str(), y.as_str()),
        (None, None) => true,
        _ => false,
    }
}

impl<J, E> ReceiveState<J, E> {
    /// A receiver that holds nothing.
    pub fn new() -> (r: Self)
        ensures
            r.head is None,
            not_event(r.head),
    {
        ReceiveState { head: None }
    }

    /// Reads the head for the request (`session_id`, `id`): takes its reply
    /// if the head holds it, reports a transport failure, and otherwise
    /// says whether to wait or to read the next message.
    pub fn check_head(&mut self, session_id: &Option<String>, id: u32) -> (r: HeadCheck<J>)
        requires
            not_event(old(self).head),
        ensures
            not_event(final(self).head),
            (final(self).head, r) == head_check_of(old(self).head, *session_id, id),
    {
        let h = self.head.take();
        match h {
            Some(Ok(Response::Return(s, i, v))) => {
                if ids_match(&s, i, session_id, id) {
                    HeadCheck::Reply(v)
                } else {
                    self.head = Some(Ok(Response::Return(s, i, v)));
                    HeadCheck::Wait
                }
            },
            Some(Ok(Response::Error(s, i, v))) => {
                if ids_match(&s, i, session_id, id) {
                    HeadCheck::CommandError(v)
                } else {
                    self.head = Some(Ok(Response::Error(s, i, v)));
                    HeadCheck::Wait
                }
            },
            Some(Err(m)) => {
                let r = HeadCheck::Broken(m.clone());
                self.head = Some(Err(m));
                r
            },
            Some(Ok(Response::Event(s, e))) => {
                self.head = Some(Ok(Response::Event(s, e)));
                HeadCheck::Wait
            },
            None => HeadCheck::Empty,
        }
    }

    /// Accepts a message read from the transport (nothing for its end)
    /// while nothing is held: events go to their session's subscribers,
    /// replies and failures are held.
    pub fn accept(&mut self, item: Option<Result<Response<J, E>, String>>) -> (r: Accepted<E>)
        requires
            old(self).head is None,
        ensures
            not_event(final(self).head),
            (final(self).head, r) == accept_of(item),
    {
        match item {
            Some(Ok(Response::Event(s, e))) => Accepted::Dispatch(s, e),
            Some(m) => {
                self.head = Some(m);
                Accepted::Stored
            },
            None => Accepted::Ended,
        }
    }

    /// Whether a wait for the next message may read one: only while nothing
    /// is held, so that no message read is ever dropped.
    pub fn next_step(&self) -> (r: NextStep)
        ensures
            r == next_of(self.head),
    {
        if self.head.is_some() {
            NextStep::Wait
        } else {
            NextStep::Read
        }
    }
}

/// A success reply read while nothing is held is stored and handed to the
/// request it answers; the receiver holds nothing afterwards.
pub proof fn law_reply_reaches_its_request<J, E>(s: Option<String>, i: u32, v: J)
    ensures
        ({
            let (h1, a) = accept_of::<J, E>(Some(Ok(Response::Return(s, i, v))));
            a is Stored && head_check_of(h1, s, i) == (None::<Result<Response<J, E>, String>>, HeadCheck::Reply(v))
        }),
{
}

/// A failure reply read while nothing is held is stored and handed to the
/// request it answers; the receiver holds nothing afterwards.
pub proof fn law_failure_reaches_its_request<J, E>(s: Option<String>, i: u32, v: J)
    ensures
        ({
            let (h1, a) = accept_of::<J, E>(Some(Ok(Response::Error(s, i, v))));
            a is Stored && head_check_of(h1, s, i) == (None::<Result<Response<J, E>, String>>, HeadCheck::CommandError(v))
        }),
{
}

/// A held reply is never handed to a request it does not answer: that
/// request waits and the reply stays held.
pub proof fn law_reply_not_taken_by_others<J, E>(
    h: Option<Result<Response<J, E>, String>>,
    s: Option<String>,
    i: u32,
)
    requires
        h matches Some(Ok(r)) && match r {
            Response::Return(s0, i0, _) => !same_ids(s0, i0, s, i),
            Response::Error(s0, i0, _) => !same_ids(s0, i0, s, i),
            Response::Event(..) => false,
        },
    ensures
        head_check_of(h, s, i) == (h, HeadCheck::<J>::Wait),
{
}

/// No message is lost: a wait reads only while nothing is held, and every
/// message it reads is either handed to its session's subscribers (an
/// event, which is never held) or held for its request (a reply or a
/// transport failure).
pub proof fn law_no_message_lost<J, E>(
    h: Option<Result<Response<J, E>, String>>,
    m: Result<Response<J, E>, String>,
)
    requires
        next_of(h) is Read,
    ensures
        h is None,
        match m {
            Ok(Response::Event(s, e)) => accept_of(Some(m)) == (
                None::<Result<Response<J, E>, String>>,
                Accepted::Dispatch(s, e),
            ),
            _ => accept_of(Some(m)) == (Some(m), Accepted::<E>::Stored),
        },
{
}

/// A held reply is never overwritten: while one is held, a wait reads
/// nothing.
pub proof fn law_held_reply_not_overwritten<J, E>(h: Option<Result<Response<J, E>, String>>)
    requires
        h is Some,
    ensures
        next_of(h) is Wait,
{
}

/// Once the transport has failed, every request is told so, and the
/// failure stays held.
pub proof fn law_failure_is_reported_to_all<J, E>(m: String, s: Option<String>, i: u32)
    ensures
        ({
            let h1 = accept_of::<J, E>(Some(Err(m))).0;
            head_check_of(h1, s, i) == (h1, HeadCheck::<J>::Broken(m))
        }),
{
}

/// The receiver never holds an event, whatever it reads and whoever
/// reads its head.
pub proof fn law_no_event_held<J, E>(
    h: Option<Result<Response<J, E>, String>>,
    item: Option<Result<Response<J, E>, String>>,
    s: Option<String>,
    i: u32,
)
    requires
        not_event(h),
    ensures
        not_event(accept_of(item).0),
        not_event(head_check_of(h, s, i).0),
{
}

} // verus!
