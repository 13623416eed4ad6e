//! The decisions of a stream of the shell's answers to one request: the
//! request goes to the shell on the first poll only, each poll yields the
//! next answer, waits for one, or ends the stream, and an answer that
//! arrives after the stream was dropped tells the step that its task has
//! finished. Polling, waking and the channel itself are the executor's.
use vstd::prelude::*;

verus! {

/// What the stream's channel held when it was polled.
pub enum Received<T> {
    /// The next answer.
    Item(T),
    /// Nothing yet.
    Empty,
    /// Nothing, and nothing will come: the sending side is gone.
    Closed,
}

/// What a poll of the stream yields.
#[derive(Debug, PartialEq, Eq)]
pub enum Polled<T> {
    /// The next answer, or `None` at the end of the stream.
    Ready(Option<T>),
    /// No answer yet; the poller is woken when one arrives.
    Pending,
}

/// What the stream remembers between polls.
#[derive(Debug, Clone, Copy, PartialEq, Eq, Structural)]
pub struct StreamState {
    /// The request has not been sent to the shell yet.
    pub request_pending: bool,
    /// A poller waits to be woken by the next answer.
    pub waker_registered: bool,
}

/// The state after a poll has started: the request, if pending, is sent.
pub open spec fn begun(s: StreamState) -> StreamState {
    StreamState { request_pending: false, ..s }
}

impl StreamState {
    /// A stream that has not been polled: its request is sent on the first
    /// poll, so nothing goes to the shell until something waits for an
    /// answer.
    pub fn new() -> (s: Self)
        ensures
            s.request_pending,
            !s.waker_registered,
    {
        StreamState { request_pending: true, waker_registered: false }
    }

    /// Start a poll. Returns whether the request has to be sent to the shell
    /// now.
    pub fn begin_poll(&mut self) -> (send: bool)
        ensures
            send == old(self).request_pending,
            *final(self) == begun(*old(self)),
    {
        let send = self.request_pending;
        self.request_pending = false;
        send
    }

    /// Finish a poll with what the channel held: an answer is yielded, an
    /// empty channel registers the poller to be woken, and a closed one ends
    /// the stream.
    pub fn finish_poll<T>(&mut self, received: Received<T>) -> (p: Polled<T>)
        ensures
            match received {
                Received::Item(x) => p == Polled::Ready(Some(x)) && *final(self) == *old(self),
                Received::Empty => p == Polled::<T>::Pending && *final(self) == (StreamState {
                    waker_registered: true,
                    ..*old(self)
                }),
                Received::Closed => p == Polled::<T>::Ready(None) && *final(self) == *old(self),
            },
    {
        match received {
            Received::Item(x) => Polled::Ready(Some(x)),
            Received::Empty => {
                self.waker_registered = true;
                Polled::Pending
            },
            Received::Closed => Polled::Ready(None),
        }
    }

    /// An answer was put in the channel. Returns whether a waiting poller
    /// has to be woken; the registration is used up.
    pub fn deliver(&mut self) -> (wake: bool)
        ensures
            wake == old(self).waker_registered,
            *final(self) == (StreamState { waker_registered: false, ..*old(self) }),
    {
        let wake = self.waker_registered;
        self.waker_registered = false;
        wake
    }
}

/// What the step feeding the stream reports for an answer: the task has
/// finished once the stream is gone.
pub fn step_outcome(stream_alive: bool) -> (r: Result<(), ()>)
    ensures
        r is Ok <==> stream_alive,
{
    if stream_alive {
        Ok(())
    } else {
        Err(())
    }
}

/// The request is sent once, on the first poll: a new stream's first poll
/// sends it, and no later poll does, whatever happened in between.
pub proof fn law_request_sent_once(s: StreamState)
    ensures
        !begun(s).request_pending,
        begun(begun(s)) == begun(s),
        !begun(StreamState { waker_registered: true, ..begun(s) }).request_pending,
{
}

} // verus!
