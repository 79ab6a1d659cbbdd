//! Channel plumbing between the HTTP handlers and the cooperative tasks:
//! the bounded credentials queue, and the request/response error taxonomy.

use vstd::prelude::*;

use crate::wifi::Credentials;

verus! {

/// Why a request could not be served.
#[derive(Debug)]
pub enum ReqError<Req> {
    /// The channel's receiver is gone; the request is handed back.
    Closed(Req),
    /// The consumer took the request but dropped the reply without
    /// answering.
    RspCanceled,
}

/// Why a fallible request could not be served.
#[derive(Debug)]
pub enum TryReqError<Req, E> {
    /// The consumer answered, reporting this failure.
    Error(E),
    /// The channel's receiver is gone; the request is handed back.
    Closed(Req),
    /// The consumer took the request but dropped the reply without
    /// answering.
    RspCanceled,
}

/// Flatten a served reply that itself carries a result: a served failure
/// becomes `Error`, and channel failures pass through.
pub fn flatten_reply<Req, Rsp, E>(reply: Result<Result<Rsp, E>, ReqError<Req>>) -> (r: Result<
    Rsp,
    TryReqError<Req, E>,
>)
    ensures
        match reply {
            Ok(Ok(rsp)) => r matches Ok(out) && out == rsp,
            Ok(Err(e)) => r matches Err(TryReqError::Error(out)) && out == e,
            Err(ReqError::Closed(req)) => r matches Err(TryReqError::Closed(out)) && out == req,
            Err(ReqError::RspCanceled) => r matches Err(TryReqError::RspCanceled),
        },
{
    match reply {
        Ok(Ok(rsp)) => Ok(rsp),
        Ok(Err(error)) => Err(TryReqError::Error(error)),
        Err(ReqError::Closed(req)) => Err(TryReqError::Closed(req)),
        Err(ReqError::RspCanceled) => Err(TryReqError::RspCanceled),
    }
}

#[verifier::external_type_specification]
#[verifier::external_body]
pub struct ExDefaultRecycle(thingbuf::recycling::DefaultRecycle);

#[verifier::external_type_specification]
#[verifier::external_body]
#[verifier::reject_recursive_types(T)]
#[verifier::reject_recursive_types(R)]
pub struct ExSender<T, R>(thingbuf::mpsc::Sender<T, R>);

#[verifier::external_type_specification]
#[verifier::external_body]
#[verifier::reject_recursive_types(T)]
#[verifier::reject_recursive_types(R)]
pub struct ExReceiver<T, R>(thingbuf::mpsc::Receiver<T, R>);

/// The credentials waiting in a channel's buffer, oldest first.
pub uninterp spec fn queued(rx: &thingbuf::mpsc::Receiver<Credentials>) -> Seq<Credentials>;

/// The fixed number of slots a channel was created with.
pub uninterp spec fn queue_bound(rx: &thingbuf::mpsc::Receiver<Credentials>) -> nat;

/// The bounded queue carrying credentials from the HTTP handler to the WiFi
/// coordinator. It owns both halves of the underlying channel, so the
/// channel can never close under it.
pub struct CredentialsChannel {
    /// The sending half.
    pub tx: thingbuf::mpsc::Sender<Credentials>,
    /// The receiving half, whose buffer `queued` describes.
    pub rx: thingbuf::mpsc::Receiver<Credentials>,
}

impl CredentialsChannel {
    /// The credentials waiting in the queue, oldest first.
    pub open spec fn view(&self) -> Seq<Credentials> {
        queued(&self.rx)
    }

    /// The fixed number of slots.
    pub open spec fn spec_capacity(&self) -> nat {
        queue_bound(&self.rx)
    }

    /// An empty queue with the given number of slots.
    ///
    /// Relies on `thingbuf::mpsc::channel`: a fresh bounded channel of the
    /// given capacity, holding nothing.
    #[verifier::external_body]
    pub fn new(capacity: usize) -> (r: CredentialsChannel)
        requires
            capacity >= 1,
        ensures
            queued(&r.rx) == Seq::<Credentials>::empty(),
            queue_bound(&r.rx) == capacity,
    {
        let (tx, rx) = thingbuf::mpsc::channel(capacity);
        CredentialsChannel { tx, rx }
    }

    /// Enqueue credentials without waiting; a full queue hands them back
    /// intact.
    ///
    /// Relies on `thingbuf::mpsc::Sender::try_send`: puts the value at the
    /// back of the queue, or returns it in `Full` when as many values are
    /// buffered as the channel was created for. `Closed` cannot come back
    /// because this queue owns the receiver half.
    #[verifier::external_body]
    pub fn try_send(&mut self, credentials: Credentials) -> (r: Result<(), Credentials>)
        ensures
            queue_bound(&final(self).rx) == queue_bound(&old(self).rx),
            match r {
                Ok(()) => {
                    &&& queued(&old(self).rx).len() < queue_bound(&old(self).rx)
                    &&& queued(&final(self).rx) == queued(&old(self).rx).push(credentials)
                },
                Err(c) => {
                    &&& queued(&old(self).rx).len() >= queue_bound(&old(self).rx)
                    &&& c == credentials
                    &&& queued(&final(self).rx) == queued(&old(self).rx)
                },
            },
    {
        match self.tx.try_send(credentials) {
            Ok(()) => Ok(()),
            Err(e) => Err(e.into_inner()),
        }
    }

    /// Take the oldest queued credentials, if any, without waiting.
    ///
    /// Relies on `thingbuf::mpsc::Receiver::try_recv`: takes the value at
    /// the front of the queue, or reports the queue empty. `Closed` cannot
    /// come back because this queue owns the sender half.
    #[verifier::external_body]
    pub fn try_recv(&mut self) -> (r: Option<Credentials>)
        ensures
            queue_bound(&final(self).rx) == queue_bound(&old(self).rx),
            match r {
                Some(c) => {
                    &&& queued(&old(self).rx).len() > 0
                    &&& c == queued(&old(self).rx)[0]
                    &&& queued(&final(self).rx) == queued(&old(self).rx).drop_first()
                },
                None => {
                    &&& queued(&old(self).rx).len() == 0
                    &&& queued(&final(self).rx) == queued(&old(self).rx)
                },
            },
    {
        match self.rx.try_recv() {
            Ok(c) => Some(c),
            Err(_) => None,
        }
    }

    /// The fixed number of slots.
    ///
    /// Relies on `thingbuf::mpsc::Sender::capacity`: the total capacity the
    /// channel was created with.
    #[verifier::external_body]
    pub fn capacity(&self) -> (r: usize)
        ensures
            r == queue_bound(&self.rx),
    {
        self.tx.capacity()
    }
}

} // verus!
