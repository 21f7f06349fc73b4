//! Requests: a message that carries the slot for its own response.

use vstd::prelude::*;
use futures::channel::oneshot::{Canceled, Receiver, Sender};
use crate::error::ResponseLost;
use crate::text::Describe;

verus! {

/// `futures::channel::oneshot::Sender`, the writing side of a slot for one value. Verus sees
/// nothing inside.
#[verifier::external_type_specification]
#[verifier::external_body]
#[verifier::reject_recursive_types(T)]
pub struct ExSlotSender<T>(Sender<T>);

/// `futures::channel::oneshot::Receiver`, the reading side of a slot for one value. Verus sees
/// nothing inside.
#[verifier::external_type_specification]
#[verifier::external_body]
#[verifier::reject_recursive_types(T)]
pub struct ExSlotReceiver<T>(Receiver<T>);

/// `futures::channel::oneshot::Canceled`, what the reading side of a slot fails with.
#[verifier::external_type_specification]
#[verifier::external_body]
pub struct ExCanceled(Canceled);

/// Calls `futures::channel::oneshot::channel`, which makes a slot for one value and hands out
/// its two sides.
///
/// Trusted: nothing is claimed of the result.
#[verifier::external_body]
fn open_slot<Rsp>() -> (sides: (Sender<Rsp>, Receiver<Rsp>)) {
    futures::channel::oneshot::channel()
}

/// Calls `futures::channel::oneshot::Sender::send`, which puts `value` into the slot unless
/// the reading side is gone.
///
/// Trusted: a value that was not taken comes back as it was given.
#[verifier::external_body]
fn fill_slot<Rsp>(sender: Sender<Rsp>, value: Rsp) -> (sent: Result<(), Rsp>)
    ensures
        sent matches Err(returned) ==> returned == value,
{
    sender.send(value)
}

/// Calls `futures::channel::oneshot::Receiver::try_recv`, which takes the value out of the
/// slot if one is there, and fails if the writing side was dropped without giving one.
///
/// Trusted: nothing is claimed of the result, which depends on what the holder of the writing
/// side has done.
#[verifier::external_body]
fn look_into_slot<Rsp>(receiver: &mut Receiver<Rsp>) -> (found: Result<Option<Rsp>, ResponseLost>) {
    receiver.try_recv().map_err(|_| ResponseLost)
}

/// One call in flight: what is asked, and the slot that takes the one response.
#[verifier::reject_recursive_types(Rsp)]
pub struct Request<Req, Rsp> {
    pub content: Req,
    pub response_sender: Sender<Rsp>,
}

/// The reading side of the slot of a request.
#[verifier::reject_recursive_types(Rsp)]
pub struct Response<Rsp> {
    receiver: Receiver<Rsp>,
}

/// What a caller learns when it looks for the response.
#[verifier::reject_recursive_types(Rsp)]
pub enum Awaited<Rsp> {
    /// The response.
    Ready(Rsp),
    /// Nobody has responded yet. The reading side comes back, to look again later.
    Pending(Response<Rsp>),
    /// The request was dropped before anyone responded.
    Lost,
}

/// What a caller learns from what the slot held.
pub open spec fn awaited_of<Rsp>(
    found: Result<Option<Rsp>, ResponseLost>,
    response: Response<Rsp>,
) -> Awaited<Rsp> {
    match found {
        Ok(Some(value)) => Awaited::Ready(value),
        Ok(None) => Awaited::Pending(response),
        Err(_) => Awaited::Lost,
    }
}

/// What a caller learns from what the slot held: a value is the response, an empty slot asks
/// to look again with `response`, and a slot whose writing side is gone gives nothing, ever.
pub fn awaited<Rsp>(found: Result<Option<Rsp>, ResponseLost>, response: Response<Rsp>) -> (state:
    Awaited<Rsp>)
    ensures
        state == awaited_of(found, response),
{
    match found {
        Ok(Some(value)) => Awaited::Ready(value),
        Ok(None) => Awaited::Pending(response),
        Err(_) => Awaited::Lost,
    }
}

impl<Req, Rsp> Request<Req, Rsp> {
    /// A request for `content`, and the reading side of its response.
    pub fn new(content: Req) -> (pair: (Request<Req, Rsp>, Response<Rsp>))
        ensures
            pair.0.content == content,
    {
        let (response_sender, receiver) = open_slot();
        (Request { content, response_sender }, Response { receiver })
    }

    /// Resolves the request with `response`. Where the caller no longer waits, `response`
    /// comes back.
    pub fn respond(self, response: Rsp) -> (sent: Result<(), Rsp>)
        ensures
            sent matches Err(returned) ==> returned == response,
    {
        fill_slot(self.response_sender, response)
    }
}

impl<Rsp> Response<Rsp> {
    /// Looks for the response, without waiting.
    pub fn poll(self) -> (state: Awaited<Rsp>) {
        let mut receiver = self.receiver;
        let found = look_into_slot(&mut receiver);
        awaited(found, Response { receiver })
    }
}

/// The textual form of a request is that of what it asks.
impl<Req: Describe, Rsp> Describe for Request<Req, Rsp> {
    open spec fn text(&self) -> Seq<char> {
        self.content.text()
    }

    fn describe(&self) -> (text: String) {
        self.content.describe()
    }
}

} // verus!
