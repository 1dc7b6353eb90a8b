use vstd::prelude::*;

use tokio::sync::mpsc::{UnboundedReceiver, UnboundedSender};

verus! {

#[verifier::external_type_specification]
#[verifier::external_body]
#[verifier::reject_recursive_types(T)]
pub struct ExUnboundedSender<T>(UnboundedSender<T>);

#[verifier::external_type_specification]
#[verifier::external_body]
#[verifier::reject_recursive_types(T)]
pub struct ExUnboundedReceiver<T>(UnboundedReceiver<T>);

/// The sending half of one connection's outbound queue, together with the
/// frames that the queue has accepted so far, in order.
pub struct FrameSender {
    sender: UnboundedSender<String>,
    accepted: Ghost<Seq<Seq<char>>>,
}

impl FrameSender {
    /// The frames that the queue has accepted, oldest first.
    pub closed spec fn accepted(&self) -> Seq<Seq<char>> {
        self.accepted@
    }
}

/// Relies on `tokio::sync::mpsc::unbounded_channel`: a fresh FIFO queue with
/// no capacity bound, split into its sending and receiving halves.
#[verifier::external_body]
fn unbounded_frame_channel() -> (UnboundedSender<String>, UnboundedReceiver<String>) {
    tokio::sync::mpsc::unbounded_channel()
}

/// A fresh outbound queue: its sending half, which has accepted nothing yet,
/// and its receiving half.
pub(crate) fn new_frame_queue() -> (r: (FrameSender, UnboundedReceiver<String>))
    ensures
        r.0.accepted() == Seq::<Seq<char>>::empty(),
{
    let (sender, receiver) = unbounded_frame_channel();
    (FrameSender { sender, accepted: Ghost(Seq::empty()) }, receiver)
}

/// Relies on `UnboundedSender::send`: without waiting, the frame is either
/// appended at the back of the queue (`Ok`) or refused because the receiving
/// half is gone (`Err`). Which of the two happens depends on the receiver.
#[verifier::external_body]
pub(crate) fn offer_frame(queue: &mut FrameSender, frame: String) -> (accepted: bool)
    ensures
        accepted ==> final(queue).accepted() == old(queue).accepted().push(frame@),
        !accepted ==> final(queue).accepted() == old(queue).accepted(),
{
    queue.sender.send(frame).is_ok()
}

} // verus!
