//! The queue between the router and a dispatcher: an unbounded channel of
//! `crossfire` whose two ends are kept together, so that what goes in at one
//! end is what comes out at the other.

use vstd::prelude::*;
use crate::command::UiCommand;

verus! {

/// An unbounded first-in, first-out queue of commands.
///
/// Trusted: the struct holds the sending and the receiving end of one
/// `crossfire::mpsc` channel. Neither end is cloned or handed out, so while
/// the queue lives the channel is open at both ends and only the methods below
/// touch it.
#[verifier::external_body]
pub struct CommandQueue {
    sender: crossfire::MTx<crossfire::mpsc::List<UiCommand>>,
    receiver: crossfire::Rx<crossfire::mpsc::List<UiCommand>>,
}

/// The commands that are in the queue, oldest first.
pub uninterp spec fn queued(queue: CommandQueue) -> Seq<UiCommand>;

impl CommandQueue {
    /// Trusted: `crossfire::mpsc::unbounded_blocking` makes a channel that
    /// holds nothing.
    #[verifier::external_body]
    pub(crate) fn new() -> (queue: CommandQueue)
        ensures
            queued(queue) == Seq::<UiCommand>::empty(),
    {
        let (sender, receiver) = crossfire::mpsc::unbounded_blocking();
        CommandQueue { sender, receiver }
    }

    /// Trusted: `crossfire::MTx::send` on an unbounded channel whose receiver
    /// is alive puts the item behind all that the channel holds, and returns
    /// at once. It fails only when the receiver is gone, which the queue rules
    /// out.
    #[verifier::external_body]
    pub(crate) fn send(&mut self, command: UiCommand) -> (sent: bool)
        ensures
            sent,
            queued(*final(self)) == queued(*old(self)).push(command),
    {
        self.sender.send(command).is_ok()
    }

    /// Trusted: `crossfire::Rx::try_recv` on a channel whose sender is alive
    /// takes out the oldest item, or returns an error at once and changes
    /// nothing when the channel holds none.
    #[verifier::external_body]
    pub(crate) fn try_recv(&mut self) -> (command: Option<UiCommand>)
        ensures
            match command {
                Some(oldest) => queued(*old(self)).len() > 0 && oldest == queued(*old(self)).first()
                    && queued(*final(self)) == queued(*old(self)).drop_first(),
                None => queued(*old(self)).len() == 0 && queued(*final(self)) == queued(
                    *old(self),
                ),
            },
    {
        self.receiver.try_recv().ok()
    }

    /// Trusted: `crossfire::ChannelShared::len`, reached through the receiver,
    /// is the number of items in the channel.
    #[verifier::external_body]
    pub(crate) fn len(&self) -> (count: usize)
        ensures
            count == queued(*self).len(),
    {
        self.receiver.len()
    }
}

} // verus!
