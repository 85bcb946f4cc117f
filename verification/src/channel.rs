//! The channel that carries commands to the stream thread.
use std::sync::mpsc::Sender;
use vstd::prelude::*;

verus! {

/// The sending half of a channel, from the standard library.
#[verifier::external_type_specification]
#[verifier::external_body]
#[verifier::reject_recursive_types(T)]
pub struct ExSender<T>(Sender<T>);

/// Messages sent to the stream owner thread.
pub enum StreamThreadMessage<C> {
    /// A command for the runner.
    Command(C),
    /// The request to give up the stream.
    Stop,
}

/// Sends messages to a stream owner thread.
#[verifier::reject_recursive_types(C)]
pub struct CommandSender<C> {
    sender: Sender<StreamThreadMessage<C>>,
    log: Ghost<Seq<Sending<C>>>,
}

/// A message that was handed to a channel, and whether the channel accepted it.
pub struct Sending<C> {
    pub message: StreamThreadMessage<C>,
    pub accepted: bool,
}

impl<C> CommandSender<C> {
    /// The messages that were handed to the channel through this sender, oldest first.
    pub closed spec fn log(self) -> Seq<Sending<C>> {
        self.log@
    }

    /// Takes over the sending half of a channel.
    pub fn new(sender: Sender<StreamThreadMessage<C>>) -> (r: Self)
        ensures
            r.log() == Seq::<Sending<C>>::empty(),
    {
        CommandSender { sender, log: Ghost(Seq::empty()) }
    }
}

/// The messages that the channel accepted, oldest first.
pub open spec fn accepted_messages<C>(log: Seq<Sending<C>>) -> Seq<StreamThreadMessage<C>>
    decreases log.len(),
{
    if log.len() == 0 {
        Seq::empty()
    } else if log.last().accepted {
        accepted_messages(log.drop_last()).push(log.last().message)
    } else {
        accepted_messages(log.drop_last())
    }
}

/// The commands among `messages`, in order.
pub open spec fn commands_of<C>(messages: Seq<StreamThreadMessage<C>>) -> Seq<C>
    decreases messages.len(),
{
    if messages.len() == 0 {
        Seq::empty()
    } else {
        let rest = commands_of(messages.skip(1));
        match messages[0] {
            StreamThreadMessage::Command(command) => seq![command] + rest,
            StreamThreadMessage::Stop => rest,
        }
    }
}

/// `std::sync::mpsc::Sender::send`: the channel accepts `message`, or hands it back where the
/// receiving half is gone. Which of the two happens is up to the receiving thread.
#[verifier::external_body]
pub(crate) fn channel_send<C>(
    sender: &mut CommandSender<C>,
    message: StreamThreadMessage<C>,
) -> (r: Result<(), StreamThreadMessage<C>>)
    ensures
        final(sender).log() == old(sender).log().push((Sending { message, accepted: r is Ok })),
        r matches Err(back) ==> back == message,
{
    match sender.sender.send(message) {
        Ok(()) => Ok(()),
        Err(std::sync::mpsc::SendError(back)) => Err(back),
    }
}

} // verus!
