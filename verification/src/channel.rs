//! The channel between the polling cycle and the reader.

use crate::poller::{Command, Step, Update};
use vstd::prelude::*;

verus! {

/// `std::sync::mpsc::Sender`, the sending end of a channel. Nothing is
/// known of what it holds.
#[verifier::external_type_specification]
#[verifier::external_body]
#[verifier::reject_recursive_types(T)]
pub struct ExSender<T>(std::sync::mpsc::Sender<T>);

/// `std::sync::mpsc::Receiver`, the receiving end of a channel. Nothing is
/// known of what it holds.
#[verifier::external_type_specification]
#[verifier::external_body]
#[verifier::reject_recursive_types(T)]
pub struct ExReceiver<T>(std::sync::mpsc::Receiver<T>);

/// Puts `update` on the channel with `std::sync::mpsc::Sender::send`,
/// without waiting, and says whether it was taken: it is not when the
/// receiver is gone.
///
/// Whether the receiver is gone depends on what the reader has done, so
/// nothing is claimed of the answer.
#[verifier::external_body]
pub(crate) fn send(sender: &std::sync::mpsc::Sender<Update>, update: Update) -> (taken: bool) {
    sender.send(update).is_ok()
}

/// Takes the oldest update off the channel with
/// `std::sync::mpsc::Receiver::try_recv`, without waiting: `None` where the
/// channel holds nothing or nobody sends any more.
///
/// What comes depends on what the sender has done, so nothing is claimed of
/// it.
#[verifier::external_body]
pub(crate) fn try_receive(receiver: &std::sync::mpsc::Receiver<Update>) -> (received: Option<
    Update,
>) {
    receiver.try_recv().ok()
}

/// Publishes what `step` has to publish, if anything, and returns what to
/// do next.
///
/// An update that nobody can receive any more is dropped: the cycle goes
/// on as if it had been delivered, so the command is that of `step`
/// whatever became of the update.
pub fn publish(sender: &std::sync::mpsc::Sender<Update>, step: Step) -> (command: Command)
    ensures
        command == step.command,
{
    let Step { publish, command } = step;
    match publish {
        Some(update) => {
            let _ = send(sender, update);
        },
        None => {},
    }
    command
}

} // verus!
