//! The event channel: the ends of a `crossbeam_channel` channel and the calls
//! that the library makes on them.
//!
//! Nothing here is proved. Each item states what the channel crate's source
//! shows of the call it makes, and the rest of the library is verified against
//! those statements.

use vstd::prelude::*;
use crossbeam_channel::{Receiver, Sender, TrySendError};
use crate::event::VirtualDesktopEvent;

verus! {

/// The sending end, `crossbeam_channel::Sender`. Verus sees nothing inside it.
#[verifier::external_type_specification]
#[verifier::external_body]
#[verifier::reject_recursive_types(T)]
pub struct ExSender<T>(Sender<T>);

/// The receiving end, `crossbeam_channel::Receiver`. Verus sees nothing inside it.
#[verifier::external_type_specification]
#[verifier::external_body]
#[verifier::reject_recursive_types(T)]
pub struct ExReceiver<T>(Receiver<T>);

/// Why the channel did not take an event.
#[derive(Clone, Copy, Debug, PartialEq, Eq, Structural)]
pub enum DropReason {
    /// The buffer was at its capacity.
    Full,
    /// No receiving end was left.
    Disconnected,
}

/// An event that the channel handed back, with the reason.
#[derive(Clone, Copy, Debug, PartialEq, Eq, Structural)]
pub struct Refused {
    pub event: VirtualDesktopEvent,
    pub reason: DropReason,
}

/// The channel that a receiving end belongs to.
///
/// Two receiving ends have the same one exactly where
/// `Receiver::same_channel` holds of them.
pub uninterp spec fn channel_of(receiver: Receiver<VirtualDesktopEvent>) -> int;

/// `Sender::try_send`: offers `event` to the channel without waiting.
///
/// Whether the channel takes it depends on what the other threads have done,
/// so nothing is claimed of that. What is claimed: an event that the channel
/// does not take comes back as it was given.
#[verifier::external_body]
pub(crate) fn try_send(sender: &Sender<VirtualDesktopEvent>, event: VirtualDesktopEvent) -> (sent:
    Result<(), Refused>)
    ensures
        sent matches Err(refused) ==> refused.event == event,
{
    match sender.try_send(event) {
        Ok(()) => Ok(()),
        Err(TrySendError::Full(event)) => Err(Refused { event, reason: DropReason::Full }),
        Err(TrySendError::Disconnected(event)) => Err(
            Refused { event, reason: DropReason::Disconnected },
        ),
    }
}

/// `Receiver::clone`: another receiving end of the same channel.
#[verifier::external_body]
pub(crate) fn clone_receiver(receiver: &Receiver<VirtualDesktopEvent>) -> (cloned: Receiver<
    VirtualDesktopEvent,
>)
    ensures
        channel_of(cloned) == channel_of(*receiver),
{
    receiver.clone()
}

} // verus!
