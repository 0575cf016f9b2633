//! The notification sink: the object whose methods the notification service
//! calls, one per kind of notification.
//!
//! Every method answers with the success status, whatever became of the event:
//! the service may abort a desktop operation on a failure status. An event that
//! cannot be resolved or delivered is dropped, never retried.

use vstd::prelude::*;
use crossbeam_channel::Sender;
use crate::channel::{try_send, DropReason, Refused};
use crate::event::{DesktopID, HRESULT, HWND, VirtualDesktopEvent};
use crate::resolve::{changed_event, desktop_changed_event, listing_view};

verus! {

/// What became of the event of one notification.
#[derive(Clone, Copy, Debug, PartialEq, Eq, Structural)]
pub enum Delivery {
    /// The notification gave no event, and the channel was not touched.
    NotAttempted,
    /// The event was offered once and the channel took it.
    Sent(VirtualDesktopEvent),
    /// The event was offered once and the channel handed it back.
    Dropped(VirtualDesktopEvent, DropReason),
}

impl Delivery {
    /// The event that was offered to the channel, if one was.
    pub open spec fn offered(self) -> Option<VirtualDesktopEvent> {
        match self {
            Delivery::NotAttempted => None,
            Delivery::Sent(event) => Some(event),
            Delivery::Dropped(event, _) => Some(event),
        }
    }
}

/// The answer to one notification: the status for the service, and what
/// became of the event.
#[derive(Clone, Copy, Debug, PartialEq, Eq, Structural)]
pub struct Handled {
    pub status: HRESULT,
    pub delivery: Delivery,
}

/// The event of a created desktop: one where the lookup of its position
/// succeeded, none where it failed.
pub open spec fn created_event(lookup: Result<usize, HRESULT>) -> Option<VirtualDesktopEvent> {
    match lookup {
        Ok(index) => Some(VirtualDesktopEvent::DesktopCreated(index)),
        Err(_) => None,
    }
}

/// The event of a destroyed desktop: one where the lookup of its position
/// succeeded, none where it failed.
pub open spec fn destroyed_event(lookup: Result<usize, HRESULT>) -> Option<VirtualDesktopEvent> {
    match lookup {
        Ok(index) => Some(VirtualDesktopEvent::DesktopDestroyed(index)),
        Err(_) => None,
    }
}

/// What became of `event`, given the channel's answer to the one offer of it.
pub open spec fn delivery_for(event: VirtualDesktopEvent, answer: Result<(), Refused>) -> Delivery {
    match answer {
        Ok(_) => Delivery::Sent(event),
        Err(refused) => Delivery::Dropped(refused.event, refused.reason),
    }
}

/// Records what became of `event` from the channel's answer to the offer:
/// sent where the channel took it, dropped with the channel's reason where
/// it did not.
pub fn delivery_of(event: VirtualDesktopEvent, answer: Result<(), Refused>) -> (delivery: Delivery)
    ensures
        delivery == delivery_for(event, answer),
{
    match answer {
        Ok(_) => Delivery::Sent(event),
        Err(refused) => Delivery::Dropped(refused.event, refused.reason),
    }
}

/// The callback object. It owns the sending end of the event channel.
pub struct VirtualDesktopChangeListener {
    sender: Sender<VirtualDesktopEvent>,
}

impl VirtualDesktopChangeListener {
    /// Makes the sink that will feed `sender`'s channel.
    pub fn create(sender: Sender<VirtualDesktopEvent>) -> (listener: VirtualDesktopChangeListener)
        ensures
            listener.sender() == sender,
    {
        VirtualDesktopChangeListener { sender }
    }

    /// The sending end that the sink feeds.
    pub closed spec fn sender(&self) -> Sender<VirtualDesktopEvent> {
        self.sender
    }

    /// Offers `event`, if there is one, to the channel, once and without
    /// waiting.
    pub fn forward(&self, event: Option<VirtualDesktopEvent>) -> (delivery: Delivery)
        ensures
            delivery.offered() == event,
            event is None <==> delivery == Delivery::NotAttempted,
    {
        match event {
            None => Delivery::NotAttempted,
            Some(event) => delivery_of(event, try_send(&self.sender, event)),
        }
    }

    /// A desktop was created; `lookup` is the position that its identifier
    /// resolved to.
    pub fn virtual_desktop_created(&self, lookup: Result<usize, HRESULT>) -> (handled: Handled)
        ensures
            handled.status == HRESULT::ok(),
            handled.delivery.offered() == created_event(lookup),
            lookup is Err ==> handled.delivery == Delivery::NotAttempted,
            lookup matches Ok(index) ==> handled.delivery.offered() == Some(
                VirtualDesktopEvent::DesktopCreated(index),
            ),
    {
        let event = match lookup {
            Ok(index) => Some(VirtualDesktopEvent::DesktopCreated(index)),
            Err(_) => None,
        };
        Handled { status: HRESULT::ok(), delivery: self.forward(event) }
    }

    /// The destruction of a desktop has begun. Nothing is forwarded.
    pub fn virtual_desktop_destroy_begin(&self) -> (handled: Handled)
        ensures
            handled == (Handled { status: HRESULT::ok(), delivery: Delivery::NotAttempted }),
    {
        Handled { status: HRESULT::ok(), delivery: Delivery::NotAttempted }
    }

    /// The destruction of a desktop has failed. Nothing is forwarded.
    pub fn virtual_desktop_destroy_failed(&self) -> (handled: Handled)
        ensures
            handled == (Handled { status: HRESULT::ok(), delivery: Delivery::NotAttempted }),
    {
        Handled { status: HRESULT::ok(), delivery: Delivery::NotAttempted }
    }

    /// A desktop was destroyed; `lookup` is the position that its identifier
    /// resolved to, looked up before the identifier became invalid.
    pub fn virtual_desktop_destroyed(&self, lookup: Result<usize, HRESULT>) -> (handled: Handled)
        ensures
            handled.status == HRESULT::ok(),
            handled.delivery.offered() == destroyed_event(lookup),
            lookup is Err ==> handled.delivery == Delivery::NotAttempted,
            lookup matches Ok(index) ==> handled.delivery.offered() == Some(
                VirtualDesktopEvent::DesktopDestroyed(index),
            ),
    {
        let event = match lookup {
            Ok(index) => Some(VirtualDesktopEvent::DesktopDestroyed(index)),
            Err(_) => None,
        };
        Handled { status: HRESULT::ok(), delivery: self.forward(event) }
    }

    /// The focus moved to the window with the handle `hwnd`.
    pub fn view_virtual_desktop_changed(&self, hwnd: HWND) -> (handled: Handled)
        ensures
            handled.status == HRESULT::ok(),
            handled.delivery.offered() == Some(VirtualDesktopEvent::WindowChanged(hwnd)),
    {
        let event = Some(VirtualDesktopEvent::WindowChanged(hwnd));
        Handled { status: HRESULT::ok(), delivery: self.forward(event) }
    }

    /// The current desktop changed from `old_id` to `new_id`; `listing` is the
    /// desktop list as it stands now.
    pub fn current_virtual_desktop_changed(
        &self,
        listing: &Result<Vec<DesktopID>, HRESULT>,
        old_id: DesktopID,
        new_id: DesktopID,
    ) -> (handled: Handled)
        ensures
            handled.status == HRESULT::ok(),
            handled.delivery.offered() == changed_event(listing_view(*listing), old_id, new_id),
            handled.delivery != Delivery::NotAttempted <==> (listing matches Ok(desktops)
                && desktops@.contains(old_id) && desktops@.contains(new_id)),
    {
        let event = desktop_changed_event(listing, old_id, new_id);
        Handled { status: HRESULT::ok(), delivery: self.forward(event) }
    }
}

} // verus!
