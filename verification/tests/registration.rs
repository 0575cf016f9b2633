use crossbeam_channel::{unbounded, TryRecvError};
use desktop_events::channel::DropReason;
use desktop_events::event::{VirtualDesktopEvent, HRESULT};
use desktop_events::listener::RegisteredListener;
use desktop_events::sink::{Delivery, VirtualDesktopChangeListener};

#[test]
fn registered_handle_receives_the_created_desktop() {
    let (sender, receiver) = unbounded();
    let listener = VirtualDesktopChangeListener::create(sender);
    let handle = RegisteredListener::register(receiver, HRESULT(0), 17).ok().unwrap();
    listener.virtual_desktop_created(Ok(2));
    assert_eq!(handle.get_receiver().try_recv(), Ok(VirtualDesktopEvent::DesktopCreated(2)));
}

#[test]
fn refused_registration_gives_the_status_and_no_handle() {
    let (_sender, receiver) = unbounded();
    let made = RegisteredListener::register(receiver, HRESULT(-2147467259), 0);
    assert_eq!(made.err(), Some(HRESULT(-2147467259)));
}

#[test]
fn refused_registration_closes_its_receiving_end() {
    let (sender, receiver) = unbounded();
    let listener = VirtualDesktopChangeListener::create(sender);
    assert!(RegisteredListener::register(receiver, HRESULT(-2147024891), 0).is_err());
    assert_eq!(
        listener.virtual_desktop_created(Ok(0)).delivery,
        Delivery::Dropped(VirtualDesktopEvent::DesktopCreated(0), DropReason::Disconnected)
    );
}

#[test]
fn cookie_is_handed_out_exactly_once() {
    let (_sender, receiver) = unbounded();
    let mut handle = RegisteredListener::register(receiver, HRESULT(0), 0xc00c1e).ok().unwrap();
    assert_eq!(handle.unregister(), Some(0xc00c1e));
    assert_eq!(handle.unregister(), None);
    handle.unregistered(HRESULT(0));
    assert_eq!(handle.unregister(), None);
}

#[test]
fn failed_unregistration_is_not_retried() {
    let (_sender, receiver) = unbounded();
    let mut handle = RegisteredListener::register(receiver, HRESULT(0), 3).ok().unwrap();
    assert_eq!(handle.unregister(), Some(3));
    handle.unregistered(HRESULT(-2147417848));
    assert_eq!(handle.unregister(), None);
}

#[test]
fn report_before_the_cookie_was_asked_for_changes_nothing() {
    let (_sender, receiver) = unbounded();
    let mut handle = RegisteredListener::register(receiver, HRESULT(0), 44).ok().unwrap();
    handle.unregistered(HRESULT(0));
    assert_eq!(handle.unregister(), Some(44));
}

#[test]
fn zero_and_largest_cookies_are_kept() {
    let (_sender, first) = unbounded();
    let (_other, second) = unbounded();
    let mut low = RegisteredListener::register(first, HRESULT(0), 0).ok().unwrap();
    let mut high = RegisteredListener::register(second, HRESULT(0), u32::MAX).ok().unwrap();
    assert_eq!(low.unregister(), Some(0));
    assert_eq!(high.unregister(), Some(u32::MAX));
}

#[test]
fn late_callback_after_the_handle_is_gone_fails_silently() {
    let (sender, receiver) = unbounded();
    let listener = VirtualDesktopChangeListener::create(sender);
    let mut handle = RegisteredListener::register(receiver, HRESULT(0), 21).ok().unwrap();
    assert_eq!(handle.unregister(), Some(21));
    handle.unregistered(HRESULT(0));
    drop(handle);
    let handled = listener.virtual_desktop_destroyed(Ok(1));
    assert_eq!(handled.status, HRESULT(0));
    assert_eq!(
        handled.delivery,
        Delivery::Dropped(VirtualDesktopEvent::DesktopDestroyed(1), DropReason::Disconnected)
    );
}

#[test]
fn get_receiver_gives_an_end_of_the_same_channel() {
    let (_sender, receiver) = unbounded();
    let (_other_sender, other) = unbounded::<VirtualDesktopEvent>();
    let first_end = receiver.clone();
    let handle = RegisteredListener::register(receiver, HRESULT(0), 1).ok().unwrap();
    let cloned = handle.get_receiver();
    assert!(cloned.same_channel(&first_end));
    assert!(!cloned.same_channel(&other));
}

#[test]
fn dropping_one_receiver_leaves_the_others_served() {
    let (sender, receiver) = unbounded();
    let listener = VirtualDesktopChangeListener::create(sender);
    let handle = RegisteredListener::register(receiver, HRESULT(0), 8).ok().unwrap();
    let first = handle.get_receiver();
    let second = handle.get_receiver();
    drop(first);
    assert_eq!(
        listener.virtual_desktop_created(Ok(1)).delivery,
        Delivery::Sent(VirtualDesktopEvent::DesktopCreated(1))
    );
    assert_eq!(second.try_recv(), Ok(VirtualDesktopEvent::DesktopCreated(1)));
    drop(handle);
    assert_eq!(
        listener.virtual_desktop_created(Ok(2)).delivery,
        Delivery::Sent(VirtualDesktopEvent::DesktopCreated(2))
    );
    assert_eq!(second.try_recv(), Ok(VirtualDesktopEvent::DesktopCreated(2)));
    drop(second);
    assert_eq!(
        listener.virtual_desktop_created(Ok(3)).delivery,
        Delivery::Dropped(VirtualDesktopEvent::DesktopCreated(3), DropReason::Disconnected)
    );
}

#[test]
fn receiver_sees_the_channel_closed_once_the_sink_is_gone() {
    let (sender, receiver) = unbounded();
    let listener = VirtualDesktopChangeListener::create(sender);
    let handle = RegisteredListener::register(receiver, HRESULT(0), 8).ok().unwrap();
    let consumer = handle.get_receiver();
    listener.view_virtual_desktop_changed(12);
    drop(listener);
    assert_eq!(consumer.try_recv(), Ok(VirtualDesktopEvent::WindowChanged(12)));
    assert_eq!(consumer.try_recv(), Err(TryRecvError::Disconnected));
}

#[test]
fn failure_status_keeps_no_cookie() {
    let (_sender, receiver) = unbounded();
    let made = RegisteredListener::register(receiver, HRESULT(-1), 55);
    assert_eq!(made.err(), Some(HRESULT(-1)));
}

#[test]
fn positive_status_is_a_success() {
    let (_sender, receiver) = unbounded();
    let mut handle = RegisteredListener::register(receiver, HRESULT(1), 12).ok().unwrap();
    assert_eq!(handle.unregister(), Some(12));
}

#[test]
fn status_fails_exactly_when_negative() {
    assert!(!HRESULT(0).failed());
    assert!(!HRESULT(1).failed());
    assert!(!HRESULT(i32::MAX).failed());
    assert!(HRESULT(-1).failed());
    assert!(HRESULT(i32::MIN).failed());
    assert!(HRESULT(-2147467259).failed());
}
