//! Bridges a desktop-notification callback interface to a stream of typed events.
//!
//! The callback object ([`sink::VirtualDesktopChangeListener`]) turns each
//! notification into at most one [`event::VirtualDesktopEvent`] and offers it to a
//! channel without blocking. The handle ([`listener::RegisteredListener`]) records
//! one live registration and hands out its cookie for unregistration exactly once.

pub mod channel;
pub mod event;
pub mod listener;
pub mod resolve;
pub mod sink;
