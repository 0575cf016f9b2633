//! The registration handle: one live registration with the notification
//! service, from the service's answer to the completed unregistration.
//!
//! The handle makes no call to the service itself. Its owner makes the calls
//! and reports back: what the registration returned goes to
//! [`RegisteredListener::register`], the teardown asks
//! [`RegisteredListener::unregister`] for the cookie to unregister, and the
//! service's answer to that goes to [`RegisteredListener::unregistered`].

use vstd::prelude::*;
use crossbeam_channel::Receiver;
use crate::channel::{channel_of, clone_receiver};
use crate::event::{HRESULT, VirtualDesktopEvent};

verus! {

/// Where a handle stands. A handle starts as `Registered` and only moves
/// forward.
#[derive(Clone, Copy, Debug, PartialEq, Eq, Structural)]
pub enum Phase {
    /// The service holds the registration.
    Registered,
    /// The cookie was handed out for unregistration; the service has not
    /// answered yet.
    Unregistering,
    /// The unregistration has returned. Nothing follows.
    Unregistered,
}

/// One step of a teardown, as the owner of the handle takes it.
#[derive(Clone, Copy, Debug, PartialEq, Eq, Structural)]
pub enum TeardownStep {
    /// The owner asks for the cookie to unregister.
    Unregister,
    /// The owner reports the status that the unregistration returned.
    Unregistered(HRESULT),
}

/// The phase after `step` was taken in `phase`.
pub open spec fn phase_after(phase: Phase, step: TeardownStep) -> Phase {
    match (phase, step) {
        (Phase::Registered, TeardownStep::Unregister) => Phase::Unregistering,
        (Phase::Unregistering, TeardownStep::Unregistered(_)) => Phase::Unregistered,
        _ => phase,
    }
}

/// The unregistration call that `step` asks for in `phase`, by its cookie.
pub open spec fn call_of(phase: Phase, cookie: u32, step: TeardownStep) -> Option<u32> {
    match (phase, step) {
        (Phase::Registered, TeardownStep::Unregister) => Some(cookie),
        _ => None,
    }
}

/// The phase after all of `steps` were taken, in order, from `phase`.
pub open spec fn phase_after_all(phase: Phase, steps: Seq<TeardownStep>) -> Phase
    decreases steps.len(),
{
    if steps.len() == 0 {
        phase
    } else {
        phase_after_all(phase_after(phase, steps[0]), steps.drop_first())
    }
}

/// The unregistration calls that `steps`, taken in order from `phase`, ask
/// for, each by its cookie.
pub open spec fn calls_of(phase: Phase, cookie: u32, steps: Seq<TeardownStep>) -> Seq<u32>
    decreases steps.len(),
{
    if steps.len() == 0 {
        Seq::empty()
    } else {
        let rest = calls_of(phase_after(phase, steps[0]), cookie, steps.drop_first());
        match call_of(phase, cookie, steps[0]) {
            Some(call) => seq![call] + rest,
            None => rest,
        }
    }
}

/// Whether the owner asks for the cookie somewhere in `steps`.
pub open spec fn asks_to_unregister(steps: Seq<TeardownStep>) -> bool {
    exists|i: int| 0 <= i < steps.len() && steps[i] == TeardownStep::Unregister
}

/// A handle that has left `Registered` asks for no unregistration call,
/// whatever steps follow, and never comes back to `Registered`.
pub proof fn lemma_no_call_after_teardown(phase: Phase, cookie: u32, steps: Seq<TeardownStep>)
    requires
        phase != Phase::Registered,
    ensures
        calls_of(phase, cookie, steps) == Seq::<u32>::empty(),
        phase_after_all(phase, steps) != Phase::Registered,
    decreases steps.len(),
{
    if steps.len() > 0 {
        lemma_no_call_after_teardown(phase_after(phase, steps[0]), cookie, steps.drop_first());
    }
}

/// Whatever steps the owner of a registered handle takes, they ask for the
/// unregistration of the handle's own cookie exactly once if the owner asks
/// for the cookie at all, and for no unregistration otherwise: none is
/// doubled, and none carries another cookie.
pub proof fn lemma_unregistered_exactly_once(cookie: u32, steps: Seq<TeardownStep>)
    ensures
        asks_to_unregister(steps) ==> calls_of(Phase::Registered, cookie, steps) == seq![cookie],
        !asks_to_unregister(steps) ==> calls_of(Phase::Registered, cookie, steps)
            == Seq::<u32>::empty(),
        asks_to_unregister(steps) <==> phase_after_all(Phase::Registered, steps)
            != Phase::Registered,
    decreases steps.len(),
{
    if steps.len() > 0 {
        let rest = steps.drop_first();
        if steps[0] == TeardownStep::Unregister {
            assert(asks_to_unregister(steps));
            lemma_no_call_after_teardown(Phase::Unregistering, cookie, rest);
            assert(seq![cookie] + Seq::<u32>::empty() == seq![cookie]);
        } else {
            lemma_unregistered_exactly_once(cookie, rest);
            if asks_to_unregister(steps) {
                let i = choose|i: int| 0 <= i < steps.len() && steps[i] == TeardownStep::Unregister;
                assert(rest[i - 1] == TeardownStep::Unregister);
            }
            if asks_to_unregister(rest) {
                let i = choose|i: int| 0 <= i < rest.len() && rest[i] == TeardownStep::Unregister;
                assert(steps[i + 1] == TeardownStep::Unregister);
            }
        }
    }
}

/// The handle of one registration. It owns the cookie that the service gave
/// and a receiving end of the event channel.
pub struct RegisteredListener {
    cookie: u32,
    receiver: Receiver<VirtualDesktopEvent>,
    phase: Phase,
}

impl RegisteredListener {
    /// The cookie that the service gave for this registration.
    pub closed spec fn cookie(&self) -> u32 {
        self.cookie
    }

    /// Where the handle stands.
    pub closed spec fn phase(&self) -> Phase {
        self.phase
    }

    /// The channel whose events the handle gives access to.
    pub closed spec fn channel(&self) -> int {
        channel_of(self.receiver)
    }

    /// Completes a registration from what the service's registration call
    /// returned: its status and the cookie that it wrote.
    ///
    /// A failure status comes back as the error, and neither a handle nor the
    /// cookie is kept. Any other status gives the handle of the registration.
    pub fn register(receiver: Receiver<VirtualDesktopEvent>, status: HRESULT, cookie: u32) -> (made:
        Result<RegisteredListener, HRESULT>)
        ensures
            status.failed() ==> (made matches Err(error) && error == status),
            !status.failed() ==> {
                &&& made matches Ok(handle)
                &&& handle.cookie() == cookie
                &&& handle.phase() == Phase::Registered
                &&& handle.channel() == channel_of(receiver)
            },
    {
        if status.failed() {
            Err(status)
        } else {
            Ok(RegisteredListener { cookie, receiver, phase: Phase::Registered })
        }
    }

    /// Another receiving end of the handle's channel.
    pub fn get_receiver(&self) -> (receiver: Receiver<VirtualDesktopEvent>)
        ensures
            channel_of(receiver) == self.channel(),
    {
        clone_receiver(&self.receiver)
    }

    /// Hands out the cookie to unregister: the first time it is asked for,
    /// and never again.
    pub fn unregister(&mut self) -> (call: Option<u32>)
        ensures
            call == call_of(old(self).phase(), old(self).cookie(), TeardownStep::Unregister),
            final(self).phase() == phase_after(old(self).phase(), TeardownStep::Unregister),
            final(self).cookie() == old(self).cookie(),
            final(self).channel() == old(self).channel(),
    {
        match self.phase {
            Phase::Registered => {
                self.phase = Phase::Unregistering;
                Some(self.cookie)
            },
            _ => None,
        }
    }

    /// Takes note that the unregistration has returned. The status is not
    /// acted on: a failed unregistration is neither reported nor retried.
    pub fn unregistered(&mut self, status: HRESULT)
        ensures
            final(self).phase() == phase_after(
                old(self).phase(),
                TeardownStep::Unregistered(status),
            ),
            final(self).cookie() == old(self).cookie(),
            final(self).channel() == old(self).channel(),
    {
        match self.phase {
            Phase::Unregistering => {
                self.phase = Phase::Unregistered;
            },
            _ => {},
        }
    }
}

} // verus!
