//! The event loop, its proxy and the handler that the loop dispatches to.

use vstd::prelude::*;
use crossbeam_channel::{Receiver, Sender};
use raw_window_handle::{HandleError, RawDisplayHandle};
use crate::channel::{
    channel_len,
    channel_send,
    channel_try_recv,
    clone_receiver,
    clone_sender,
    unbounded_channel,
};
use crate::control_flow::ControlFlow;
use crate::event::{Event, Never};
use crate::geometry::{PhysicalPosition, Scalar};

verus! {

/// A display handle of `raw_window_handle`.
#[verifier::external_type_specification]
#[verifier::external_body]
pub struct ExRawDisplayHandle(RawDisplayHandle);

/// The error of `raw_window_handle` for a handle that cannot be had.
#[verifier::external_type_specification]
#[verifier::external_body]
pub struct ExHandleError(HandleError);

/// Builds the display handle of the UIKit windowing system with
/// `UiKitDisplayHandle::new`, which takes nothing and holds nothing.
#[verifier::external_body]
fn uikit_display_handle() -> (handle: RawDisplayHandle) {
    RawDisplayHandle::UiKit(raw_window_handle::UiKitDisplayHandle::new())
}

/// Identifies a monitor.
#[derive(Clone, Copy, Debug, PartialEq, Eq, Structural, Hash)]
pub struct MonitorHandle(pub u64);

/// Why something that concerns the host could not be done.
#[derive(Clone, Copy, Debug, PartialEq, Eq, Structural, Hash)]
pub enum ExternalError {
    NotSupported,
    Os,
}

/// Why an event loop could not be made.
#[derive(Clone, Copy, Debug, PartialEq, Eq, Structural, Hash)]
pub enum ConstructionError {
    /// The caller is not on the main thread.
    NotMainThread,
    /// The process has an event loop already.
    AlreadyExists,
}

/// The error of sending to a loop that is gone; it hands the event back.
#[derive(Debug)]
pub struct EventLoopClosed<T>(pub T);

/// Records whether the process has made its event loop. The process keeps
/// one guard for its whole life.
#[derive(Debug)]
pub struct InstanceGuard {
    claimed: bool,
}

/// What the loop hands to the handler with each event.
#[verifier::reject_recursive_types(T)]
pub struct EventLoopWindowTarget<T> {
    receiver: Receiver<T>,
    sender_to_clone: Sender<T>,
}

/// The event loop of the process.
#[verifier::reject_recursive_types(T)]
pub struct EventLoop<T> {
    window_target: EventLoopWindowTarget<T>,
}

/// Sends application events to the loop from any thread.
#[verifier::reject_recursive_types(T)]
pub struct EventLoopProxy<T> {
    sender: Sender<T>,
}

/// What the loop dispatches to: one entry for events that carry no
/// application payload, and one that asks for the pending application events
/// to be handled.
pub trait EventHandler {
    /// Handles `event`. The handler may ask for another policy through
    /// `control_flow`.
    fn handle_nonuser_event(&mut self, event: Event<Never>, control_flow: &mut ControlFlow);

    /// Handles the application events that are pending.
    fn handle_user_events(&mut self, control_flow: &mut ControlFlow);
}

/// The application's side of the loop: it is called with every event.
pub trait EventCallback<T> {
    fn call(
        &mut self,
        event: Event<T>,
        window_target: &EventLoopWindowTarget<T>,
        control_flow: &mut ControlFlow,
    );
}

/// Brings the events of the loop to the application's callback.
#[verifier::reject_recursive_types(T)]
pub struct EventLoopHandler<C, T> {
    callback: C,
    event_loop: EventLoopWindowTarget<T>,
    /// The events that were handed to the callback, oldest first.
    handed: Ghost<Seq<Event<T>>>,
}

/// The events that carry `payloads` to the application, one for each payload
/// and in their order.
pub open spec fn spec_user_events<T>(payloads: Seq<T>) -> Seq<Event<T>> {
    Seq::new(payloads.len(), |i: int| Event::UserEvent(payloads[i]))
}

impl View for InstanceGuard {
    type V = bool;

    /// Whether the process has made its event loop.
    closed spec fn view(&self) -> bool {
        self.claimed
    }
}

impl InstanceGuard {
    /// The guard of a process that has made no event loop yet.
    pub fn new() -> (guard: InstanceGuard)
        ensures
            !guard@,
    {
        InstanceGuard { claimed: false }
    }

    /// Whether the process has made its event loop.
    pub fn is_claimed(&self) -> (claimed: bool)
        ensures
            claimed == self@,
    {
        self.claimed
    }
}

impl<T> EventLoopWindowTarget<T> {
    /// The sender into the loop's channel, of which every proxy holds a copy.
    pub closed spec fn spec_sender(&self) -> Sender<T> {
        self.sender_to_clone
    }

    /// The monitor at a point of the screen. No monitor is told from a point
    /// here, so there is never one.
    pub fn monitor_from_point(&self, x: Scalar, y: Scalar) -> (monitor: Option<MonitorHandle>)
        ensures
            monitor is None,
    {
        None
    }

    /// The display handle of the windowing system: always that of UIKit.
    pub fn raw_display_handle_rwh_06(&self) -> (handle: Result<RawDisplayHandle, HandleError>)
        ensures
            handle is Ok,
    {
        Ok(uikit_display_handle())
    }

    /// Where the cursor is. The host has no cursor, so the origin is given.
    pub fn cursor_position(&self) -> (position: Result<PhysicalPosition, ExternalError>)
        ensures
            position == Ok::<PhysicalPosition, ExternalError>(
                PhysicalPosition { x: Scalar { bits: 0 }, y: Scalar { bits: 0 } },
            ),
    {
        Ok(PhysicalPosition { x: Scalar { bits: 0 }, y: Scalar { bits: 0 } })
    }
}

impl<T> EventLoop<T> {
    /// Makes the event loop of the process. It can be made on the main thread
    /// only, and once only: `guard` records that it was made.
    pub fn new(guard: &mut InstanceGuard, on_main_thread: bool) -> (made: Result<
        EventLoop<T>,
        ConstructionError,
    >)
        ensures
            made is Ok <==> on_main_thread && !old(guard)@,
            !on_main_thread ==> made is Err && made->Err_0 == ConstructionError::NotMainThread,
            on_main_thread && old(guard)@ ==> made is Err && made->Err_0
                == ConstructionError::AlreadyExists,
            final(guard)@ == (old(guard)@ || on_main_thread),
    {
        if !on_main_thread {
            return Err(ConstructionError::NotMainThread);
        }
        if guard.claimed {
            return Err(ConstructionError::AlreadyExists);
        }
        guard.claimed = true;
        let (sender_to_clone, receiver) = unbounded_channel();
        Ok(EventLoop { window_target: EventLoopWindowTarget { receiver, sender_to_clone } })
    }

    /// A proxy that sends to this loop: it sends through the loop's own
    /// sender, into the channel that the loop's handler reads.
    pub fn create_proxy(&self) -> (proxy: EventLoopProxy<T>)
        ensures
            proxy.spec_sender() == self.spec_window_target().spec_sender(),
    {
        EventLoopProxy::new(clone_sender(&self.window_target.sender_to_clone))
    }

    /// What the loop hands to the handler with each event.
    pub closed spec fn spec_window_target(&self) -> EventLoopWindowTarget<T> {
        self.window_target
    }

    /// What the loop hands to the handler with each event.
    pub fn window_target(&self) -> (target: &EventLoopWindowTarget<T>)
        ensures
            *target == self.spec_window_target(),
    {
        &self.window_target
    }

    /// Gives the loop to the handler that brings its events to `callback`.
    pub fn into_handler<C: EventCallback<T>>(self, callback: C) -> (handler: EventLoopHandler<C, T>)
        ensures
            handler.spec_window_target() == self.spec_window_target(),
            handler.spec_handed() == Seq::<Event<T>>::empty(),
    {
        EventLoopHandler { callback, event_loop: self.window_target, handed: Ghost(Seq::empty()) }
    }
}

impl<T> EventLoopProxy<T> {
    /// The sender through which the proxy sends.
    pub closed spec fn spec_sender(&self) -> Sender<T> {
        self.sender
    }

    /// The proxy that sends through `sender`.
    fn new(sender: Sender<T>) -> (proxy: EventLoopProxy<T>)
        ensures
            proxy.spec_sender() == sender,
    {
        EventLoopProxy { sender }
    }

    /// Sends `event` to the loop. If the loop is gone the event comes back in
    /// the error. After a send that succeeded the caller signals the loop's
    /// wake source, whatever the loop's policy is.
    pub fn send_event(&self, event: T) -> (sent: Result<(), EventLoopClosed<T>>)
        ensures
            sent matches Err(closed) ==> closed.0 == event,
    {
        closed_or_sent(channel_send(&self.sender, event))
    }
}

impl<T> Clone for EventLoopProxy<T> {
    /// Another proxy of the same loop.
    fn clone(&self) -> (proxy: EventLoopProxy<T>)
        ensures
            proxy.spec_sender() == self.spec_sender(),
    {
        EventLoopProxy::new(clone_sender(&self.sender))
    }
}

impl<T> Clone for EventLoopWindowTarget<T> {
    /// Another handle on the same channel.
    fn clone(&self) -> (target: EventLoopWindowTarget<T>)
        ensures
            target.spec_sender() == self.spec_sender(),
    {
        EventLoopWindowTarget {
            receiver: clone_receiver(&self.receiver),
            sender_to_clone: clone_sender(&self.sender_to_clone),
        }
    }
}

/// What the outcome of a send means for the caller: the payload comes back if
/// and only if handing it to the channel failed.
pub fn closed_or_sent<T>(outcome: Result<(), T>) -> (sent: Result<(), EventLoopClosed<T>>)
    ensures
        outcome is Ok ==> sent is Ok,
        outcome matches Err(returned) ==> sent matches Err(closed) && closed.0 == returned,
{
    match outcome {
        Ok(()) => Ok(()),
        Err(returned) => Err(EventLoopClosed(returned)),
    }
}

impl<C, T> EventLoopHandler<C, T> {
    /// What the handler hands to the callback with each event.
    pub closed spec fn spec_window_target(&self) -> EventLoopWindowTarget<T> {
        self.event_loop
    }

    /// The events that the handler has handed to the callback, oldest first.
    pub closed spec fn spec_handed(&self) -> Seq<Event<T>> {
        self.handed@
    }
}

impl<C: EventCallback<T>, T> EventLoopHandler<C, T> {
    /// Calls the callback with `event` and the loop's window target, and
    /// notes that it did.
    fn hand_over(&mut self, event: Event<T>, control_flow: &mut ControlFlow)
        ensures
            final(self).spec_handed() == old(self).spec_handed().push(event),
            final(self).spec_window_target() == old(self).spec_window_target(),
    {
        proof {
            self.handed@ = self.handed@.push(event);
        }
        self.callback.call(event, &self.event_loop, control_flow);
    }

    /// Hands one application event to the callback: the payload that was
    /// taken out of the channel travels as a `UserEvent`.
    pub fn deliver_user_event(&mut self, payload: T, control_flow: &mut ControlFlow)
        ensures
            final(self).spec_handed() == old(self).spec_handed().push(Event::UserEvent(payload)),
            final(self).spec_window_target() == old(self).spec_window_target(),
    {
        self.hand_over(Event::UserEvent(payload), control_flow);
    }
}

impl<C: EventCallback<T>, T> EventHandler for EventLoopHandler<C, T> {
    /// Hands `event` to the callback with the payload type of the
    /// application. The callback is called once, with the same event; an
    /// event that carries a payload has no counterpart and is not handed on.
    fn handle_nonuser_event(&mut self, event: Event<Never>, control_flow: &mut ControlFlow)
        ensures
            final(self).spec_handed() == (match event.spec_retyped::<T>() {
                Some(retyped) => old(self).spec_handed().push(retyped),
                None => old(self).spec_handed(),
            }),
            final(self).spec_window_target() == old(self).spec_window_target(),
    {
        match event.map_nonuser_event::<T>() {
            Ok(event) => {
                self.hand_over(event, control_flow);
            },
            Err(_) => {},
        }
    }

    /// Hands the application events to the callback that were in the
    /// channel when the call began, oldest first. Whatever the channel held,
    /// the callback is called with nothing but `UserEvent`s, one for each
    /// payload that was taken out and in the order in which they came out.
    fn handle_user_events(&mut self, control_flow: &mut ControlFlow)
        ensures
            exists|payloads: Seq<T>|
                final(self).spec_handed() == old(self).spec_handed() + #[trigger] spec_user_events(
                    payloads,
                ),
            final(self).spec_window_target() == old(self).spec_window_target(),
    {
        let pending = channel_len(&self.event_loop.receiver);
        let mut taken: usize = 0;
        let ghost mut received: Seq<T> = Seq::empty();
        proof {
            assert(old(self).spec_handed() + spec_user_events(received) =~= old(self).spec_handed());
        }
        while taken < pending
            invariant
                self.spec_handed() == old(self).spec_handed() + spec_user_events(received),
                self.spec_window_target() == old(self).spec_window_target(),
            decreases pending - taken,
        {
            match channel_try_recv(&self.event_loop.receiver) {
                Some(payload) => {
                    proof {
                        assert((old(self).spec_handed() + spec_user_events(received)).push(
                            Event::UserEvent(payload),
                        ) =~= old(self).spec_handed() + spec_user_events(received.push(payload)));
                        received = received.push(payload);
                    }
                    self.deliver_user_event(payload, control_flow);
                },
                None => {
                    break ;
                },
            }
            taken += 1;
        }
    }
}

} // verus!
