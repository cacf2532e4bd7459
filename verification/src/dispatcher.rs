//! The dispatcher: what the loop does at each phase of a wake cycle.
//!
//! The dispatcher owns the queue and the policy. The host glue calls it when
//! an observer fires; the dispatcher drains the queue, calls the handler and
//! says when the run loop is to wake next.

use vstd::prelude::*;
use crate::control_flow::{ControlFlow, ControlFlowScheduler, WakeRequest};
use crate::event::{Event, Never, StartCause, WindowId};
use crate::event_loop::EventHandler;
use crate::queue::{EventProxy, EventQueue, EventWrapper};

verus! {

/// Where the loop stands in its wake cycle.
#[derive(Clone, Copy, Debug, PartialEq, Eq, Structural, Hash)]
pub enum CycleStage {
    /// The application has not been launched.
    NotLaunched,
    /// The run loop sleeps, or is about to, since the time `start`.
    Waiting { start: u64 },
    /// The loop woke up and the events of this cycle are being handled.
    ProcessingEvents,
    /// The events of this cycle are handled and windows are being redrawn.
    ProcessingRedraws,
    /// An exit was observed: the loop has been torn down.
    Terminated,
}

/// One call that the loop made to its handler.
pub enum Delivery {
    /// `handle_nonuser_event` with this event.
    Event(Event<Never>),
    /// `handle_user_events`.
    UserEvents,
}

/// Owns the pending events and the policy, and takes the loop through its
/// cycles.
pub struct Dispatcher {
    pub queue: EventQueue,
    pub scheduler: ControlFlowScheduler,
    pub stage: CycleStage,
    /// The calls that the dispatcher made to its handler, oldest first.
    pub delivered: Ghost<Seq<Delivery>>,
}

/// The calls to the handler that deliver `pending`: one for each event that
/// is ready for the application, in the order of the queue. What the loop has
/// to resolve first is not delivered.
pub open spec fn spec_deliveries_of(pending: Seq<EventWrapper>) -> Seq<Delivery>
    decreases pending.len(),
{
    if pending.len() == 0 {
        Seq::empty()
    } else {
        let earlier = spec_deliveries_of(pending.drop_last());
        match pending.last() {
            EventWrapper::StaticEvent(event) => earlier.push(Delivery::Event(event)),
            EventWrapper::EventProxy(_) => earlier,
        }
    }
}

/// What the loop has to resolve itself of `pending`, in the order of the
/// queue.
pub open spec fn spec_proxies_of(pending: Seq<EventWrapper>) -> Seq<EventProxy>
    decreases pending.len(),
{
    if pending.len() == 0 {
        Seq::empty()
    } else {
        let earlier = spec_proxies_of(pending.drop_last());
        match pending.last() {
            EventWrapper::StaticEvent(_) => earlier,
            EventWrapper::EventProxy(proxy) => earlier.push(proxy),
        }
    }
}

/// The call that delivers `event`.
pub open spec fn spec_delivery(event: Event<Never>) -> Delivery {
    Delivery::Event(event)
}

impl Dispatcher {
    /// A dispatcher for an application that has not been launched: nothing is
    /// pending and the policy is `Poll`.
    pub fn new() -> (dispatcher: Dispatcher)
        ensures
            dispatcher.queue@ == Seq::<EventWrapper>::empty(),
            dispatcher.scheduler@ == ControlFlow::Poll,
            dispatcher.stage == CycleStage::NotLaunched,
            dispatcher.delivered@ == Seq::<Delivery>::empty(),
    {
        Dispatcher {
            queue: EventQueue::new(),
            scheduler: ControlFlowScheduler::new(),
            stage: CycleStage::NotLaunched,
            delivered: Ghost(Seq::empty()),
        }
    }

    /// Queues `event` for the next dispatch. Once the loop has been torn down
    /// the event is dropped.
    pub fn queue_event(&mut self, event: EventWrapper)
        ensures
            final(self).scheduler == old(self).scheduler,
            final(self).stage == old(self).stage,
            final(self).delivered@ == old(self).delivered@,
            old(self).stage == CycleStage::Terminated ==> final(self).queue@ == old(self).queue@,
            old(self).stage != CycleStage::Terminated ==> final(self).queue@ == old(self).queue@.push(event),
    {
        match self.stage {
            CycleStage::Terminated => {},
            _ => {
                self.queue.queue_event(event);
            },
        }
    }

    /// Calls the handler with `event` and puts the policy into force that the
    /// handler asked for.
    fn deliver<H: EventHandler>(&mut self, handler: &mut H, event: Event<Never>)
        ensures
            final(self).delivered@ == old(self).delivered@.push(spec_delivery(event)),
            final(self).queue == old(self).queue,
            final(self).stage == old(self).stage,
            old(self).scheduler@.spec_is_exit() ==> final(self).scheduler@ == old(self).scheduler@,
    {
        proof {
            self.delivered@ = self.delivered@.push(Delivery::Event(event));
        }
        let mut flow = self.scheduler.current();
        handler.handle_nonuser_event(event, &mut flow);
        self.scheduler.set(flow);
    }

    /// Delivers everything that is pending, oldest first, and hands back what
    /// the loop has to resolve itself.
    fn drain<H: EventHandler>(&mut self, handler: &mut H) -> (proxies: Vec<EventProxy>)
        ensures
            final(self).delivered@ == old(self).delivered@ + spec_deliveries_of(
                old(self).queue@,
            ),
            proxies@ == spec_proxies_of(old(self).queue@),
            final(self).queue@ == Seq::<EventWrapper>::empty(),
            final(self).stage == old(self).stage,
            old(self).scheduler@.spec_is_exit() ==> final(self).scheduler@ == old(self).scheduler@,
    {
        let ghost pending = self.queue@;
        let ghost log = self.delivered@;
        let ghost mut done: int = 0;
        let mut proxies: Vec<EventProxy> = Vec::new();
        proof {
            assert(pending.take(0) =~= Seq::<EventWrapper>::empty());
            assert(log + Seq::<Delivery>::empty() =~= log);
            assert(pending.skip(0) =~= pending);
        }
        while !self.queue.is_empty()
            invariant
                0 <= done <= pending.len(),
                self.queue@ == pending.skip(done),
                self.delivered@ == log + spec_deliveries_of(pending.take(done)),
                proxies@ == spec_proxies_of(pending.take(done)),
                self.stage == old(self).stage,
                old(self).scheduler@.spec_is_exit() ==> self.scheduler@ == old(self).scheduler@,
            decreases pending.len() - done,
        {
            let next = self.queue.pop();
            proof {
                assert(pending.take(done + 1).drop_last() =~= pending.take(done));
                assert(pending.take(done + 1).last() == pending[done]);
                assert(pending.skip(done).drop_first() =~= pending.skip(done + 1));
            }
            let ghost before = self.delivered@;
            match next {
                Some(EventWrapper::StaticEvent(event)) => {
                    self.deliver(handler, event);
                    proof {
                        assert(log + spec_deliveries_of(pending.take(done)).push(
                            spec_delivery(event),
                        ) =~= before.push(spec_delivery(event)));
                    }
                },
                Some(EventWrapper::EventProxy(proxy)) => {
                    proxies.push(proxy);
                },
                None => {},
            }
            proof {
                done = done + 1;
            }
        }
        proof {
            assert(pending.take(done) =~= pending);
        }
        proxies
    }

    /// Asks the handler to handle the application events that are pending,
    /// and puts the policy into force that the handler asked for.
    fn ask_for_user_events<H: EventHandler>(&mut self, handler: &mut H)
        ensures
            final(self).delivered@ == old(self).delivered@.push(Delivery::UserEvents),
            final(self).queue == old(self).queue,
            final(self).stage == old(self).stage,
            old(self).scheduler@.spec_is_exit() ==> final(self).scheduler@ == old(self).scheduler@,
    {
        proof {
            self.delivered@ = self.delivered@.push(Delivery::UserEvents);
        }
        let mut flow = self.scheduler.current();
        handler.handle_user_events(&mut flow);
        self.scheduler.set(flow);
    }

    /// The application finished launching: the first cycle begins. The handler
    /// is told that the loop starts.
    pub fn did_finish_launching<H: EventHandler>(&mut self, handler: &mut H)
        requires
            old(self).stage == CycleStage::NotLaunched,
        ensures
            final(self).delivered@ == old(self).delivered@.push(
                spec_delivery(Event::NewEvents(StartCause::Init)),
            ),
            final(self).queue == old(self).queue,
            final(self).stage == CycleStage::ProcessingEvents,
            old(self).scheduler@.spec_is_exit() ==> final(self).scheduler@ == old(self).scheduler@,
    {
        self.deliver(handler, Event::NewEvents(StartCause::Init));
        self.stage = CycleStage::ProcessingEvents;
    }

    /// The run loop woke up at the time `now`. `signalled` says whether a proxy
    /// has signalled since the last dispatch. The wake is held against the
    /// policy: if neither the deadline has passed nor anything new is there,
    /// the loop goes back to sleep and nothing happens. Otherwise a new cycle
    /// begins and the handler is told why. The result says whether a cycle
    /// began. Before the launch and after the teardown the call does nothing.
    pub fn handle_wakeup_transition<H: EventHandler>(
        &mut self,
        handler: &mut H,
        now: u64,
        signalled: bool,
    ) -> (resumed: bool)
        requires
            old(self).stage is NotLaunched || old(self).stage is Waiting || old(self).stage is Terminated,
        ensures
            final(self).queue == old(self).queue,
            old(self).stage is Waiting ==> resumed == spec_wake_proceeds(
                old(self).scheduler@,
                now,
                signalled,
                old(self).queue@.len() > 0,
            ),
            !(old(self).stage is Waiting) ==> !resumed,
            !resumed ==> final(self).delivered@ == old(self).delivered@ && final(self).stage
                == old(self).stage && final(self).scheduler == old(self).scheduler,
            resumed ==> final(self).stage == CycleStage::ProcessingEvents,
            resumed ==> (match old(self).scheduler@.spec_start_cause(
                old(self).stage->start,
                now,
            ) {
                Some(cause) => final(self).delivered@ == old(self).delivered@.push(
                    spec_delivery(Event::NewEvents(cause)),
                ),
                None => final(self).delivered@ == old(self).delivered@,
            }),
            // Without a signal and with nothing pending a deadline is never cut short.
            old(self).scheduler@ matches ControlFlow::WaitUntil(deadline) && now < deadline
                && !signalled && old(self).queue@.len() == 0 ==> !resumed,
            old(self).scheduler@.spec_is_exit() ==> final(self).scheduler@ == old(self).scheduler@,
    {
        match self.stage {
            CycleStage::Waiting { start } => {
                let pending = !self.queue.is_empty();
                let flow = self.scheduler.current();
                if flow.is_exit() || self.scheduler.resumes(now, signalled || pending) {
                    match self.scheduler.start_cause(start, now) {
                        Some(cause) => {
                            self.deliver(handler, Event::NewEvents(cause));
                        },
                        None => {},
                    }
                    self.stage = CycleStage::ProcessingEvents;
                    true
                } else {
                    false
                }
            },
            _ => false,
        }
    }

    /// The run loop is about to sleep and the application's turn comes first:
    /// everything that is pending is delivered, oldest first, then the handler
    /// is asked to handle the application events, then it is told that the
    /// events of this cycle are cleared. The result is what the loop has to
    /// resolve itself. The call does nothing before the launch, after the
    /// teardown, and while the loop sleeps because a wake began no cycle.
    pub fn handle_main_events_cleared<H: EventHandler>(&mut self, handler: &mut H) -> (proxies:
        Vec<EventProxy>)
        requires
            !(old(self).stage is ProcessingRedraws),
        ensures
            !(old(self).stage is ProcessingEvents) ==> final(self).delivered@ == old(self).delivered@ && final(self).stage == old(self).stage && final(self).scheduler == old(self).scheduler && final(self).queue == old(self).queue && proxies@ == Seq::<
                EventProxy,
            >::empty(),
            old(self).stage is ProcessingEvents ==> final(self).delivered@ == (old(self).delivered@ + spec_deliveries_of(old(self).queue@)).push(Delivery::UserEvents).push(
                spec_delivery(Event::MainEventsCleared),
            ) && final(self).stage == CycleStage::ProcessingRedraws && final(self).queue@
                == Seq::<EventWrapper>::empty() && proxies@ == spec_proxies_of(old(self).queue@),
            old(self).scheduler@.spec_is_exit() ==> final(self).scheduler@ == old(self).scheduler@,
    {
        match self.stage {
            CycleStage::ProcessingEvents => {
                let proxies = self.drain(handler);
                self.ask_for_user_events(handler);
                self.deliver(handler, Event::MainEventsCleared);
                self.stage = CycleStage::ProcessingRedraws;
                proxies
            },
            _ => Vec::new(),
        }
    }

    /// A window has to be redrawn. While windows are being redrawn the handler
    /// is told at once; at any other time the request waits in the queue for
    /// the next dispatch.
    pub fn handle_redraw<H: EventHandler>(&mut self, handler: &mut H, window_id: WindowId)
        ensures
            final(self).stage == old(self).stage,
            old(self).stage is ProcessingRedraws ==> final(self).delivered@ == old(self).delivered@.push(spec_delivery(Event::RedrawRequested(window_id))) && final(self).queue == old(self).queue,
            old(self).stage is Terminated ==> final(self).delivered@ == old(self).delivered@
                && final(self).queue@ == old(self).queue@,
            !(old(self).stage is ProcessingRedraws) && !(old(self).stage is Terminated) ==> final(self).delivered@ == old(self).delivered@ && final(self).queue@ == old(self).queue@.push(EventWrapper::StaticEvent(Event::RedrawRequested(window_id))),
            old(self).scheduler@.spec_is_exit() ==> final(self).scheduler@ == old(self).scheduler@,
    {
        match self.stage {
            CycleStage::ProcessingRedraws => {
                self.deliver(handler, Event::RedrawRequested(window_id));
            },
            _ => {
                self.queue_event(EventWrapper::StaticEvent(Event::RedrawRequested(window_id)));
            },
        }
    }

    /// The run loop is about to sleep and nothing else is left to run: the
    /// handler is told that the cycle is over, and the result says when the
    /// run loop is to wake next. If the policy is an exit, everything that was
    /// enqueued before is delivered first: what is pending in the queue, then
    /// the application events; then the handler is told that the loop is
    /// destroyed, and the loop is torn down. While the loop sleeps because a
    /// wake began no cycle, the call only repeats the request. Before the
    /// launch and after the teardown the call does nothing.
    pub fn handle_events_cleared<H: EventHandler>(&mut self, handler: &mut H, now: u64) -> (request:
        WakeRequest)
        requires
            !(old(self).stage is ProcessingEvents),
        ensures
            !(old(self).stage is ProcessingRedraws) ==> final(self).delivered@ == old(self).delivered@ && final(self).stage == old(self).stage && final(self).queue == old(self).queue && final(self).scheduler == old(self).scheduler,
            old(self).stage is NotLaunched ==> request == WakeRequest::Indefinite,
            old(self).stage is Terminated ==> request == WakeRequest::Teardown,
            old(self).stage is Waiting ==> request == old(self).scheduler@.spec_wake_request(),
            old(self).stage is ProcessingRedraws ==> request == final(self).scheduler@.spec_wake_request(),
            old(self).stage is ProcessingRedraws && !final(self).scheduler@.spec_is_exit()
                ==> final(self).stage == (CycleStage::Waiting { start: now }) && final(self).delivered@ == old(self).delivered@.push(spec_delivery(Event::RedrawEventsCleared))
                && final(self).queue == old(self).queue,
            old(self).stage is ProcessingRedraws && final(self).scheduler@.spec_is_exit() ==> final(self).stage == CycleStage::Terminated && final(self).delivered@ == (old(self).delivered@.push(spec_delivery(Event::RedrawEventsCleared)) + spec_deliveries_of(
                old(self).queue@,
            )).push(Delivery::UserEvents).push(spec_delivery(Event::LoopDestroyed)) && final(self).queue@ == Seq::<EventWrapper>::empty(),
            old(self).scheduler@.spec_is_exit() ==> final(self).scheduler@ == old(self).scheduler@,
    {
        match self.stage {
            CycleStage::NotLaunched => WakeRequest::Indefinite,
            CycleStage::Waiting { start: _ } => self.scheduler.next_wake(),
            CycleStage::ProcessingRedraws => {
                self.deliver(handler, Event::RedrawEventsCleared);
                if self.scheduler.current().is_exit() {
                    let _ = self.drain(handler);
                    self.ask_for_user_events(handler);
                    self.deliver(handler, Event::LoopDestroyed);
                    self.stage = CycleStage::Terminated;
                } else {
                    self.stage = CycleStage::Waiting { start: now };
                }
                self.scheduler.next_wake()
            },
            _ => WakeRequest::Teardown,
        }
    }
}

/// Whether a wake begins a cycle under the policy `flow`: the policy resumes
/// on a signal, on something pending in the queue, or on a deadline that has
/// passed, each of which is enough; and a loop whose policy became an exit
/// while it slept goes on, so that it is torn down.
pub open spec fn spec_wake_proceeds(
    flow: ControlFlow,
    now: u64,
    signalled: bool,
    pending: bool,
) -> bool {
    flow.spec_is_exit() || flow.spec_resumes(now, signalled || pending)
}

/// Under `WaitUntil`, a wake before the deadline begins a cycle exactly if a
/// proxy has signalled or something is pending, and a wake from the deadline
/// on always does.
pub proof fn lemma_early_wake(deadline: u64, now: u64, signalled: bool, pending: bool)
    ensures
        now < deadline ==> (spec_wake_proceeds(
            ControlFlow::WaitUntil(deadline),
            now,
            signalled,
            pending,
        ) <==> signalled || pending),
        now >= deadline ==> spec_wake_proceeds(
            ControlFlow::WaitUntil(deadline),
            now,
            signalled,
            pending,
        ),
{
}

} // verus!
