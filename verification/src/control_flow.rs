//! The application's wake policy and what the run loop makes of it.

use vstd::prelude::*;
use crate::event::StartCause;

verus! {

/// When the loop hands control back to the application. Times are readings of
/// a monotonic clock.
#[derive(Clone, Copy, Debug, PartialEq, Eq, Structural, Hash)]
pub enum ControlFlow {
    /// Dispatch again at once, whether or not anything happened.
    Poll,
    /// Sleep until something happens.
    Wait,
    /// Sleep until something happens or the clock reaches the deadline.
    WaitUntil(u64),
    /// Leave the loop with this code. Nothing is honored after it.
    ExitWithCode(i32),
}

/// What the run loop is asked to do once a cycle is over.
#[derive(Clone, Copy, Debug, PartialEq, Eq, Structural, Hash)]
pub enum WakeRequest {
    /// Wake again at once.
    Immediate,
    /// Sleep until something wakes the loop.
    Indefinite,
    /// Wake when the clock reaches this time.
    At(u64),
    /// Schedule nothing more: the loop is torn down.
    Teardown,
}

/// Holds the policy that is in force. It records intent and does not sleep.
#[derive(Clone, Copy, Debug, PartialEq, Eq, Structural, Hash)]
pub struct ControlFlowScheduler {
    flow: ControlFlow,
}

impl View for ControlFlowScheduler {
    type V = ControlFlow;

    closed spec fn view(&self) -> ControlFlow {
        self.flow
    }
}

impl ControlFlow {
    /// Whether the policy is to leave the loop.
    pub open spec fn spec_is_exit(self) -> bool {
        self is ExitWithCode
    }

    /// The policy after the application asked for `requested`: an exit stays
    /// in force whatever is asked for later.
    pub open spec fn spec_then(self, requested: ControlFlow) -> ControlFlow {
        if self.spec_is_exit() {
            self
        } else {
            requested
        }
    }

    /// The request that the run loop gets for this policy.
    pub open spec fn spec_wake_request(self) -> WakeRequest {
        match self {
            ControlFlow::Poll => WakeRequest::Immediate,
            ControlFlow::Wait => WakeRequest::Indefinite,
            ControlFlow::WaitUntil(deadline) => WakeRequest::At(deadline),
            ControlFlow::ExitWithCode(_) => WakeRequest::Teardown,
        }
    }

    /// Whether a loop that woke at `now` goes on to dispatch. `signalled` says
    /// whether a proxy has signalled since the last dispatch. A deadline that
    /// has passed and a signal are each enough; after an exit nothing is.
    pub open spec fn spec_resumes(self, now: u64, signalled: bool) -> bool {
        match self {
            ControlFlow::Poll => true,
            ControlFlow::Wait => signalled,
            ControlFlow::WaitUntil(deadline) => signalled || now >= deadline,
            ControlFlow::ExitWithCode(_) => false,
        }
    }

    /// Why a loop that slept from `start` and woke at `now` woke up; nothing
    /// after an exit.
    pub open spec fn spec_start_cause(self, start: u64, now: u64) -> Option<StartCause> {
        match self {
            ControlFlow::Poll => Some(StartCause::Poll),
            ControlFlow::Wait => Some(
                StartCause::WaitCancelled { start, requested_resume: None },
            ),
            ControlFlow::WaitUntil(deadline) => if now >= deadline {
                Some(StartCause::ResumeTimeReached { start, requested_resume: deadline })
            } else {
                Some(StartCause::WaitCancelled { start, requested_resume: Some(deadline) })
            },
            ControlFlow::ExitWithCode(_) => None,
        }
    }

    /// Whether the policy is to leave the loop.
    pub fn is_exit(self) -> (exit: bool)
        ensures
            exit == self.spec_is_exit(),
    {
        match self {
            ControlFlow::ExitWithCode(_) => true,
            _ => false,
        }
    }
}

impl Default for ControlFlow {
    fn default() -> (flow: ControlFlow)
        ensures
            flow == ControlFlow::Poll,
    {
        ControlFlow::Poll
    }
}

impl ControlFlowScheduler {
    /// A scheduler with the policy `Poll`.
    pub fn new() -> (scheduler: ControlFlowScheduler)
        ensures
            scheduler@ == ControlFlow::Poll,
    {
        ControlFlowScheduler { flow: ControlFlow::Poll }
    }

    /// The policy that is in force.
    pub fn current(&self) -> (flow: ControlFlow)
        ensures
            flow == self@,
    {
        self.flow
    }

    /// Puts `flow` into force from the next phase boundary on. Once an exit is
    /// in force the call changes nothing.
    pub fn set(&mut self, flow: ControlFlow)
        ensures
            final(self)@ == old(self)@.spec_then(flow),
    {
        if !self.flow.is_exit() {
            self.flow = flow;
        }
    }

    /// What the run loop is asked to do next: wake at once for `Poll`, sleep
    /// for `Wait`, wake at the deadline for `WaitUntil`, and nothing more after
    /// an exit.
    pub fn next_wake(&self) -> (request: WakeRequest)
        ensures
            request == self@.spec_wake_request(),
    {
        match self.flow {
            ControlFlow::Poll => WakeRequest::Immediate,
            ControlFlow::Wait => WakeRequest::Indefinite,
            ControlFlow::WaitUntil(deadline) => WakeRequest::At(deadline),
            ControlFlow::ExitWithCode(_) => WakeRequest::Teardown,
        }
    }

    /// Whether a loop that woke at `now` goes on to dispatch or sleeps again.
    pub fn resumes(&self, now: u64, signalled: bool) -> (resume: bool)
        ensures
            resume == self@.spec_resumes(now, signalled),
            // Without a signal a deadline is never cut short.
            self@ matches ControlFlow::WaitUntil(deadline) && !signalled && now < deadline
                ==> !resume,
            // A signal always gets through, except after an exit.
            signalled && !self@.spec_is_exit() ==> resume,
    {
        match self.flow {
            ControlFlow::Poll => true,
            ControlFlow::Wait => signalled,
            ControlFlow::WaitUntil(deadline) => signalled || now >= deadline,
            ControlFlow::ExitWithCode(_) => false,
        }
    }

    /// Why a loop that slept from `start` and woke at `now` woke up.
    pub fn start_cause(&self, start: u64, now: u64) -> (cause: Option<StartCause>)
        ensures
            cause == self@.spec_start_cause(start, now),
    {
        match self.flow {
            ControlFlow::Poll => Some(StartCause::Poll),
            ControlFlow::Wait => Some(StartCause::WaitCancelled { start, requested_resume: None }),
            ControlFlow::WaitUntil(deadline) => if now >= deadline {
                Some(StartCause::ResumeTimeReached { start, requested_resume: deadline })
            } else {
                Some(StartCause::WaitCancelled { start, requested_resume: Some(deadline) })
            },
            ControlFlow::ExitWithCode(_) => None,
        }
    }
}

/// The policy after the application asked for each of `requests` in turn.
pub open spec fn spec_after_requests(flow: ControlFlow, requests: Seq<ControlFlow>) -> ControlFlow
    decreases requests.len(),
{
    if requests.len() == 0 {
        flow
    } else {
        spec_after_requests(flow, requests.drop_last()).spec_then(requests.last())
    }
}

/// An exit is terminal: whatever is asked for afterwards, the exit and its
/// code stay in force.
pub proof fn lemma_exit_is_terminal(flow: ControlFlow, requests: Seq<ControlFlow>)
    requires
        flow.spec_is_exit(),
    ensures
        spec_after_requests(flow, requests) == flow,
    decreases requests.len(),
{
    if requests.len() > 0 {
        lemma_exit_is_terminal(flow, requests.drop_last());
    }
}

/// Under `WaitUntil` and without a signal the loop does not resume before the
/// deadline, and resumes from the deadline on; with a signal it resumes at
/// any time.
pub proof fn lemma_deadline_and_signal(deadline: u64, now: u64, signalled: bool)
    ensures
        !signalled ==> (ControlFlow::WaitUntil(deadline).spec_resumes(now, signalled) <==> now
            >= deadline),
        signalled ==> ControlFlow::WaitUntil(deadline).spec_resumes(now, signalled),
{
}

} // verus!
