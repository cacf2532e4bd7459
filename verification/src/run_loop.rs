//! The bridge to the host's run loop: the three observers that mark the
//! phases of a wake cycle.

use vstd::prelude::*;

verus! {

/// A point of the wake cycle at which the loop is told what the host's run
/// loop does. In every cycle `Begin` comes before `MainEnd` and `MainEnd`
/// before `End`.
#[derive(Clone, Copy, Debug, PartialEq, Eq, Structural, Hash)]
pub enum Phase {
    /// The run loop woke up: before anything else runs.
    Begin,
    /// The run loop is about to sleep: before the host redraws.
    MainEnd,
    /// The run loop is about to sleep: after everything else.
    End,
}

/// What the host's run loop reports that it does.
#[derive(Clone, Copy, Debug, PartialEq, Eq, Structural, Hash)]
pub enum Activity {
    Entry,
    BeforeTimers,
    BeforeSources,
    BeforeWaiting,
    AfterWaiting,
    Exit,
}

/// What the loop does when an observer fires.
#[derive(Clone, Copy, Debug, PartialEq, Eq, Structural, Hash)]
pub enum Transition {
    /// The loop woke up: a new cycle begins.
    Wakeup,
    /// The application has seen every event of this cycle.
    MainEventsCleared,
    /// The cycle is over: the loop is about to sleep.
    EventsCleared,
    /// The run loop only changes its mode: nothing to do.
    Ignored,
}

/// An observer to register with the host's run loop.
#[derive(Clone, Copy, Debug, PartialEq, Eq, Structural, Hash)]
pub struct Observer {
    pub phase: Phase,
    /// The first of the two activities that the observer is called for.
    pub first: Activity,
    /// The second of the two.
    pub second: Activity,
    /// The observer stays registered after it was called.
    pub repeats: bool,
    /// Among the observers of one activity the host calls those with a lower
    /// priority first.
    pub priority: i64,
}

impl Phase {
    /// The place of the phase in a cycle.
    pub open spec fn spec_rank(self) -> int {
        match self {
            Phase::Begin => 0,
            Phase::MainEnd => 1,
            Phase::End => 2,
        }
    }

    /// Whether this phase comes before `other` in a cycle.
    pub open spec fn spec_precedes(self, other: Phase) -> bool {
        self.spec_rank() < other.spec_rank()
    }

    /// The priority of the phase's observer: the lowest there is for `Begin`,
    /// so that it runs before any other observer, the highest there is for
    /// `End`, so that it runs after any other, and for `MainEnd` zero, which
    /// is below that of the host's own redraw observers.
    pub open spec fn spec_priority(self) -> i64 {
        match self {
            Phase::Begin => i64::MIN,
            Phase::MainEnd => 0,
            Phase::End => i64::MAX,
        }
    }

    /// The observer of the phase.
    pub open spec fn spec_observer(self) -> Observer {
        match self {
            Phase::Begin => Observer {
                phase: self,
                first: Activity::Entry,
                second: Activity::AfterWaiting,
                repeats: true,
                priority: self.spec_priority(),
            },
            _ => Observer {
                phase: self,
                first: Activity::Exit,
                second: Activity::BeforeWaiting,
                repeats: true,
                priority: self.spec_priority(),
            },
        }
    }

    /// What the loop does when the observer of this phase is called for
    /// `activity`, if the observer can be called for it at all. The loop wakes
    /// up when the run loop comes out of its sleep and when it is entered.
    pub open spec fn spec_transition(self, activity: Activity) -> Option<Transition> {
        match (self, activity) {
            (Phase::Begin, Activity::AfterWaiting) => Some(Transition::Wakeup),
            (Phase::Begin, Activity::Entry) => Some(Transition::Wakeup),
            (Phase::MainEnd, Activity::BeforeWaiting) => Some(Transition::MainEventsCleared),
            (Phase::End, Activity::BeforeWaiting) => Some(Transition::EventsCleared),
            (Phase::MainEnd, Activity::Exit) => Some(Transition::Ignored),
            (Phase::End, Activity::Exit) => Some(Transition::Ignored),
            _ => None,
        }
    }

    /// Whether this phase comes before `other` in a cycle.
    pub fn precedes(self, other: Phase) -> (before: bool)
        ensures
            before == self.spec_precedes(other),
    {
        match (self, other) {
            (Phase::Begin, Phase::MainEnd) => true,
            (Phase::Begin, Phase::End) => true,
            (Phase::MainEnd, Phase::End) => true,
            _ => false,
        }
    }

    /// The priority of the phase's observer.
    pub fn priority(self) -> (priority: i64)
        ensures
            priority == self.spec_priority(),
    {
        match self {
            Phase::Begin => i64::MIN,
            Phase::MainEnd => 0,
            Phase::End => i64::MAX,
        }
    }

    /// The observer of the phase.
    pub fn observer(self) -> (observer: Observer)
        ensures
            observer == self.spec_observer(),
    {
        match self {
            Phase::Begin => Observer {
                phase: self,
                first: Activity::Entry,
                second: Activity::AfterWaiting,
                repeats: true,
                priority: self.priority(),
            },
            _ => Observer {
                phase: self,
                first: Activity::Exit,
                second: Activity::BeforeWaiting,
                repeats: true,
                priority: self.priority(),
            },
        }
    }

    /// What the loop does when the observer of this phase is called for
    /// `activity`. The observer of `Begin` wakes the loop up, after a sleep as
    /// on the first entry into the run loop. `None` stands for a call that the
    /// host never makes: the observer is not registered for the activity.
    pub fn transition(self, activity: Activity) -> (transition: Option<Transition>)
        ensures
            transition == self.spec_transition(activity),
            transition is Some <==> self.spec_observer().spec_observes(activity),
    {
        match (self, activity) {
            (Phase::Begin, Activity::AfterWaiting) => Some(Transition::Wakeup),
            (Phase::Begin, Activity::Entry) => Some(Transition::Wakeup),
            (Phase::MainEnd, Activity::BeforeWaiting) => Some(Transition::MainEventsCleared),
            (Phase::End, Activity::BeforeWaiting) => Some(Transition::EventsCleared),
            (Phase::MainEnd, Activity::Exit) => Some(Transition::Ignored),
            (Phase::End, Activity::Exit) => Some(Transition::Ignored),
            _ => None,
        }
    }
}

impl Activity {
    /// The bit by which the host names the activity.
    pub open spec fn spec_mask(self) -> u64 {
        match self {
            Activity::Entry => 0x01,
            Activity::BeforeTimers => 0x02,
            Activity::BeforeSources => 0x04,
            Activity::BeforeWaiting => 0x20,
            Activity::AfterWaiting => 0x40,
            Activity::Exit => 0x80,
        }
    }

    /// The bit by which the host names the activity.
    pub fn mask(self) -> (mask: u64)
        ensures
            mask == self.spec_mask(),
    {
        match self {
            Activity::Entry => 0x01,
            Activity::BeforeTimers => 0x02,
            Activity::BeforeSources => 0x04,
            Activity::BeforeWaiting => 0x20,
            Activity::AfterWaiting => 0x40,
            Activity::Exit => 0x80,
        }
    }
}

impl Observer {
    /// Whether the observer is called for `activity`.
    pub open spec fn spec_observes(self, activity: Activity) -> bool {
        activity == self.first || activity == self.second
    }

    /// The activities of the observer as the host wants them: their bits in
    /// one word.
    pub open spec fn spec_activities(self) -> u64 {
        self.first.spec_mask() | self.second.spec_mask()
    }

    /// Whether the observer is called for `activity`.
    pub fn observes(&self, activity: Activity) -> (observed: bool)
        ensures
            observed == self.spec_observes(activity),
    {
        activity == self.first || activity == self.second
    }

    /// The activities of the observer as the host wants them.
    pub fn activities(&self) -> (mask: u64)
        ensures
            mask == self.spec_activities(),
    {
        self.first.mask() | self.second.mask()
    }
}

/// The three observers that tie the loop to the host's run loop, in the order
/// in which they are registered: that of `Begin`, that of `MainEnd` and that
/// of `End`. Their priorities rise in that order, so the host calls them in
/// that order whatever else is registered.
pub fn setup_control_flow_observers() -> (observers: [Observer; 3])
    ensures
        observers[0] == Phase::Begin.spec_observer(),
        observers[1] == Phase::MainEnd.spec_observer(),
        observers[2] == Phase::End.spec_observer(),
        observers[0].priority < observers[1].priority < observers[2].priority,
{
    [Phase::Begin.observer(), Phase::MainEnd.observer(), Phase::End.observer()]
}

/// The priorities order the observers as the phases are ordered: one phase
/// comes before another exactly if its observer has the lower priority.
pub proof fn lemma_priority_orders_phases(first: Phase, second: Phase)
    ensures
        first.spec_precedes(second) <==> first.spec_priority() < second.spec_priority(),
        first.spec_precedes(second) <==> first.spec_observer().priority
            < second.spec_observer().priority,
{
}

/// The order of the phases is a strict total order with `Begin` first and
/// `End` last.
pub proof fn lemma_phase_order(first: Phase, second: Phase, third: Phase)
    ensures
        !first.spec_precedes(first),
        first.spec_precedes(second) && second.spec_precedes(third) ==> first.spec_precedes(third),
        first != second ==> first.spec_precedes(second) || second.spec_precedes(first),
        Phase::Begin.spec_precedes(Phase::MainEnd),
        Phase::MainEnd.spec_precedes(Phase::End),
{
}

/// Two observers that are called for one activity are called in the order of
/// their phases: the two that wait for `BeforeWaiting` are those of `MainEnd`
/// and `End`, so in the notification that the run loop is about to sleep
/// `MainEnd` fires before `End`.
pub proof fn lemma_main_end_before_end(first: Phase, second: Phase)
    requires
        first.spec_transition(Activity::BeforeWaiting) is Some,
        second.spec_transition(Activity::BeforeWaiting) is Some,
        first.spec_priority() < second.spec_priority(),
    ensures
        first == Phase::MainEnd,
        second == Phase::End,
{
}

} // verus!
