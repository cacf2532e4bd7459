use tao_core::control_flow::{ControlFlow, ControlFlowScheduler, WakeRequest};
use tao_core::event::StartCause;
use tao_core::run_loop::{setup_control_flow_observers, Activity, Phase, Transition};

#[test]
fn the_scheduler_starts_with_poll() {
    let scheduler = ControlFlowScheduler::new();
    assert_eq!(scheduler.current(), ControlFlow::Poll);
    assert_eq!(ControlFlow::default(), ControlFlow::Poll);
}

#[test]
fn set_replaces_the_policy() {
    let mut scheduler = ControlFlowScheduler::new();
    scheduler.set(ControlFlow::Wait);
    assert_eq!(scheduler.current(), ControlFlow::Wait);
    scheduler.set(ControlFlow::WaitUntil(500));
    assert_eq!(scheduler.current(), ControlFlow::WaitUntil(500));
    scheduler.set(ControlFlow::Poll);
    assert_eq!(scheduler.current(), ControlFlow::Poll);
}

#[test]
fn an_exit_is_terminal() {
    let mut scheduler = ControlFlowScheduler::new();
    scheduler.set(ControlFlow::ExitWithCode(3));
    for flow in [
        ControlFlow::Poll,
        ControlFlow::Wait,
        ControlFlow::WaitUntil(9),
        ControlFlow::ExitWithCode(4),
    ] {
        scheduler.set(flow);
        assert_eq!(scheduler.current(), ControlFlow::ExitWithCode(3));
    }
    assert!(scheduler.current().is_exit());
    assert!(!ControlFlow::Wait.is_exit());
}

#[test]
fn each_policy_has_its_wake_request() {
    let mut scheduler = ControlFlowScheduler::new();
    assert_eq!(scheduler.next_wake(), WakeRequest::Immediate);
    scheduler.set(ControlFlow::Wait);
    assert_eq!(scheduler.next_wake(), WakeRequest::Indefinite);
    scheduler.set(ControlFlow::WaitUntil(77));
    assert_eq!(scheduler.next_wake(), WakeRequest::At(77));
    scheduler.set(ControlFlow::ExitWithCode(0));
    assert_eq!(scheduler.next_wake(), WakeRequest::Teardown);
}

#[test]
fn a_deadline_is_not_cut_short_without_a_signal() {
    let mut scheduler = ControlFlowScheduler::new();
    scheduler.set(ControlFlow::WaitUntil(1000));
    assert!(!scheduler.resumes(0, false));
    assert!(!scheduler.resumes(999, false));
    assert!(scheduler.resumes(1000, false));
    assert!(scheduler.resumes(1001, false));
    assert!(scheduler.resumes(u64::MAX, false));
}

#[test]
fn a_signal_resumes_at_once() {
    let mut scheduler = ControlFlowScheduler::new();
    scheduler.set(ControlFlow::WaitUntil(1000));
    assert!(scheduler.resumes(1, true));
    scheduler.set(ControlFlow::Wait);
    assert!(scheduler.resumes(1, true));
    assert!(!scheduler.resumes(1, false));
    scheduler.set(ControlFlow::Poll);
    assert!(scheduler.resumes(1, false));
    scheduler.set(ControlFlow::ExitWithCode(1));
    assert!(!scheduler.resumes(1, true));
    assert!(!scheduler.resumes(1, false));
}

#[test]
fn the_start_cause_tells_a_deadline_from_an_early_wake() {
    let mut scheduler = ControlFlowScheduler::new();
    assert_eq!(scheduler.start_cause(10, 20), Some(StartCause::Poll));
    scheduler.set(ControlFlow::Wait);
    assert_eq!(
        scheduler.start_cause(10, 20),
        Some(StartCause::WaitCancelled { start: 10, requested_resume: None })
    );
    scheduler.set(ControlFlow::WaitUntil(15));
    assert_eq!(
        scheduler.start_cause(10, 20),
        Some(StartCause::ResumeTimeReached { start: 10, requested_resume: 15 })
    );
    assert_eq!(
        scheduler.start_cause(10, 15),
        Some(StartCause::ResumeTimeReached { start: 10, requested_resume: 15 })
    );
    assert_eq!(
        scheduler.start_cause(10, 14),
        Some(StartCause::WaitCancelled { start: 10, requested_resume: Some(15) })
    );
    scheduler.set(ControlFlow::ExitWithCode(0));
    assert_eq!(scheduler.start_cause(10, 20), None);
}

#[test]
fn the_phases_are_ordered() {
    assert!(Phase::Begin.precedes(Phase::MainEnd));
    assert!(Phase::MainEnd.precedes(Phase::End));
    assert!(Phase::Begin.precedes(Phase::End));
    assert!(!Phase::End.precedes(Phase::Begin));
    assert!(!Phase::MainEnd.precedes(Phase::Begin));
    assert!(!Phase::End.precedes(Phase::MainEnd));
    for phase in [Phase::Begin, Phase::MainEnd, Phase::End] {
        assert!(!phase.precedes(phase));
    }
    assert_eq!(Phase::Begin.priority(), i64::MIN);
    assert_eq!(Phase::MainEnd.priority(), 0);
    assert_eq!(Phase::End.priority(), i64::MAX);
}

#[test]
fn the_observers_are_registered_with_rising_priorities() {
    let observers = setup_control_flow_observers();
    assert_eq!(observers[0].phase, Phase::Begin);
    assert_eq!(observers[1].phase, Phase::MainEnd);
    assert_eq!(observers[2].phase, Phase::End);
    assert!(observers[0].priority < observers[1].priority);
    assert!(observers[1].priority < observers[2].priority);
    assert!(observers.iter().all(|o| o.repeats));
    assert_eq!(observers[0].activities(), 0x41);
    assert_eq!(observers[1].activities(), 0xA0);
    assert_eq!(observers[2].activities(), 0xA0);
    assert!(observers[0].observes(Activity::Entry));
    assert!(observers[0].observes(Activity::AfterWaiting));
    assert!(!observers[0].observes(Activity::BeforeWaiting));
    assert!(observers[1].observes(Activity::BeforeWaiting));
    assert!(observers[2].observes(Activity::Exit));
    assert!(!observers[2].observes(Activity::BeforeTimers));
    assert_eq!(Activity::BeforeTimers.mask(), 2);
    assert_eq!(Activity::BeforeSources.mask(), 4);
}

#[test]
fn each_observer_has_its_transition() {
    assert_eq!(Phase::Begin.transition(Activity::AfterWaiting), Some(Transition::Wakeup));
    assert_eq!(
        Phase::MainEnd.transition(Activity::BeforeWaiting),
        Some(Transition::MainEventsCleared)
    );
    assert_eq!(Phase::End.transition(Activity::BeforeWaiting), Some(Transition::EventsCleared));
    assert_eq!(Phase::MainEnd.transition(Activity::Exit), Some(Transition::Ignored));
    assert_eq!(Phase::End.transition(Activity::Exit), Some(Transition::Ignored));
    assert_eq!(Phase::Begin.transition(Activity::Entry), Some(Transition::Wakeup));
    assert_eq!(Phase::Begin.transition(Activity::Exit), None);
    assert_eq!(Phase::Begin.transition(Activity::BeforeWaiting), None);
    assert_eq!(Phase::MainEnd.transition(Activity::AfterWaiting), None);
    assert_eq!(Phase::End.transition(Activity::BeforeSources), None);
}
