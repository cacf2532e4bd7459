use std::cell::RefCell;
use std::rc::Rc;
use tao_core::control_flow::ControlFlow;
use tao_core::event::{Event, Never, StartCause, WindowId};
use tao_core::event_loop::{
    closed_or_sent, ConstructionError, EventCallback, EventHandler, EventLoop, EventLoopClosed,
    EventLoopWindowTarget, ExternalError, InstanceGuard,
};
use tao_core::geometry::{PhysicalPosition, Scalar};

/// Notes the events it is called with, by their kind and payload.
struct Notes {
    seen: Vec<String>,
    ask: Option<ControlFlow>,
}

impl EventCallback<u32> for Notes {
    fn call(
        &mut self,
        event: Event<u32>,
        _window_target: &EventLoopWindowTarget<u32>,
        control_flow: &mut ControlFlow,
    ) {
        self.seen.push(format!("{:?}", event));
        if let Some(flow) = self.ask {
            *control_flow = flow;
        }
    }
}

/// Writes what it sees where the test can read it, and exits on the payload 9.
struct Shared(Rc<RefCell<Vec<String>>>);

impl EventCallback<u32> for Shared {
    fn call(
        &mut self,
        event: Event<u32>,
        _window_target: &EventLoopWindowTarget<u32>,
        control_flow: &mut ControlFlow,
    ) {
        if let Event::UserEvent(9) = event {
            *control_flow = ControlFlow::ExitWithCode(9);
        }
        self.0.borrow_mut().push(format!("{:?}", event));
    }
}

struct Silent;

impl EventCallback<String> for Silent {
    fn call(
        &mut self,
        _event: Event<String>,
        _window_target: &EventLoopWindowTarget<String>,
        _control_flow: &mut ControlFlow,
    ) {
    }
}

#[test]
fn the_loop_is_made_once_and_on_the_main_thread() {
    let mut guard = InstanceGuard::new();
    assert!(!guard.is_claimed());
    assert_eq!(
        EventLoop::<u32>::new(&mut guard, false).err(),
        Some(ConstructionError::NotMainThread)
    );
    assert!(!guard.is_claimed());
    assert!(EventLoop::<u32>::new(&mut guard, true).is_ok());
    assert!(guard.is_claimed());
    assert_eq!(
        EventLoop::<u32>::new(&mut guard, true).err(),
        Some(ConstructionError::AlreadyExists)
    );
    assert_eq!(
        EventLoop::<u32>::new(&mut guard, false).err(),
        Some(ConstructionError::NotMainThread)
    );
    assert!(guard.is_claimed());
}

#[test]
fn a_proxy_delivers_user_events_in_the_order_of_sending() {
    let seen = Rc::new(RefCell::new(Vec::new()));
    let mut guard = InstanceGuard::new();
    let event_loop = EventLoop::<u32>::new(&mut guard, true).unwrap();
    let proxy = event_loop.create_proxy();
    let second = proxy.clone();
    assert!(proxy.send_event(1).is_ok());
    assert!(proxy.send_event(2).is_ok());
    assert!(second.send_event(3).is_ok());
    let mut handler = event_loop.into_handler(Shared(seen.clone()));
    let mut flow = ControlFlow::Poll;
    handler.handle_user_events(&mut flow);
    assert_eq!(flow, ControlFlow::Poll);
    assert_eq!(*seen.borrow(), vec!["UserEvent(1)", "UserEvent(2)", "UserEvent(3)"]);
    // Nothing is pending: the callback is not called.
    handler.handle_user_events(&mut flow);
    assert_eq!(seen.borrow().len(), 3);
    assert!(proxy.send_event(4).is_ok());
    handler.handle_user_events(&mut flow);
    assert_eq!(seen.borrow().last().map(String::as_str), Some("UserEvent(4)"));
    assert_eq!(seen.borrow().len(), 4);
}

#[test]
fn the_callback_can_ask_for_another_policy() {
    let mut guard = InstanceGuard::new();
    let event_loop = EventLoop::<u32>::new(&mut guard, true).unwrap();
    let mut handler =
        event_loop.into_handler(Notes { seen: Vec::new(), ask: Some(ControlFlow::WaitUntil(5)) });
    let mut flow = ControlFlow::Poll;
    handler.handle_nonuser_event(Event::MainEventsCleared, &mut flow);
    assert_eq!(flow, ControlFlow::WaitUntil(5));
}

#[test]
fn the_callback_sees_user_events_and_the_others() {
    let seen = Rc::new(RefCell::new(Vec::new()));
    let mut guard = InstanceGuard::new();
    let event_loop = EventLoop::<u32>::new(&mut guard, true).unwrap();
    let proxy = event_loop.create_proxy();
    let mut handler = event_loop.into_handler(Shared(seen.clone()));
    let mut flow = ControlFlow::Wait;
    handler.handle_nonuser_event(Event::NewEvents(StartCause::Init), &mut flow);
    proxy.send_event(7).unwrap();
    proxy.send_event(9).unwrap();
    handler.handle_user_events(&mut flow);
    handler.handle_nonuser_event(Event::RedrawRequested(WindowId(2)), &mut flow);
    assert_eq!(
        *seen.borrow(),
        vec![
            String::from("NewEvents(Init)"),
            String::from("UserEvent(7)"),
            String::from("UserEvent(9)"),
            String::from("RedrawRequested(WindowId(2))"),
        ]
    );
    assert_eq!(flow, ControlFlow::ExitWithCode(9));
}

#[test]
fn sending_to_a_loop_that_is_gone_hands_the_event_back() {
    let mut guard = InstanceGuard::new();
    let event_loop = EventLoop::<String>::new(&mut guard, true).unwrap();
    let proxy = event_loop.create_proxy();
    assert!(proxy.send_event(String::from("early")).is_ok());
    let handler = event_loop.into_handler(Silent);
    drop(handler);
    match proxy.send_event(String::from("late")) {
        Err(EventLoopClosed(payload)) => assert_eq!(payload, "late"),
        Ok(()) => panic!("the loop is gone"),
    }
    let copy = proxy.clone();
    match copy.send_event(String::from("later")) {
        Err(EventLoopClosed(payload)) => assert_eq!(payload, "later"),
        Ok(()) => panic!("the loop is gone"),
    }
}

#[test]
fn the_outcome_of_a_send_is_passed_on() {
    assert!(closed_or_sent::<u8>(Ok(())).is_ok());
    match closed_or_sent(Err(5u8)) {
        Err(EventLoopClosed(payload)) => assert_eq!(payload, 5),
        Ok(()) => panic!("the send failed"),
    }
}

#[test]
fn an_event_without_payload_changes_its_payload_type() {
    let event: Event<Never> = Event::RedrawRequested(WindowId(4));
    assert_eq!(event.map_nonuser_event::<u32>(), Ok(Event::RedrawRequested(WindowId(4))));
    let cleared: Event<Never> = Event::MainEventsCleared;
    assert_eq!(cleared.map_nonuser_event::<String>(), Ok(Event::MainEventsCleared));
    let user: Event<u8> = Event::UserEvent(3);
    assert_eq!(user.map_nonuser_event::<u32>(), Err(Event::UserEvent(3)));
    let destroyed: Event<u8> = Event::LoopDestroyed;
    assert_eq!(destroyed.map_nonuser_event::<Never>(), Ok(Event::LoopDestroyed));
}

#[test]
fn the_window_target_answers_for_the_host() {
    let mut guard = InstanceGuard::new();
    let event_loop = EventLoop::<u32>::new(&mut guard, true).unwrap();
    let target = event_loop.window_target();
    assert_eq!(target.monitor_from_point(Scalar::from_bits(0), Scalar::from_bits(0)), None);
    assert_eq!(
        target.cursor_position(),
        Ok::<PhysicalPosition, ExternalError>(PhysicalPosition {
            x: Scalar::from_bits(0),
            y: Scalar::from_bits(0)
        })
    );
    match target.raw_display_handle_rwh_06() {
        Ok(raw_window_handle::RawDisplayHandle::UiKit(_)) => {}
        other => panic!("{:?}", other),
    }
}

#[test]
fn a_payload_reaches_the_callback_as_a_user_event() {
    let seen = Rc::new(RefCell::new(Vec::new()));
    let mut guard = InstanceGuard::new();
    let event_loop = EventLoop::<u32>::new(&mut guard, true).unwrap();
    let mut handler = event_loop.into_handler(Shared(seen.clone()));
    let mut flow = ControlFlow::Wait;
    handler.deliver_user_event(5, &mut flow);
    assert_eq!(flow, ControlFlow::Wait);
    handler.handle_nonuser_event(Event::LoopDestroyed, &mut flow);
    handler.deliver_user_event(9, &mut flow);
    assert_eq!(*seen.borrow(), vec!["UserEvent(5)", "LoopDestroyed", "UserEvent(9)"]);
    assert_eq!(flow, ControlFlow::ExitWithCode(9));
}

#[test]
fn a_copy_of_the_window_target_is_on_the_same_loop() {
    let mut guard = InstanceGuard::new();
    let event_loop = EventLoop::<u32>::new(&mut guard, true).unwrap();
    let copy = event_loop.window_target().clone();
    assert_eq!(copy.monitor_from_point(Scalar::from_bits(1), Scalar::from_bits(2)), None);
    assert!(copy.raw_display_handle_rwh_06().is_ok());
    // The copy keeps the channel open: a proxy still gets through when the
    // handler is gone.
    let proxy = event_loop.create_proxy();
    drop(event_loop.into_handler(Notes { seen: Vec::new(), ask: None }));
    assert!(proxy.send_event(1).is_ok());
    drop(copy);
    match proxy.send_event(2) {
        Err(EventLoopClosed(payload)) => assert_eq!(payload, 2),
        Ok(()) => panic!("the loop is gone"),
    }
}
