use iced_lazy::component::view;
use iced_lazy::component::Component;
use iced_lazy::component::Instance;
use iced_lazy::event::Status;
use iced_lazy::pure_component::PureComponent;
use iced_lazy::shell::Shell;
use std::cell::Cell;

#[derive(Debug, Clone, Copy, PartialEq)]
enum Event {
    Increment,
    Decrement,
    Submit,
}

#[derive(Debug, Clone, PartialEq)]
enum Message {
    Submitted(i32),
}

struct Counter<'a> {
    start: i32,
    states: &'a Cell<u32>,
    views: &'a Cell<u32>,
}

impl<'a> Component<Message, ()> for Counter<'a> {
    type Event = Event;
    type T = i32;
    type Element = String;

    fn state(&self) -> i32 {
        self.states.set(self.states.get() + 1);
        self.start
    }

    fn update(&self, state: &mut i32, event: Event) -> Option<Message> {
        match event {
            Event::Increment => {
                *state += 1;
                None
            }
            Event::Decrement => {
                *state -= 1;
                None
            }
            Event::Submit => Some(Message::Submitted(*state)),
        }
    }

    fn view(&self, state: &i32) -> String {
        self.views.set(self.views.get() + 1);
        format!("count: {}", state)
    }
}

#[test]
fn instance_renders_nothing_before_it_meets_its_state() {
    let states = Cell::new(0);
    let views = Cell::new(0);
    let instance: Instance<Counter, Message, ()> = view(Counter { start: 3, states: &states, views: &views });
    assert!(!instance.has_element());
    assert_eq!(states.get(), 0);
    assert_eq!(views.get(), 0);
}

#[test]
fn instance_creates_its_state_once_and_renders_it() {
    let states = Cell::new(0);
    let views = Cell::new(0);
    let mut instance: Instance<Counter, Message, ()> =
        view(Counter { start: 3, states: &states, views: &views });
    let state = instance.state();
    assert_eq!(state, 3);
    assert_eq!(states.get(), 1);
    assert_eq!(views.get(), 1);
    assert!(instance.has_element());
    assert_eq!(instance.with_element(|element| element.clone()), "count: 3");
}

#[test]
fn instance_reconciles_with_the_state_that_was_kept() {
    let states = Cell::new(0);
    let views = Cell::new(0);
    let mut first: Instance<Counter, Message, ()> =
        view(Counter { start: 3, states: &states, views: &views });
    let mut state = first.state();

    for pass in 0..5u32 {
        let mut next: Instance<Counter, Message, ()> =
            view(Counter { start: 100, states: &states, views: &views });
        next.diff(&state);
        assert_eq!(state, 3);
        assert_eq!(next.with_element(|element| element.clone()), "count: 3");
        assert_eq!(views.get(), 2 + pass);
    }
    assert_eq!(states.get(), 1);

    let mut shell = Shell::new();
    let mut busy: Instance<Counter, Message, ()> =
        view(Counter { start: 100, states: &states, views: &views });
    busy.diff(&state);
    busy.on_event(
        &mut state,
        |_element, local| {
            local.publish(Event::Increment);
            Status::Captured
        },
        &mut shell,
    );
    assert_eq!(state, 4);

    let mut later: Instance<Counter, Message, ()> =
        view(Counter { start: 100, states: &states, views: &views });
    later.diff(&state);
    assert_eq!(later.with_element(|element| element.clone()), "count: 4");
    assert_eq!(states.get(), 1);
}

#[test]
fn instance_publishes_nothing_when_updates_return_none() {
    let states = Cell::new(0);
    let views = Cell::new(0);
    let mut instance: Instance<Counter, Message, ()> =
        view(Counter { start: 0, states: &states, views: &views });
    let mut state = instance.state();
    let mut shell = Shell::new();
    let status = instance.on_event(
        &mut state,
        |_element, local| {
            local.publish(Event::Increment);
            local.publish(Event::Increment);
            local.publish(Event::Decrement);
            Status::Captured
        },
        &mut shell,
    );
    assert_eq!(status, Status::Captured);
    assert_eq!(state, 1);
    assert!(shell.is_empty());
    assert!(shell.is_layout_invalid());
    assert_eq!(views.get(), 2);
    assert_eq!(instance.with_element(|element| element.clone()), "count: 1");
}

#[test]
fn instance_publishes_each_message_once_and_in_order() {
    let states = Cell::new(0);
    let views = Cell::new(0);
    let mut instance: Instance<Counter, Message, ()> =
        view(Counter { start: 0, states: &states, views: &views });
    let mut state = instance.state();
    let mut shell = Shell::new();
    shell.publish(Message::Submitted(-1));
    let status = instance.on_event(
        &mut state,
        |_element, local| {
            local.publish(Event::Submit);
            local.publish(Event::Increment);
            local.publish(Event::Increment);
            local.publish(Event::Submit);
            local.publish(Event::Decrement);
            Status::Ignored
        },
        &mut shell,
    );
    assert_eq!(status, Status::Ignored);
    assert_eq!(state, 1);
    assert_eq!(
        shell.into_messages(),
        vec![Message::Submitted(-1), Message::Submitted(0), Message::Submitted(2)]
    );
    assert_eq!(views.get(), 2);
    assert_eq!(instance.with_element(|element| element.clone()), "count: 1");
}

#[test]
fn instance_without_events_leaves_everything_as_it_is() {
    let states = Cell::new(0);
    let views = Cell::new(0);
    let mut instance: Instance<Counter, Message, ()> =
        view(Counter { start: 7, states: &states, views: &views });
    let mut state = instance.state();
    let mut shell = Shell::new();
    let status = instance.on_event(
        &mut state,
        |element, _local| {
            element.push('!');
            Status::Ignored
        },
        &mut shell,
    );
    assert_eq!(status, Status::Ignored);
    assert_eq!(state, 7);
    assert!(shell.is_empty());
    assert!(!shell.is_layout_invalid());
    assert_eq!(views.get(), 1);
    assert_eq!(instance.with_element(|element| element.clone()), "count: 7!");
}

#[test]
fn instance_passes_on_a_request_for_a_new_layout() {
    let states = Cell::new(0);
    let views = Cell::new(0);
    let mut instance: Instance<Counter, Message, ()> =
        view(Counter { start: 7, states: &states, views: &views });
    let mut state = instance.state();
    let mut shell = Shell::new();
    instance.on_event(
        &mut state,
        |_element, local| {
            local.invalidate_layout();
            Status::Captured
        },
        &mut shell,
    );
    assert!(shell.is_empty());
    assert!(shell.is_layout_invalid());
    assert_eq!(views.get(), 1);
}

#[test]
fn instance_process_handles_the_events_of_a_shell() {
    let states = Cell::new(0);
    let views = Cell::new(0);
    let mut instance: Instance<Counter, Message, ()> =
        view(Counter { start: 10, states: &states, views: &views });
    let mut state = instance.state();
    let mut local = Shell::new();
    local.publish(Event::Decrement);
    local.publish(Event::Submit);
    let mut shell = Shell::new();
    instance.process(&mut state, local, &mut shell);
    assert_eq!(state, 9);
    assert_eq!(shell.messages(), &vec![Message::Submitted(9)]);
    assert!(shell.is_layout_invalid());
    assert_eq!(views.get(), 2);

    instance.process(&mut state, Shell::new(), &mut shell);
    assert_eq!(state, 9);
    assert_eq!(shell.messages(), &vec![Message::Submitted(9)]);
    assert_eq!(views.get(), 2);
}

#[test]
fn instance_with_element_mut_changes_the_content() {
    let states = Cell::new(0);
    let views = Cell::new(0);
    let mut instance: Instance<Counter, Message, ()> =
        view(Counter { start: 1, states: &states, views: &views });
    let _state = instance.state();
    let length = instance.with_element_mut(|element| {
        element.push('?');
        element.len()
    });
    assert_eq!(length, 9);
    assert_eq!(instance.with_element(|element| element.clone()), "count: 1?");
}

#[test]
fn instance_lends_its_content_to_an_overlay() {
    let states = Cell::new(0);
    let views = Cell::new(0);
    let mut instance: Instance<Counter, Message, ()> =
        view(Counter { start: 1, states: &states, views: &views });
    let _state = instance.state();

    let none = instance.overlay(|_element: &mut String| None::<u8>);
    assert!(none.is_none());
    assert!(instance.has_element());

    let lent = instance.overlay(|element: &mut String| Some(element.len()));
    assert!(!instance.has_element());
    let lent = lent.expect("the content produced an overlay");
    assert_eq!(lent.with_overlay_maybe(|length| *length), Some(8));
    instance.release(lent);
    assert!(instance.has_element());
    assert_eq!(instance.with_element(|element| element.clone()), "count: 1");
    assert_eq!(views.get(), 1);
}

struct Echo;

impl PureComponent<String, ()> for Echo {
    type Event = u8;
    type State = Vec<u8>;
    type Element = usize;

    fn state(&self) -> Vec<u8> {
        vec![0]
    }

    fn update(&self, state: &mut Vec<u8>, event: u8) -> Option<String> {
        state.push(event);
        if event % 2 == 0 {
            Some(format!("even {}", event))
        } else {
            None
        }
    }

    fn view(&self, state: &Vec<u8>) -> usize {
        state.len()
    }
}

#[test]
fn pure_component_runs_like_a_component() {
    let mut instance = iced_lazy::pure_component::view::<Echo, String, ()>(Echo);
    assert!(!instance.has_element());
    let mut state = instance.state();
    assert_eq!(state, vec![0]);
    assert_eq!(instance.with_element(|element| *element), 1);

    let mut shell = Shell::new();
    let status = instance.on_event(
        &mut state,
        |_element, local| {
            local.publish(1);
            local.publish(2);
            local.publish(3);
            local.publish(4);
            Status::Captured
        },
        &mut shell,
    );
    assert_eq!(status, Status::Captured);
    assert_eq!(state, vec![0, 1, 2, 3, 4]);
    assert_eq!(shell.into_messages(), vec![String::from("even 2"), String::from("even 4")]);
    assert_eq!(instance.with_element(|element| *element), 5);

    let mut next = iced_lazy::pure_component::view::<Echo, String, ()>(Echo);
    next.diff(&state);
    assert_eq!(next.with_element(|element| *element), 5);
}
