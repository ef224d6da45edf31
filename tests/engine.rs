use simkernel::{Engine, Event, Time};

#[test]
fn fresh_engine_is_idle() {
    let mut e: Engine<&str, u32, char> = Engine::new();
    assert!(!e.is_finished());
    assert_eq!(e.current_turn(), &None);
    assert_eq!(e.time, Time::default());
    assert_eq!(e.next_action(), None);
    assert_eq!(e.next_event(), None);
    assert_eq!(e.time, Time::default());
}

#[test]
fn end_turn_clears_whatever_was_there() {
    let mut e: Engine<&str, u32, char> = Engine::default();
    e.end_turn("nobody");
    assert_eq!(e.current_turn(), &None);
    assert_eq!(e.action_queue.len(), 0);

    e.new_turn("A");
    e.action("A", 1);
    e.action("B", 2);
    assert_eq!(e.current_turn(), &Some("A"));
    e.end_turn("B");
    assert_eq!(e.current_turn(), &None);
    assert_eq!(e.next_action(), None);
}

#[test]
fn new_turn_keeps_pending_actions() {
    let mut e: Engine<&str, u32, char> = Engine::new();
    e.action("A", 1);
    e.new_turn("B");
    assert_eq!(e.current_turn(), &Some("B"));
    assert_eq!(e.next_action(), Some((Time::default(), "A", 1)));
}

#[test]
fn actions_are_first_in_first_out_whatever_the_events() {
    let mut e: Engine<&str, &str, u32> = Engine::new();
    e.new_turn("A");
    e.action("A", "act1");
    e.event_at(Time::new(9, 0), 1);
    e.event(2);
    e.action("A", "act2");
    e.event_after(Time::new(0, 10), 3);
    assert_eq!(e.next_event(), Some((Time::new(0, 0), 2)));
    assert_eq!(e.next_event(), Some((Time::new(0, 10), 3)));
    assert_eq!(e.next_action(), Some((Time::new(0, 10), "A", "act1")));
    assert_eq!(e.next_action(), Some((Time::new(0, 10), "A", "act2")));
    assert_eq!(e.next_action(), None);
}

#[test]
fn next_event_moves_time() {
    let mut e: Engine<u8, u8, &str> = Engine::new();
    e.event_after(Time::new(2, 500_000), "later");
    e.event_at(Time::new(1, 0), "sooner");
    assert_eq!(e.next_event(), Some((Time::new(1, 0), "sooner")));
    assert_eq!(e.time, Time::new(1, 0));
    e.event_after(Time::new(0, 700_000), "between");
    assert_eq!(e.next_event(), Some((Time::new(1, 700_000), "between")));
    assert_eq!(e.next_event(), Some((Time::new(2, 500_000), "later")));
    assert_eq!(e.time, Time::new(2, 500_000));
    assert_eq!(e.next_event(), None);
    assert_eq!(e.time, Time::new(2, 500_000));
}

#[test]
fn events_in_the_past_are_accepted() {
    let mut e: Engine<u8, u8, &str> = Engine::new();
    e.event_at(Time::new(5, 0), "five");
    assert_eq!(e.next_event(), Some((Time::new(5, 0), "five")));
    e.event_at(Time::new(3, 0), "three");
    assert_eq!(e.next_event(), Some((Time::new(3, 0), "three")));
    assert_eq!(e.time, Time::new(3, 0));
}

#[test]
fn finish_stays_finished() {
    let mut e: Engine<u8, u8, u8> = Engine::new();
    e.finish();
    assert!(e.is_finished());
    e.finish();
    assert!(e.is_finished());
    e.new_turn(1);
    e.end_turn(1);
    e.event(4);
    e.next_event();
    assert!(e.is_finished());
}

#[test]
fn entries_compare_by_time_and_insertion_number() {
    let a = Event { time: Time::new(1, 0), generation: 1, item: "x" };
    let b = Event { time: Time::new(1, 0), generation: 1, item: "y" };
    let c = Event { time: Time::new(1, 0), generation: 2, item: "x" };
    let d = Event { time: Time::new(0, 5), generation: 9, item: "x" };
    assert!(a == b);
    assert!(a != c);
    assert!(a.precedes(&c));
    assert!(!c.precedes(&a));
    assert!(d.precedes(&a));
    assert!(!a.precedes(&b));
}
