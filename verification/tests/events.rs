use webxr::events::Event;
use webxr::events::EventBuffer;
use webxr::events::Visibility;
use webxr::input::InputId;

#[test]
fn buffer_keeps_events_until_a_destination_is_set() {
    let mut b: EventBuffer<u32, &'static str> = EventBuffer::new();
    assert!(!b.has_sink());
    assert_eq!(b.callback(1), None);
    assert_eq!(b.callback(2), None);
    assert_eq!(b.callback(3), None);
    let pending = b.upgrade("dest");
    assert_eq!(pending, vec![1, 2, 3]);
    assert!(b.has_sink());
    assert_eq!(b.sink(), Some(&"dest"));
}

#[test]
fn events_after_the_destination_go_straight_to_it() {
    let mut b: EventBuffer<u32, u8> = EventBuffer::default();
    let pending = b.upgrade(7);
    assert!(pending.is_empty());
    assert_eq!(b.callback(9), Some(9));
    assert_eq!(b.callback(10), Some(10));
}

#[test]
fn a_second_destination_replaces_the_first() {
    let mut b: EventBuffer<u32, u8> = EventBuffer::new();
    b.callback(4);
    assert_eq!(b.upgrade(1), vec![4]);
    assert_eq!(b.upgrade(2), Vec::<u32>::new());
    assert_eq!(b.sink(), Some(&2));
}

#[test]
fn events_carry_their_payloads() {
    let e: Event<()> = Event::VisibilityChange(Visibility::Hidden);
    assert!(matches!(e, Event::VisibilityChange(Visibility::Hidden)));
    let r: Event<()> = Event::RemoveInput(InputId(2));
    assert!(matches!(r, Event::RemoveInput(InputId(2))));
}
