use term_events::event::{Event, KeyCode, KeyEvent, KeyModifiers, KeyboardEnhancementFlags};
use term_events::reader::{
    CursorPositionFilter, Decoded, EventFilter, Filter, InternalEvent, InternalEventReader,
    KeyboardEnhancementFlagsFilter, PollStep, PrimaryDeviceAttributesFilter,
};
use term_events::timeout::PollTimeout;

fn key(c: char) -> InternalEvent {
    InternalEvent::Event(Event::Key(KeyEvent::new(KeyCode::Char(c), KeyModifiers::none())))
}

#[test]
fn cursor_reply_leaves_pending_key_buffered() {
    let mut reader = InternalEventReader::new();
    reader.ingest(vec![Decoded::Item(key('a')), Decoded::Item(InternalEvent::CursorPosition(4, 7))]);
    let reply = reader.take_match(&CursorPositionFilter);
    assert_eq!(reply, Some(InternalEvent::CursorPosition(4, 7)));
    assert_eq!(reader.len(), 1);
    let next = reader.read_event_step(vec![]);
    assert_eq!(next, Some(Event::Key(KeyEvent::new(KeyCode::Char('a'), KeyModifiers::none()))));
    assert_eq!(reader.len(), 0);
}

#[test]
fn garbage_before_resize_is_skipped() {
    let mut reader = InternalEventReader::new();
    let input = vec![
        Decoded::Malformed,
        Decoded::Malformed,
        Decoded::Item(InternalEvent::Event(Event::Resize(80, 24))),
    ];
    assert_eq!(reader.read_event_step(input), Some(Event::Resize(80, 24)));
}

#[test]
fn skipped_items_keep_their_order() {
    let mut reader = InternalEventReader::new();
    reader.ingest(vec![
        Decoded::Item(InternalEvent::PrimaryDeviceAttributes),
        Decoded::Item(key('x')),
        Decoded::Item(InternalEvent::CursorPosition(1, 1)),
        Decoded::Item(key('y')),
        Decoded::Item(InternalEvent::CursorPosition(2, 2)),
    ]);
    assert_eq!(reader.take_match(&CursorPositionFilter), Some(InternalEvent::CursorPosition(1, 1)));
    assert_eq!(reader.take_match(&EventFilter), Some(key('x')));
    assert_eq!(reader.take_match(&EventFilter), Some(key('y')));
    assert_eq!(reader.take_match(&EventFilter), None);
    assert_eq!(reader.take_match(&PrimaryDeviceAttributesFilter), Some(InternalEvent::PrimaryDeviceAttributes));
    assert_eq!(reader.take_match(&CursorPositionFilter), Some(InternalEvent::CursorPosition(2, 2)));
    assert_eq!(reader.len(), 0);
}

#[test]
fn filters_take_their_variant() {
    let flags = InternalEvent::KeyboardEnhancementFlags(KeyboardEnhancementFlags::disambiguate_escape_codes());
    assert!(KeyboardEnhancementFlagsFilter.eval(&flags));
    assert!(!EventFilter.eval(&flags));
    assert!(EventFilter.eval(&InternalEvent::Event(Event::FocusGained)));
    assert!(!CursorPositionFilter.eval(&InternalEvent::Event(Event::FocusLost)));
}

#[test]
fn zero_budget_poll_with_nothing_pending_answers_no() {
    let mut reader = InternalEventReader::new();
    assert_eq!(reader.poll_step(&EventFilter, None, Some(0)), PollStep::Wait(Some(0)));
    assert_eq!(reader.poll_step(&EventFilter, Some(vec![]), Some(0)), PollStep::Expired);
}

#[test]
fn poll_answers_yes_and_keeps_the_event_for_read() {
    let mut reader = InternalEventReader::new();
    assert_eq!(reader.poll_step(&EventFilter, None, Some(500)), PollStep::Wait(Some(500)));
    assert_eq!(
        reader.poll_step(&EventFilter, Some(vec![Decoded::Item(InternalEvent::Event(Event::FocusGained))]), Some(200)),
        PollStep::Ready
    );
    assert_eq!(reader.len(), 1);
    assert_eq!(reader.read_event_step(vec![]), Some(Event::FocusGained));
}

#[test]
fn poll_waits_again_while_budget_is_left() {
    let mut reader = InternalEventReader::new();
    let reply = vec![Decoded::Item(InternalEvent::CursorPosition(3, 3))];
    assert_eq!(reader.poll_step(&EventFilter, Some(reply), Some(10)), PollStep::Wait(Some(10)));
    assert_eq!(reader.poll_step(&EventFilter, Some(vec![]), None), PollStep::Wait(None));
    assert_eq!(reader.poll_step(&CursorPositionFilter, None, Some(0)), PollStep::Ready);
}

#[test]
fn read_step_with_nothing_buffered_returns_none() {
    let mut reader = InternalEventReader::new();
    assert_eq!(reader.read_step(&EventFilter, vec![Decoded::Malformed]), None);
    assert_eq!(reader.len(), 0);
}

#[test]
fn leftover_saturates_at_zero() {
    let t = PollTimeout::new(Some(1_000));
    assert_eq!(t.leftover_at(400), Some(600));
    assert_eq!(t.leftover_at(1_000), Some(0));
    assert_eq!(t.leftover_at(5_000), Some(0));
    assert!(!t.elapsed_at(999));
    assert!(t.elapsed_at(1_000));
    let unbounded = PollTimeout::new(None);
    assert_eq!(unbounded.leftover_at(u128::MAX), None);
    assert!(!unbounded.elapsed_at(u128::MAX));
    assert_eq!(unbounded.leftover(), None);
    assert!(!unbounded.elapsed());
}

#[test]
fn leftover_now_is_within_the_budget() {
    let t = PollTimeout::new(Some(u128::MAX));
    let left = t.leftover().unwrap();
    assert!(left <= u128::MAX);
    assert!(left > 0);
    let zero = PollTimeout::new(Some(0));
    assert_eq!(zero.leftover(), Some(0));
    assert!(zero.elapsed());
}
