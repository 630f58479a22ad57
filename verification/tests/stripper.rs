use serde_arrow::event::Event;
use serde_arrow::sink::{EventRecorder, EventSink, StripOuterSequenceSink, StripState};
use serde_arrow::Error;

#[test]
fn strips_outer_sequence_of_two_rows() {
    let mut sink = StripOuterSequenceSink::new(EventRecorder::new());
    assert!(sink.accept(Event::StartSequence).is_ok());
    assert!(sink.accept(Event::Item).is_ok());
    assert!(sink.accept(Event::U8(1)).is_ok());
    assert!(sink.accept(Event::Item).is_ok());
    assert!(sink.accept(Event::U8(2)).is_ok());
    assert!(sink.accept(Event::EndSequence).is_ok());
    let events = sink.into_inner().into_inner();
    assert_eq!(events, vec![Event::U8(1), Event::U8(2)]);
}

#[test]
fn forwards_nested_containers_inside_a_record() {
    let mut sink = StripOuterSequenceSink::new(EventRecorder::new());
    assert!(sink.accept(Event::StartSequence).is_ok());
    assert!(sink.accept(Event::Item).is_ok());
    assert!(sink.accept(Event::StartStruct).is_ok());
    assert!(sink.accept(Event::Str("a".to_string())).is_ok());
    assert!(sink.accept(Event::I32(5)).is_ok());
    assert!(sink.accept(Event::EndStruct).is_ok());
    assert!(sink.accept(Event::EndSequence).is_ok());
    let events = sink.into_inner().into_inner();
    assert_eq!(
        events,
        vec![
            Event::StartStruct,
            Event::Str("a".to_string()),
            Event::I32(5),
            Event::EndStruct,
        ]
    );
}

#[test]
fn invalid_event_in_initial_state_fails() {
    let mut sink = StripOuterSequenceSink::new(EventRecorder::new());
    assert_eq!(sink.accept(Event::EndStruct), Err(Error::EventState));
    assert_eq!(sink.state, StripState::WaitForStart);
}

#[test]
fn value_before_item_marker_fails() {
    let mut sink = StripOuterSequenceSink::new(EventRecorder::new());
    assert!(sink.accept(Event::StartSequence).is_ok());
    assert_eq!(sink.accept(Event::U8(1)), Err(Error::EventState));
}

#[test]
fn end_in_wait_for_item_terminates_stream() {
    let mut sink = StripOuterSequenceSink::new(EventRecorder::new());
    assert!(sink.accept(Event::StartSequence).is_ok());
    assert!(sink.accept(Event::EndSequence).is_ok());
    assert_eq!(sink.state, StripState::WaitForStart);
    assert!(sink.into_inner().into_inner().is_empty());
}

#[test]
fn generic_and_specific_accept_paths_agree() {
    let mut generic = EventRecorder::new();
    let mut specific = EventRecorder::new();
    assert!(generic.accept(Event::Bool(true)).is_ok());
    assert!(generic.accept(Event::U32(7)).is_ok());
    assert!(generic.accept(Event::Str("k".to_string())).is_ok());
    assert!(specific.accept_bool(true).is_ok());
    assert!(specific.accept_u32(7).is_ok());
    assert!(specific.accept_str("k".to_string()).is_ok());
    assert_eq!(generic.into_inner(), specific.into_inner());
}
