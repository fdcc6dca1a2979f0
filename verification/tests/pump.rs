use pty_session::pump::{classify_read, pump_collect, pump_step, PumpAction, ReadEvent};

#[test]
fn pump_step_emits_data_unchanged() {
    let act = pump_step(ReadEvent::Data(vec![104u8, 105u8]));
    match act {
        PumpAction::Emit(bytes) => assert_eq!(bytes, vec![104u8, 105u8]),
        PumpAction::Shutdown => panic!("data must be emitted, not dropped"),
    }
}

#[test]
fn pump_step_stops_on_eof() {
    let act = pump_step(ReadEvent::Eof);
    assert!(matches!(act, PumpAction::Shutdown));
}

#[test]
fn pump_step_stops_on_read_error() {
    let act = pump_step(ReadEvent::Failed);
    assert!(matches!(act, PumpAction::Shutdown));
}

#[test]
fn pump_collect_keeps_order_and_stops_at_eof() {
    let events = vec![
        ReadEvent::Data(b"first".to_vec()),
        ReadEvent::Data(b"second".to_vec()),
        ReadEvent::Eof,
        ReadEvent::Data(b"after-eof".to_vec()),
    ];
    let chunks = pump_collect(events);
    assert_eq!(chunks, vec![b"first".to_vec(), b"second".to_vec()]);
}

#[test]
fn pump_collect_stops_at_read_error() {
    let events = vec![
        ReadEvent::Data(b"only".to_vec()),
        ReadEvent::Failed,
        ReadEvent::Data(b"lost".to_vec()),
    ];
    let chunks = pump_collect(events);
    assert_eq!(chunks, vec![b"only".to_vec()]);
}

#[test]
fn pump_collect_forwards_everything_without_terminator() {
    let events = vec![
        ReadEvent::Data(b"a".to_vec()),
        ReadEvent::Data(b"b".to_vec()),
        ReadEvent::Data(b"c".to_vec()),
    ];
    let chunks = pump_collect(events);
    assert_eq!(chunks, vec![b"a".to_vec(), b"b".to_vec(), b"c".to_vec()]);
}

#[test]
fn pump_collect_of_no_events_is_empty() {
    let chunks = pump_collect(Vec::new());
    assert!(chunks.is_empty());
}

#[test]
fn classify_read_keeps_data_bytes() {
    let ev = classify_read(Ok(b"output".to_vec()));
    match ev {
        ReadEvent::Data(bytes) => assert_eq!(bytes, b"output".to_vec()),
        _ => panic!("a non-empty read must classify as data"),
    }
}

#[test]
fn classify_read_empty_is_eof() {
    let ev = classify_read(Ok(Vec::new()));
    assert!(matches!(ev, ReadEvent::Eof));
}

#[test]
fn classify_read_error_is_failed() {
    let err = std::io::Error::new(std::io::ErrorKind::BrokenPipe, "stream closed");
    let ev = classify_read(Err(err));
    assert!(matches!(ev, ReadEvent::Failed));
}
