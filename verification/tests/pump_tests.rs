use tango_bridge::pump::{read_buffer, Pump, PumpAction, PumpEvent, PumpKind, PumpPhase, WsFrame, ADB_READ_BUFFER_SIZE};

fn delivered(a: PumpAction) -> Vec<u8> {
    match a {
        PumpAction::Deliver(b) => b,
        other => panic!("expected a delivery, got {:?}", other),
    }
}

#[test]
fn ws_reader_forwards_binary_and_ignores_other_frames() {
    let mut p = Pump::new(PumpKind::WsReader);
    assert!(matches!(p.step(PumpEvent::Frame(WsFrame::Text)), PumpAction::Await));
    assert!(matches!(p.step(PumpEvent::Frame(WsFrame::Ping)), PumpAction::Await));
    assert!(matches!(p.step(PumpEvent::Frame(WsFrame::Close)), PumpAction::Await));
    assert_eq!(p.phase, PumpPhase::Listening);
    let out = delivered(p.step(PumpEvent::Frame(WsFrame::Binary(vec![1, 2, 3]))));
    assert_eq!(out, vec![1, 2, 3]);
    assert_eq!(p.phase, PumpPhase::Delivering);
    assert!(matches!(p.step(PumpEvent::Delivered), PumpAction::Await));
    assert_eq!(p.phase, PumpPhase::Listening);
}

#[test]
fn ws_reader_stops_when_stream_ends_without_closing() {
    let mut p = Pump::new(PumpKind::WsReader);
    assert!(matches!(p.step(PumpEvent::SourceEnded), PumpAction::Finish { close_sink: false }));
    assert!(p.is_finished());
}

#[test]
fn adb_reader_delivers_only_the_bytes_read() {
    let mut p = Pump::new(PumpKind::AdbReader);
    let out = delivered(p.step(PumpEvent::Read(vec![9, 8, 7, 6, 5], 3)));
    assert_eq!(out, vec![9, 8, 7]);
}

#[test]
fn adb_reader_count_equal_to_buffer_keeps_all() {
    let mut p = Pump::new(PumpKind::AdbReader);
    let out = delivered(p.step(PumpEvent::Read(vec![4, 5], 2)));
    assert_eq!(out, vec![4, 5]);
}

#[test]
fn adb_reader_stops_on_zero_read() {
    let mut p = Pump::new(PumpKind::AdbReader);
    assert!(matches!(p.step(PumpEvent::Read(vec![1, 2], 0)), PumpAction::Finish { close_sink: false }));
    assert!(p.is_finished());
}

#[test]
fn writer_waits_for_shutdown_after_channel_closes() {
    let mut p = Pump::new(PumpKind::AdbWriter);
    assert!(matches!(p.step(PumpEvent::SourceEnded), PumpAction::AwaitShutdown));
    assert_eq!(p.phase, PumpPhase::ShutdownOnly);
    assert!(!p.accepts(&PumpEvent::Chunk(vec![1])));
    assert!(!p.accepts(&PumpEvent::SourceEnded));
    assert!(p.accepts(&PumpEvent::Cancelled));
    assert!(matches!(p.step(PumpEvent::Cancelled), PumpAction::Finish { close_sink: true }));
}

#[test]
fn failed_delivery_ends_the_loop_and_closes_writer_sink() {
    let mut p = Pump::new(PumpKind::WsWriter);
    assert_eq!(delivered(p.step(PumpEvent::Chunk(vec![0xAA]))), vec![0xAA]);
    assert!(matches!(p.step(PumpEvent::DeliveryFailed), PumpAction::Finish { close_sink: true }));
    assert!(p.is_finished());
    assert!(!p.accepts(&PumpEvent::Cancelled));
}

#[test]
fn cancel_ends_every_listening_pump() {
    for (kind, closes) in [
        (PumpKind::WsReader, false),
        (PumpKind::AdbWriter, true),
        (PumpKind::AdbReader, false),
        (PumpKind::WsWriter, true),
    ] {
        let mut p = Pump::new(kind);
        assert!(p.accepts(&PumpEvent::Cancelled));
        match p.step(PumpEvent::Cancelled) {
            PumpAction::Finish { close_sink } => assert_eq!(close_sink, closes),
            other => panic!("unexpected {:?}", other),
        }
        assert!(p.is_finished());
    }
}

#[test]
fn accepts_only_the_events_of_its_kind() {
    let p = Pump::new(PumpKind::WsReader);
    assert!(p.accepts(&PumpEvent::Frame(WsFrame::Pong)));
    assert!(!p.accepts(&PumpEvent::Chunk(vec![])));
    assert!(!p.accepts(&PumpEvent::Read(vec![], 0)));
    assert!(!p.accepts(&PumpEvent::Delivered));
    let r = Pump::new(PumpKind::AdbReader);
    assert!(r.accepts(&PumpEvent::Read(vec![0], 1)));
    assert!(!r.accepts(&PumpEvent::Frame(WsFrame::Text)));
}

#[test]
fn forwarding_is_faithful_over_a_run() {
    let mut p = Pump::new(PumpKind::WsReader);
    let events = vec![
        PumpEvent::Frame(WsFrame::Binary(vec![1])),
        PumpEvent::Delivered,
        PumpEvent::Frame(WsFrame::Text),
        PumpEvent::Frame(WsFrame::Binary(vec![2, 3])),
        PumpEvent::Delivered,
        PumpEvent::SourceEnded,
    ];
    let mut out: Vec<Vec<u8>> = Vec::new();
    let mut finishes = 0;
    for e in events {
        assert!(p.accepts(&e));
        match p.step(e) {
            PumpAction::Deliver(b) => out.push(b),
            PumpAction::Finish { .. } => finishes += 1,
            _ => {}
        }
    }
    assert_eq!(out, vec![vec![1], vec![2, 3]]);
    assert_eq!(finishes, 1);
    assert!(p.is_finished());
}

#[test]
fn read_buffer_is_one_mebibyte_of_zeros() {
    let b = read_buffer();
    assert_eq!(b.len(), ADB_READ_BUFFER_SIZE);
    assert_eq!(b.len(), 1024 * 1024);
    assert!(b.iter().all(|x| *x == 0));
}

#[test]
fn bridge_forwards_end_to_end_through_a_fifo() {
    let mut reader = Pump::new(PumpKind::WsReader);
    let mut writer = Pump::new(PumpKind::AdbWriter);
    let mut channel: std::collections::VecDeque<Vec<u8>> = std::collections::VecDeque::new();
    let frames = vec![
        WsFrame::Binary(vec![1, 2]),
        WsFrame::Text,
        WsFrame::Binary(vec![3]),
        WsFrame::Ping,
        WsFrame::Binary(vec![4, 5, 6]),
    ];
    for f in frames {
        if let PumpAction::Deliver(b) = reader.step(PumpEvent::Frame(f)) {
            channel.push_back(b);
            assert!(matches!(reader.step(PumpEvent::Delivered), PumpAction::Await));
        }
    }
    let mut adb: Vec<u8> = Vec::new();
    while let Some(item) = channel.pop_front() {
        let out = delivered(writer.step(PumpEvent::Chunk(item)));
        adb.extend_from_slice(&out);
        assert!(matches!(writer.step(PumpEvent::Delivered), PumpAction::Await));
    }
    assert_eq!(adb, vec![1, 2, 3, 4, 5, 6]);
}
