use heart_rate_bridge::connection::{
    position_of, ConnectAction, ConnectError, ConnectEvent, Connector, Phase,
    BATTERY_LEVEL_CHARACTERISTIC, HEART_RATE_MEASUREMENT_CHARACTERISTIC,
};
use heart_rate_bridge::message::{
    chatbox_message, decimal_text, heart_rate_text, CHATBOX_ADDRESS, HEART_RATE_PARAMETER_ADDRESS,
};
use heart_rate_bridge::payload::decode;
use heart_rate_bridge::peripheral::{
    display_label, find_by_address, interpret_selection, selection_labels, PeripheralInfo,
};
use heart_rate_bridge::pipeline::{
    DiscardReason, ForwardPolicy, Pipeline, PipelineAction, PipelineEvent,
};

fn peripheral(address: u64, name: Option<&str>) -> PeripheralInfo {
    PeripheralInfo { address, local_name: name.map(String::from) }
}

fn notification(session: u64, bpm: u8, at: u64) -> PipelineEvent {
    PipelineEvent::Notification { session, payload: vec![0x00, bpm], at }
}

fn standard_ids() -> Vec<u128> {
    vec![0x1234, BATTERY_LEVEL_CHARACTERISTIC, 0x5678, HEART_RATE_MEASUREMENT_CHARACTERISTIC]
}

#[test]
fn decode_reads_second_byte() {
    assert_eq!(decode(&vec![0x00, 0x4B]), Some(75));
    assert_eq!(decode(&vec![0x16, 0x3C, 0xFF, 0x01]), Some(60));
    assert_eq!(decode(&vec![0x10, 0x00]), Some(0));
    assert_eq!(decode(&vec![0x10, 0xFF, 0x00]), Some(255));
}

#[test]
fn decode_ignores_later_bytes() {
    for tail in [vec![], vec![1u8], vec![9u8, 9, 9, 9]] {
        let mut payload = vec![0x00, 0x50];
        payload.extend(tail);
        assert_eq!(decode(&payload), Some(0x50));
    }
}

#[test]
fn decode_rejects_short_payloads() {
    assert_eq!(decode(&vec![]), None);
    assert_eq!(decode(&vec![0x4B]), None);
}

#[test]
fn normalized_reading_of_75_bpm() {
    let mut p = Pipeline::new(ForwardPolicy::Continuous, true, 1);
    let a = p.step(PipelineEvent::Notification { session: 0, payload: vec![0x00, 0x4B], at: 5 });
    assert_eq!(a, PipelineAction::Forward { beats_per_minute: 75, at: 5 });
    if let PipelineAction::Forward { beats_per_minute, .. } = a {
        let percent = f32::from(beats_per_minute) / f32::from(u8::MAX);
        assert!((percent - 0.294).abs() < 0.001);
    }
}

#[test]
fn normalized_readings_are_monotonic_and_invertible() {
    let mut previous = -1.0f32;
    for b in 0..=255u8 {
        let percent = f32::from(b) / f32::from(u8::MAX);
        assert!(percent > previous);
        assert_eq!((percent * 255.0).round() as u8, b);
        previous = percent;
    }
}

#[test]
fn text_of_readings() {
    assert_eq!(decimal_text(0), "0");
    assert_eq!(decimal_text(7), "7");
    assert_eq!(decimal_text(60), "60");
    assert_eq!(decimal_text(100), "100");
    assert_eq!(decimal_text(255), "255");
    assert_eq!(heart_rate_text(60), "60 bpm");
}

#[test]
fn chatbox_message_of_60_bpm() {
    let bytes = chatbox_message(60);
    let (_, packet) = rosc::decoder::decode_udp(&bytes).unwrap();
    match packet {
        rosc::OscPacket::Message(m) => {
            assert_eq!(m.addr, CHATBOX_ADDRESS);
            assert_eq!(m.args.len(), 3);
            match &m.args[0] {
                rosc::OscType::String(s) => assert!(s.contains("60")),
                other => panic!("unexpected argument {:?}", other),
            }
            assert_eq!(m.args[1], rosc::OscType::Bool(true));
            assert_eq!(m.args[2], rosc::OscType::Bool(false));
        }
        other => panic!("unexpected packet {:?}", other),
    }
}

#[test]
fn chatbox_message_bytes() {
    let mut expected: Vec<u8> = b"/chatbox/input\0\0".to_vec();
    expected.extend_from_slice(b",sTF\0\0\0\0");
    expected.extend_from_slice(b"60 bpm\0\0");
    assert_eq!(chatbox_message(60), expected);
    assert_eq!(HEART_RATE_PARAMETER_ADDRESS, "/avatar/parameters/HeartRate");
}

#[test]
fn labels_and_selection() {
    let list = vec![peripheral(1, Some("Polar H10")), peripheral(2, None)];
    assert_eq!(display_label(&list[0]), "Polar H10");
    assert_eq!(display_label(&list[1]), "(Empty)");
    assert_eq!(selection_labels(&list), vec!["[Scan again]", "Polar H10", "(Empty)"]);
    assert_eq!(selection_labels(&vec![]), vec!["[Scan again]"]);
    assert_eq!(interpret_selection(2, 0), None);
    assert_eq!(interpret_selection(2, 1), Some(0));
    assert_eq!(interpret_selection(2, 2), Some(1));
    assert_eq!(interpret_selection(2, 3), None);
}

#[test]
fn finds_first_peripheral_with_address() {
    let list = vec![peripheral(1, None), peripheral(7, Some("a")), peripheral(7, Some("b"))];
    assert_eq!(find_by_address(&list, 7), Some(1));
    assert_eq!(find_by_address(&list, 1), Some(0));
    assert_eq!(find_by_address(&list, 3), None);
    assert_eq!(find_by_address(&vec![], 3), None);
}

#[test]
fn finds_characteristic_positions() {
    let ids = standard_ids();
    assert_eq!(position_of(&ids, BATTERY_LEVEL_CHARACTERISTIC), Some(1));
    assert_eq!(position_of(&ids, HEART_RATE_MEASUREMENT_CHARACTERISTIC), Some(3));
    assert_eq!(position_of(&ids, 0x9999), None);
}

#[test]
fn empty_scan_rescans() {
    let mut c = Connector::new(None);
    assert!(matches!(c.pending_action(), ConnectAction::Scan));
    for _ in 0..3 {
        let a = c.step(ConnectEvent::Scanned(vec![]));
        assert!(matches!(a, ConnectAction::Scan));
        assert_eq!(c.phase, Phase::Scanning);
    }
}

#[test]
fn interactive_selection_flow() {
    let mut c = Connector::new(None);
    let list = vec![peripheral(10, Some("Strap")), peripheral(11, None)];
    match c.step(ConnectEvent::Scanned(list)) {
        ConnectAction::Prompt(labels) => {
            assert_eq!(labels, vec!["[Scan again]", "Strap", "(Empty)"])
        }
        _ => panic!("expected a menu"),
    }
    assert!(matches!(c.step(ConnectEvent::Chose(0)), ConnectAction::Scan));
    assert!(matches!(
        c.step(ConnectEvent::Scanned(vec![peripheral(10, Some("Strap")), peripheral(11, None)])),
        ConnectAction::Prompt(_)
    ));
    assert!(matches!(c.step(ConnectEvent::Chose(9)), ConnectAction::Scan));
    c.step(ConnectEvent::Scanned(vec![peripheral(10, Some("Strap")), peripheral(11, None)]));
    assert!(matches!(c.step(ConnectEvent::Chose(2)), ConnectAction::Connect));
    let chosen = c.peripheral.as_ref().unwrap();
    assert_eq!(chosen.address, 11);
    assert_eq!(chosen.name, "(Empty)");
}

#[test]
fn connect_sequence_for_known_address() {
    let mut c = Connector::new(Some(42));
    assert!(matches!(
        c.step(ConnectEvent::Scanned(vec![peripheral(1, Some("other"))])),
        ConnectAction::Scan
    ));
    assert!(matches!(
        c.step(ConnectEvent::Scanned(vec![peripheral(1, None), peripheral(42, Some("H10"))])),
        ConnectAction::Connect
    ));
    assert!(matches!(c.step(ConnectEvent::ConnectAttempted(false)), ConnectAction::Connect));
    assert!(matches!(c.step(ConnectEvent::ConnectAttempted(false)), ConnectAction::Connect));
    assert!(matches!(
        c.step(ConnectEvent::ConnectAttempted(true)),
        ConnectAction::DiscoverServices
    ));
    assert!(matches!(
        c.step(ConnectEvent::ServicesDiscovered(standard_ids())),
        ConnectAction::ReadBatteryLevel(1)
    ));
    assert!(matches!(
        c.step(ConnectEvent::BatteryRead(vec![87])),
        ConnectAction::Subscribe(3)
    ));
    assert_eq!(c.battery_level, Some(87));
    match c.step(ConnectEvent::Subscribed) {
        ConnectAction::Finished(s) => {
            assert_eq!(s.address, 42);
            assert_eq!(s.name, "H10");
        }
        _ => panic!("expected a session"),
    }
    assert_eq!(c.phase, Phase::Ready);
}

#[test]
fn reconnect_keeps_address() {
    for name in [Some("first"), Some("renamed"), None] {
        let mut c = Connector::new(Some(42));
        c.step(ConnectEvent::Scanned(vec![peripheral(42, name)]));
        c.step(ConnectEvent::ConnectAttempted(true));
        c.step(ConnectEvent::ServicesDiscovered(standard_ids()));
        c.step(ConnectEvent::BatteryRead(vec![]));
        assert_eq!(c.battery_level, None);
        match c.step(ConnectEvent::Subscribed) {
            ConnectAction::Finished(s) => assert_eq!(s.address, 42),
            _ => panic!("expected a session"),
        }
    }
}

#[test]
fn missing_characteristics_fail() {
    let mut c = Connector::new(Some(5));
    c.step(ConnectEvent::Scanned(vec![peripheral(5, None)]));
    c.step(ConnectEvent::ConnectAttempted(true));
    let a = c.step(ConnectEvent::ServicesDiscovered(vec![HEART_RATE_MEASUREMENT_CHARACTERISTIC]));
    assert!(matches!(a, ConnectAction::Failed(ConnectError::MissingBatteryLevel)));

    let mut c = Connector::new(Some(5));
    c.step(ConnectEvent::Scanned(vec![peripheral(5, None)]));
    c.step(ConnectEvent::ConnectAttempted(true));
    let a = c.step(ConnectEvent::ServicesDiscovered(vec![BATTERY_LEVEL_CHARACTERISTIC]));
    assert!(matches!(a, ConnectAction::Failed(ConnectError::MissingHeartRate)));
    assert_eq!(c.phase, Phase::Failed(ConnectError::MissingHeartRate));
}

#[test]
fn unexpected_event_repeats_pending_action() {
    let mut c = Connector::new(Some(5));
    assert!(matches!(c.step(ConnectEvent::Subscribed), ConnectAction::Scan));
    c.step(ConnectEvent::Scanned(vec![peripheral(5, None)]));
    assert!(matches!(c.step(ConnectEvent::Chose(1)), ConnectAction::Connect));
    assert_eq!(c.phase, Phase::Connecting);
}

#[test]
fn rate_limited_forwarding() {
    let mut p = Pipeline::new(ForwardPolicy::RateLimited { min_interval: 2 }, true, 1);
    let mut forwarded = Vec::new();
    for t in 0..7u64 {
        if let PipelineAction::Forward { at, .. } = p.step(notification(0, 70, t)) {
            forwarded.push(at);
        }
    }
    assert_eq!(forwarded, vec![0, 2, 4, 6]);
    assert_eq!(
        p.step(notification(0, 70, 7)),
        PipelineAction::Discard(DiscardReason::RateLimited)
    );
    assert_eq!(p.step(notification(0, 71, 20)), PipelineAction::Forward { beats_per_minute: 71, at: 20 });
}

#[test]
fn continuous_forwarding_forwards_every_sample() {
    let mut p = Pipeline::new(ForwardPolicy::Continuous, false, 1);
    for t in 0..5u64 {
        assert_eq!(p.step(notification(0, 80, t)), PipelineAction::Forward { beats_per_minute: 80, at: t });
    }
}

#[test]
fn malformed_payload_is_discarded() {
    let mut p = Pipeline::new(ForwardPolicy::Continuous, true, 1);
    let a = p.step(PipelineEvent::Notification { session: 0, payload: vec![0x00], at: 1 });
    assert_eq!(a, PipelineAction::Discard(DiscardReason::Malformed));
    assert_eq!(p.step(notification(0, 65, 2)), PipelineAction::Forward { beats_per_minute: 65, at: 2 });
}

#[test]
fn timeout_triggers_one_reconnect() {
    let mut p = Pipeline::new(ForwardPolicy::Continuous, true, 99);
    assert_eq!(p.step(notification(0, 70, 1)), PipelineAction::Forward { beats_per_minute: 70, at: 1 });
    assert_eq!(p.step(PipelineEvent::TimedOut), PipelineAction::Reconnect { address: 99 });
    assert_eq!(p.step(PipelineEvent::TimedOut), PipelineAction::Wait);
    assert_eq!(p.step(PipelineEvent::StreamEnded), PipelineAction::Wait);
    assert_eq!(p.step(notification(0, 71, 15)), PipelineAction::Discard(DiscardReason::Stale));
    assert_eq!(p.step(PipelineEvent::Reconnected), PipelineAction::Wait);
    assert_eq!(p.session, 1);
    assert_eq!(p.address, 99);
    assert_eq!(p.step(notification(0, 72, 16)), PipelineAction::Discard(DiscardReason::Stale));
    assert_eq!(p.step(notification(1, 73, 17)), PipelineAction::Forward { beats_per_minute: 73, at: 17 });
}

#[test]
fn silent_stream_reconnects_and_resumes() {
    let mut p = Pipeline::new(ForwardPolicy::Continuous, true, 7);
    let mut log: Vec<(u64, u8)> = Vec::new();
    let events = vec![
        notification(0, 70, 1),
        notification(0, 71, 2),
        PipelineEvent::TimedOut,
        PipelineEvent::Reconnected,
        notification(1, 72, 15),
        notification(1, 73, 16),
    ];
    let mut reconnects = 0;
    for e in events {
        match p.step(e) {
            PipelineAction::Forward { beats_per_minute, at } => log.push((at, beats_per_minute)),
            PipelineAction::Reconnect { address } => {
                assert_eq!(address, 7);
                reconnects += 1;
            }
            _ => {}
        }
    }
    assert_eq!(reconnects, 1);
    assert_eq!(log, vec![(1, 70), (2, 71), (15, 72), (16, 73)]);
    assert!(log.windows(2).all(|w| w[0].0 <= w[1].0));
}

#[test]
fn stream_end_stops_or_reconnects() {
    let mut p = Pipeline::new(ForwardPolicy::Continuous, false, 3);
    assert_eq!(p.step(PipelineEvent::StreamEnded), PipelineAction::Stop);
    assert_eq!(p.step(PipelineEvent::TimedOut), PipelineAction::Wait);
    let mut p = Pipeline::new(ForwardPolicy::Continuous, true, 3);
    assert_eq!(p.step(PipelineEvent::StreamEnded), PipelineAction::Reconnect { address: 3 });
}
