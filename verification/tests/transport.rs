use gateway_engine::connector::{TransportAction, TransportMessage, on_transport_message, stamp_sequence};
use gateway_engine::data::Pool;
use gateway_engine::discord::{OpCode, WrapperPacket};
use gateway_engine::heartbeat::HeartbeatScheduler;

#[test]
fn scheduler_emits_one_beat_per_interval() {
    let mut s = HeartbeatScheduler::new(50);
    let n = 10;
    for k in 1..=n {
        let frame = s.beat(Some(k as i64));
        assert_eq!(frame.op, OpCode::Heartbeat);
        assert!(frame.d.is_none());
        assert!(frame.t.is_none());
        // Each beat carries the sequence value current at send time.
        assert_eq!(frame.s, Some(k as i64));
    }
    // Within n * 50 time units at least n heartbeats went out.
    assert_eq!(s.elapsed, n * 50);
    assert!(s.emitted >= n);
    assert_eq!(s.emitted, n);
}

#[test]
fn scheduler_carries_stale_or_absent_sequence_verbatim() {
    let mut s = HeartbeatScheduler::new(1);
    let frame = s.beat(None);
    assert_eq!(frame.s, None);
    let frame = s.beat(Some(-3));
    assert_eq!(frame.s, Some(-3));
}

#[test]
fn stamping_sets_only_the_sequence() {
    let mut frame = WrapperPacket { op: OpCode::Heartbeat, d: None, s: None, t: None };
    stamp_sequence(&mut frame, Some(17));
    assert_eq!(frame.s, Some(17));
    assert_eq!(frame.op, OpCode::Heartbeat);
    assert!(frame.d.is_none());
    assert!(frame.t.is_none());
}

#[test]
fn ping_is_answered_with_identical_payload() {
    let action = on_transport_message(TransportMessage::Ping(String::from("abc123")));
    match action {
        TransportAction::SendPong(payload) => assert_eq!(payload, "abc123"),
        _ => panic!("ping must be answered with a pong"),
    }
}

#[test]
fn close_shuts_the_session_down() {
    let action = on_transport_message(TransportMessage::Close(Some(String::from("bye"))));
    assert!(matches!(action, TransportAction::Shutdown));
}

#[test]
fn binary_and_pong_frames_are_skipped() {
    assert!(matches!(
        on_transport_message(TransportMessage::Binary(vec![1, 2, 3])),
        TransportAction::Skip
    ));
    assert!(matches!(
        on_transport_message(TransportMessage::Pong(String::from("x"))),
        TransportAction::Skip
    ));
}

#[test]
fn text_frames_are_processed() {
    let action = on_transport_message(TransportMessage::Text(String::from("{\"op\":11}")));
    match action {
        TransportAction::ProcessText(t) => assert_eq!(t, "{\"op\":11}"),
        _ => panic!("text must be processed"),
    }
}

#[test]
fn pool_holds_key_and_fixed_address() {
    let p = Pool::new(String::from("the-key"));
    assert_eq!(p.key, "the-key");
    assert_eq!(p.wss_ref, "wss://gateway.discord.gg/?v=6&encoding=json");
    assert_eq!(Pool::get_wss_ref(), "wss://gateway.discord.gg/?v=6&encoding=json");
}

#[test]
fn secure_key_needs_exactly_two_arguments() {
    let ok = vec![String::from("prog"), String::from("k")];
    assert_eq!(Pool::get_secure_key(&ok), Some(String::from("k")));
    let too_few = vec![String::from("prog")];
    assert_eq!(Pool::get_secure_key(&too_few), None);
    let too_many = vec![String::from("prog"), String::from("k"), String::from("x")];
    assert_eq!(Pool::get_secure_key(&too_many), None);
}
