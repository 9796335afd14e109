use asr_stream::downlink::Downlink;
use asr_stream::downlink::DownlinkAction;
use asr_stream::downlink::Frame;
use asr_stream::shutdown::Completion;
use asr_stream::shutdown::Coordinator;
use asr_stream::shutdown::ShutdownSignal;
use asr_stream::source::chunk_from_read;
use asr_stream::source::BLOCK_SIZE;
use asr_stream::uplink::Uplink;
use asr_stream::uplink::UplinkAction;
use asr_stream::uplink::UplinkEvent;
use asr_stream::uplink::UplinkPhase;

fn chunk_event(data: Vec<u8>, id: &str) -> UplinkEvent {
    UplinkEvent::Chunk { data, event_id: id.to_string() }
}

fn sent(action: UplinkAction) -> String {
    match action {
        UplinkAction::Send(s) => s,
        _ => panic!("expected an envelope"),
    }
}

#[test]
fn read_of_zero_bytes_ends_input() {
    let buffer = [7u8; 16];
    assert!(chunk_from_read(&buffer, 0).is_none());
    assert_eq!(chunk_from_read(&buffer, 3), Some(vec![7u8, 7, 7]));
}

#[test]
fn uplink_keeps_chunk_order() {
    let mut up = Uplink::new(true);
    let a = sent(up.step(&chunk_event(vec![1], "a")));
    let b = sent(up.step(&chunk_event(vec![2], "b")));
    let c = sent(up.step(&chunk_event(vec![3], "c")));
    assert!(a.contains("\"audio\":\"AQ==\"") && a.contains("\"event_id\":\"a\""));
    assert!(b.contains("\"audio\":\"Ag==\"") && b.contains("\"event_id\":\"b\""));
    assert!(c.contains("\"audio\":\"Aw==\"") && c.contains("\"event_id\":\"c\""));
}

#[test]
fn uplink_send_failure_abandons_rest() {
    let mut up = Uplink::new(false);
    assert!(matches!(up.step(&UplinkEvent::SendFailed), UplinkAction::FireShutdown));
    assert_eq!(up.phase, UplinkPhase::Drained);
    assert!(matches!(up.step(&chunk_event(vec![9], "z")), UplinkAction::Nothing));
    assert!(matches!(up.step(&UplinkEvent::ChannelClosed), UplinkAction::Nothing));
}

#[test]
fn uplink_keep_open_never_fires() {
    let mut up = Uplink::new(true);
    assert!(matches!(up.step(&UplinkEvent::ChannelClosed), UplinkAction::Nothing));
    assert_eq!(up.phase, UplinkPhase::Drained);
    let mut coord = Coordinator::new();
    assert!(!coord.observe(Completion::SignalDropped));
    assert!(!coord.is_done());
}

#[test]
fn uplink_on_chunk_uses_fresh_id() {
    let mut up = Uplink::new(false);
    let text = sent(up.on_chunk(vec![0u8, 1, 2]));
    let value: serde_json::Value = serde_json::from_str(&text).unwrap();
    assert_eq!(value["audio"], "AAEC");
    assert_eq!(value["event_id"].as_str().unwrap().len(), 36);
}

#[test]
fn downlink_relays_in_order_and_stops() {
    let mut down = Downlink::new();
    let mut lines = Vec::new();
    let frames = vec![
        Frame::Text("{\"n\":1}".to_string()),
        Frame::Other,
        Frame::Text("{\"n\":2}".to_string()),
        Frame::Failed,
        Frame::Text("{\"n\":3}".to_string()),
    ];
    for f in frames {
        if let DownlinkAction::Relay(t) = down.step(f) {
            lines.push(t);
        }
    }
    assert_eq!(lines, vec!["{\"n\":1}".to_string(), "{\"n\":2}".to_string()]);
    assert!(!down.running);
}

#[test]
fn second_fire_is_noop() {
    let mut s = ShutdownSignal::new();
    assert!(s.fire());
    assert!(!s.fire());
    assert!(s.fired);
    let mut coord = Coordinator::new();
    assert!(coord.observe(Completion::SignalFired));
    assert!(!coord.observe(Completion::SignalFired));
    assert_eq!(coord.exit, Some(Completion::SignalFired));
}

#[test]
fn exhausted_input_ends_via_signal() {
    let reads: Vec<usize> = vec![8192, 4000, 0];
    let buffer = vec![0u8; BLOCK_SIZE];
    let mut up = Uplink::new(false);
    let mut signal = ShutdownSignal::new();
    let mut coord = Coordinator::new();
    let mut envelopes = 0;
    let mut exited = false;
    for n in reads {
        match chunk_from_read(&buffer, n) {
            Some(chunk) => {
                assert_eq!(chunk.len(), n);
                if let UplinkAction::Send(_) = up.step(&chunk_event(chunk, "id")) {
                    envelopes += 1;
                }
            }
            None => {
                if let UplinkAction::FireShutdown = up.step(&UplinkEvent::ChannelClosed) {
                    if signal.fire() {
                        exited = coord.observe(Completion::SignalFired);
                    }
                }
                break;
            }
        }
    }
    assert_eq!(envelopes, 2);
    assert!(exited);
    assert_eq!(coord.exit, Some(Completion::SignalFired));
}

#[test]
fn close_frame_ends_via_downlink() {
    let mut down = Downlink::new();
    let mut up = Uplink::new(false);
    assert!(matches!(up.step(&chunk_event(vec![5], "a")), UplinkAction::Send(_)));
    assert!(matches!(down.step(Frame::Close), DownlinkAction::Stop));
    let mut coord = Coordinator::new();
    assert!(coord.observe(Completion::DownlinkEnded));
    assert_eq!(coord.exit, Some(Completion::DownlinkEnded));
    assert!(!coord.observe(Completion::SignalFired));
    assert_eq!(up.phase, UplinkPhase::Streaming);
}

#[test]
fn interrupt_ends_while_idle() {
    let up = Uplink::new(false);
    let down = Downlink::new();
    let mut coord = Coordinator::new();
    assert!(coord.observe(Completion::Interrupted));
    assert_eq!(coord.exit, Some(Completion::Interrupted));
    assert!(!coord.observe(Completion::DownlinkEnded));
    assert_eq!(up.phase, UplinkPhase::Streaming);
    assert!(down.running);
}
