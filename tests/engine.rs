use swyh_rs::client_stream::{ClientStream, Pull};
use swyh_rs::control::{
    advance, next_call, play_error, play_outcome, play_start, toggle_on, ControlAction, PlayState,
};
use swyh_rs::discovery::{Dialect, DiscoveryRegistry, Renderer};
use swyh_rs::feedback::{feedback_action, FeedbackAction, StreamerFeedBack, StreamingState};
use swyh_rs::messages::{dummy_log, log_level, LogLevel};
use swyh_rs::meter::RmsMeter;
use swyh_rs::registry::ClientRegistry;
use swyh_rs::wav::{wav_header, AudioFormat, WAV_HEADER_LEN};

fn cd_format() -> AudioFormat {
    AudioFormat::new(44100, 2, 16, false).unwrap()
}

fn chunk(p: Pull) -> Vec<u8> {
    match p {
        Pull::Chunk(v) => v,
        other => panic!("expected a chunk, got {:?}", other),
    }
}

fn renderer(id: &str, addr: &str) -> Renderer {
    Renderer {
        dev_id: id.to_string(),
        dev_name: format!("name {id}"),
        dev_model: "model".to_string(),
        dialect: Dialect::AvTransport,
        remote_addr: addr.to_string(),
        location: format!("http://{addr}/description.xml"),
        control_url: format!("http://{addr}/control"),
    }
}

#[test]
fn wav_header_bytes_for_cd_format() {
    let h = wav_header(&cd_format());
    let expected: Vec<u8> = vec![
        b'R', b'I', b'F', b'F', 0xff, 0xff, 0xff, 0xff, b'W', b'A', b'V', b'E', b'f', b'm', b't',
        b' ', 16, 0, 0, 0, 1, 0, 2, 0, 0x44, 0xac, 0, 0, 0x10, 0xb1, 0x02, 0, 4, 0, 16, 0, b'd',
        b'a', b't', b'a', 0xdb, 0xff, 0xff, 0xff,
    ];
    assert_eq!(h.len(), WAV_HEADER_LEN);
    assert_eq!(h, expected);
}

#[test]
fn wav_header_float_tag() {
    let f = AudioFormat::new(48000, 1, 32, true).unwrap();
    let h = wav_header(&f);
    assert_eq!(&h[20..22], &[3, 0]);
    assert_eq!(&h[22..24], &[1, 0]);
    assert_eq!(&h[28..32], &192000u32.to_le_bytes());
}

#[test]
fn audio_format_rejects_unusable_values() {
    assert!(AudioFormat::new(44100, 0, 16, false).is_none());
    assert!(AudioFormat::new(44100, 2, 12, false).is_none());
    assert!(AudioFormat::new(u32::MAX, 2, 16, false).is_none());
    assert!(AudioFormat::new(44100, 40000, 32, false).is_none());
    assert!(AudioFormat::new(8000, 1, 8, false).is_some());
}

#[test]
fn stream_pulls_header_then_blocks_in_order() {
    let header = wav_header(&cd_format());
    let mut s2 = ClientStream::new(2, "10.0.0.3".to_string(), header.clone(), 8);
    s2.push(&vec![1, 2, 3]);
    s2.push(&vec![4]);
    s2.push(&vec![5, 6]);
    let mut all: Vec<u8> = Vec::new();
    loop {
        match s2.pull() {
            Pull::Chunk(v) => all.extend(v),
            Pull::Pending => break,
            Pull::End => panic!("stream ended early"),
        }
    }
    let mut expected = header.clone();
    expected.extend([1, 2, 3, 4, 5, 6]);
    assert_eq!(all, expected);
}

#[test]
fn stream_interleaved_push_and_pull_keeps_order() {
    let mut s = ClientStream::new(1, "a".to_string(), vec![9, 9], 4);
    assert_eq!(chunk(s.pull()), vec![9, 9]);
    assert!(matches!(s.pull(), Pull::Pending));
    s.push(&vec![1]);
    assert_eq!(chunk(s.pull()), vec![1]);
    s.push(&vec![2]);
    s.push(&vec![3]);
    assert_eq!(chunk(s.pull()), vec![2]);
    assert_eq!(chunk(s.pull()), vec![3]);
    assert!(matches!(s.pull(), Pull::Pending));
}

#[test]
fn stream_full_queue_drops_oldest() {
    let mut s = ClientStream::new(1, "a".to_string(), vec![0], 2);
    s.push(&vec![1]);
    s.push(&vec![2]);
    s.push(&vec![3]);
    assert_eq!(s.queued(), 2);
    assert_eq!(chunk(s.pull()), vec![0]);
    assert_eq!(chunk(s.pull()), vec![2]);
    assert_eq!(chunk(s.pull()), vec![3]);
}

#[test]
fn stream_close_ends_pulls_and_ignores_pushes() {
    let mut s = ClientStream::new(1, "a".to_string(), vec![0], 2);
    s.push(&vec![1]);
    s.close();
    s.close();
    assert!(s.is_closed());
    assert!(matches!(s.pull(), Pull::End));
    s.push(&vec![2]);
    assert!(matches!(s.pull(), Pull::End));
}

#[test]
fn reregistering_an_address_ends_the_first_stream() {
    let mut reg = ClientRegistry::new();
    let first = reg.register("10.0.0.5".to_string(), vec![7], 4).unwrap();
    assert_eq!(chunk(reg.pull(first)), vec![7]);
    let second = reg.register("10.0.0.5".to_string(), vec![7], 4).unwrap();
    assert_ne!(first, second);
    assert_eq!(reg.len(), 1);
    assert!(matches!(reg.pull(first), Pull::End));
    assert_eq!(chunk(reg.pull(second)), vec![7]);
    assert!(reg.is_streaming(&"10.0.0.5".to_string()));
}

#[test]
fn closing_one_stream_leaves_the_other() {
    let mut reg = ClientRegistry::new();
    let a = reg.register("a".to_string(), vec![0], 4).unwrap();
    let b = reg.register("b".to_string(), vec![0], 4).unwrap();
    assert_eq!(chunk(reg.pull(a)), vec![0]);
    assert_eq!(chunk(reg.pull(b)), vec![0]);
    assert!(matches!(reg.pull(a), Pull::Pending));
    reg.close(a);
    reg.close(a);
    assert!(matches!(reg.pull(a), Pull::End));
    assert!(!reg.is_streaming(&"a".to_string()));
    reg.broadcast(&vec![5]);
    assert_eq!(chunk(reg.pull(b)), vec![5]);
    assert!(matches!(reg.pull(999), Pull::End));
}

#[test]
fn every_stream_sees_every_block_once() {
    let mut reg = ClientRegistry::new();
    let fast = reg.register("fast".to_string(), vec![0], 16).unwrap();
    let slow = reg.register("slow".to_string(), vec![0], 16).unwrap();
    let mut got_fast: Vec<Vec<u8>> = Vec::new();
    let mut got_slow: Vec<Vec<u8>> = Vec::new();
    for n in 1u8..=5 {
        reg.broadcast(&vec![n, n]);
        loop {
            match reg.pull(fast) {
                Pull::Chunk(v) => got_fast.push(v),
                _ => break,
            }
        }
    }
    loop {
        match reg.pull(slow) {
            Pull::Chunk(v) => got_slow.push(v),
            _ => break,
        }
    }
    let expected: Vec<Vec<u8>> = std::iter::once(vec![0]).chain((1u8..=5).map(|n| vec![n, n])).collect();
    assert_eq!(got_fast, expected);
    assert_eq!(got_slow, expected);
}

#[test]
fn discovery_reports_two_new_then_none() {
    let mut reg = DiscoveryRegistry::new();
    let found = vec![Some(renderer("uuid:1", "10.0.0.1")), Some(renderer("uuid:2", "10.0.0.2"))];
    let fresh = reg.absorb(found);
    assert_eq!(fresh.len(), 2);
    assert_eq!(fresh[0].dev_id, "uuid:1");
    assert_eq!(fresh[1].dev_id, "uuid:2");
    let again = vec![Some(renderer("uuid:1", "10.0.0.1")), Some(renderer("uuid:2", "10.0.0.2"))];
    assert_eq!(reg.absorb(again).len(), 0);
    assert_eq!(reg.len(), 2);
}

#[test]
fn malformed_description_does_not_hide_valid_responder() {
    let mut reg = DiscoveryRegistry::new();
    let fresh = reg.absorb(vec![None, Some(renderer("uuid:9", "10.0.0.9"))]);
    assert_eq!(fresh.len(), 1);
    assert_eq!(fresh[0].remote_addr, "10.0.0.9");
    assert!(reg.knows(&"uuid:9".to_string()));
}

#[test]
fn duplicate_responses_in_one_cycle_reported_once() {
    let mut reg = DiscoveryRegistry::new();
    let fresh = reg.absorb(vec![Some(renderer("uuid:3", "x")), Some(renderer("uuid:3", "y"))]);
    assert_eq!(fresh.len(), 1);
    assert_eq!(fresh[0].remote_addr, "x");
}

#[test]
fn play_fails_at_play_after_uri_set() {
    let s = play_start();
    assert_eq!(next_call(s), Some(ControlAction::SetTransportUri));
    let s = advance(s, true);
    assert_eq!(next_call(s), Some(ControlAction::Play));
    let s = advance(s, false);
    assert_eq!(s, PlayState::Failed(ControlAction::Play));
    assert!(!toggle_on(s));
    assert_eq!(next_call(s), None);
    let e = play_error(&"Living room".to_string(), s).unwrap();
    assert_eq!(e.action, ControlAction::Play);
    assert_eq!(e.renderer, "Living room");
    assert_eq!(advance(s, true), s);
}

#[test]
fn play_outcomes() {
    assert_eq!(play_outcome(true, true), PlayState::Started);
    assert!(toggle_on(play_outcome(true, true)));
    assert_eq!(play_outcome(false, true), PlayState::Failed(ControlAction::SetTransportUri));
    assert_eq!(play_outcome(true, false), PlayState::Failed(ControlAction::Play));
    assert!(play_error(&"r".to_string(), PlayState::Started).is_none());
}

#[test]
fn feedback_decisions() {
    let fb = StreamerFeedBack::new("10.0.0.7".to_string(), StreamingState::Ended);
    assert_eq!(fb.remote_ip, "10.0.0.7");
    assert_eq!(feedback_action(StreamingState::Started, false, true, false), FeedbackAction::SetToggle(true));
    assert_eq!(feedback_action(StreamingState::Started, true, true, false), FeedbackAction::Keep);
    assert_eq!(feedback_action(fb.streaming_state, true, false, true), FeedbackAction::Resume);
    assert_eq!(feedback_action(fb.streaming_state, true, false, false), FeedbackAction::SetToggle(false));
    assert_eq!(feedback_action(fb.streaming_state, true, true, true), FeedbackAction::Keep);
    assert_eq!(feedback_action(fb.streaming_state, false, false, true), FeedbackAction::Keep);
}

#[test]
fn meter_emits_mean_squares_per_window() {
    let f = AudioFormat::new(20, 1, 16, false).unwrap();
    let mut m = RmsMeter::new(&f);
    assert_eq!(m.feed(&vec![3, 4, 5]), vec![(4, 8)]);
    assert_eq!(m.feed(&vec![1]), vec![(13, 0)]);
    assert_eq!(m.feed(&vec![]), vec![]);
}

#[test]
fn meter_handles_extreme_samples() {
    let f = AudioFormat::new(40, 1, 16, false).unwrap();
    let mut m = RmsMeter::new(&f);
    let out = m.feed(&vec![i16::MIN, i16::MIN, i16::MAX, i16::MAX]);
    let mean: u64 = (1073741824 + 1073676289) / 4;
    assert_eq!(out, vec![(mean, mean)]);
}

#[test]
fn log_levels_from_prefix() {
    assert_eq!(log_level(&"*W*W*> careful".to_string()), LogLevel::Warning);
    assert_eq!(log_level(&"*E*E*> broken".to_string()), LogLevel::Error);
    assert_eq!(log_level(&"plain".to_string()), LogLevel::Info);
    assert_eq!(log_level(&"*".to_string()), LogLevel::Info);
    assert_eq!(log_level(&"".to_string()), LogLevel::Info);
}

#[test]
fn dummy_log_prefixes_message() {
    assert_eq!(dummy_log("resumed".to_string()), "Autoresume: resumed");
}
