use bing_speech::dispatcher::{chunk_audio, Action, ClientEvent, Dispatcher};
use bing_speech::event::{callback_for, classify_path, deliver, Callback, EventKind, Handler, ServerEvent};
use bing_speech::frame::FrameError;
use bing_speech::language::{Format, InteractiveDictationLanguage, Mode};
use bing_speech::phrase::{Hypothesis, JsonError, Phrase};
use bing_speech::session::{ConnectionState, Session, SessionError};

fn open_session() -> Session {
    let mut s = Session::new();
    let mode = Mode::Interactive(InteractiveDictationLanguage::EnglishUnitedStates);
    s.connect(&mode, &Format::Simple, false, "").unwrap();
    s
}

fn request_id(frame: &[u8]) -> String {
    let len = ((frame[0] as usize) << 8) | frame[1] as usize;
    let header = std::str::from_utf8(&frame[2..2 + len]).unwrap();
    for line in header.split("\r\n") {
        if let Some(v) = line.strip_prefix("X-RequestId: ") {
            return v.to_string();
        }
    }
    panic!("no request id");
}

fn is_hex_id(s: &str) -> bool {
    s.len() == 32 && s.chars().all(|c| c.is_ascii_digit() || ('a'..='f').contains(&c))
}

#[test]
fn connect_returns_url_and_moves_to_connecting() {
    let mut s = Session::new();
    assert_eq!(s.state(), ConnectionState::Disconnected);
    let mode = Mode::Dictation(InteractiveDictationLanguage::GermanGermany);
    let url = s.connect(&mode, &Format::Detailed, false, "").unwrap();
    assert_eq!(
        url,
        "wss://speech.platform.bing.com/speech/recognition/dictation/cognitiveservices/v1?language=de-DE&format=detailed"
    );
    assert_eq!(s.state(), ConnectionState::Connecting);
}

#[test]
fn connect_while_connected_is_refused() {
    let mut s = open_session();
    let mode = Mode::Interactive(InteractiveDictationLanguage::EnglishUnitedStates);
    assert_eq!(s.connect(&mode, &Format::Simple, false, "").unwrap_err(), SessionError::AlreadyConnected);
    s.open("{}").unwrap();
    assert_eq!(s.connect(&mode, &Format::Simple, false, "").unwrap_err(), SessionError::AlreadyConnected);
    assert_eq!(s.state(), ConnectionState::Open);
}

#[test]
fn open_sends_config_frame_first() {
    let mut s = open_session();
    let text = s.open("{\"context\":{}}").unwrap();
    assert!(text.starts_with("Path: speech.config\r\nX-RequestId: "));
    assert!(text.ends_with("\r\nContent-Type: application/json; charset=utf-8\r\n\r\n{\"context\":{}}"));
    assert_eq!(s.state(), ConnectionState::Open);
    assert_eq!(s.open("{}").unwrap_err(), SessionError::NotConnected);
}

#[test]
fn opened_writes_given_id_and_time() {
    let mut s = open_session();
    let text = s.opened("id1", "now", "{}").unwrap();
    assert_eq!(
        text,
        "Path: speech.config\r\nX-RequestId: id1\r\nX-Timestamp: now\r\nContent-Type: application/json; charset=utf-8\r\n\r\n{}"
    );
}

#[test]
fn audio_before_open_is_refused() {
    let mut s = Session::new();
    assert_eq!(s.send_audio(&[1, 2, 3]).unwrap_err(), SessionError::NotConnected);
    let mut s = open_session();
    assert_eq!(s.send_audio(&[1, 2, 3]).unwrap_err(), SessionError::NotConnected);
    assert!(s.needs_audio_id());
}

#[test]
fn failed_handshake_returns_to_disconnected() {
    let mut s = open_session();
    s.connect_failed();
    assert_eq!(s.state(), ConnectionState::Disconnected);
}

#[test]
fn same_id_until_turn_end() {
    let mut s = open_session();
    s.open("{}").unwrap();
    let a = s.send_audio(&[1]).unwrap();
    let b = s.send_audio(&[2]).unwrap();
    assert_eq!(request_id(&a), request_id(&b));
    assert!(is_hex_id(&request_id(&a)));
    s.receive_text("Path: turn.end\r\n\r\n").unwrap();
    let c = s.send_audio(&[3]).unwrap();
    assert_ne!(request_id(&a), request_id(&c));
    assert!(is_hex_id(&request_id(&c)));
}

#[test]
fn audio_frame_with_uses_fresh_id_only_when_none() {
    let mut s = open_session();
    s.opened("r", "t", "{}").unwrap();
    let a = s.audio_frame_with(&[1], "11111111111111111111111111111111", "t").unwrap();
    let b = s.audio_frame_with(&[1], "22222222222222222222222222222222", "t").unwrap();
    assert_eq!(request_id(&a), "11111111111111111111111111111111");
    assert_eq!(request_id(&b), "11111111111111111111111111111111");
    s.receive_text("Path: turn.start\r\n\r\n").unwrap();
    let c = s.audio_frame_with(&[1], "33333333333333333333333333333333", "t").unwrap();
    assert_eq!(request_id(&c), "11111111111111111111111111111111");
    s.receive_text("Path: turn.end\r\n\r\n").unwrap();
    let d = s.audio_frame_with(&[1], "44444444444444444444444444444444", "t").unwrap();
    assert_eq!(request_id(&d), "44444444444444444444444444444444");
}

#[test]
fn stub_transport_scenario() {
    let mut s = Session::new();
    let mode = Mode::Conversation(bing_speech::language::ConversationLanguage::EnglishUnitedStates);
    let url = s.connect(&mode, &Format::Simple, false, "").unwrap();
    assert!(url.contains("/conversation/"));
    let mut wire: Vec<Vec<u8>> = Vec::new();
    let config = s.open("{}").unwrap();
    wire.push(config.into_bytes());
    let chunk = vec![7u8; 4096];
    for _ in 0..3 {
        wire.push(s.send_audio(&chunk).unwrap());
    }
    let ids: Vec<String> = wire[1..].iter().map(|f| request_id(f)).collect();
    assert_eq!(ids[0], ids[1]);
    assert_eq!(ids[1], ids[2]);
    for f in &wire[1..] {
        assert_eq!(f.len() - 2 - (((f[0] as usize) << 8) | f[1] as usize), 4096);
    }
    let ev = s.receive_text("Path: turn.end\r\nX-RequestId: x\r\n\r\n").unwrap();
    assert!(matches!(ev, ServerEvent::TurnEnd));
    let last = s.send_audio(&chunk).unwrap();
    assert_ne!(request_id(&last), ids[0]);
}

#[derive(Default)]
struct Recorder {
    calls: Vec<String>,
}

impl Handler for Recorder {
    fn on_turn_start(&mut self) {
        self.calls.push("turn_start".to_string());
    }
    fn on_turn_end(&mut self) {
        self.calls.push("turn_end".to_string());
    }
    fn on_speech_hypothesis(&mut self, hypothesis: Hypothesis) {
        self.calls.push(format!("hypothesis {} {} {}", hypothesis.text, hypothesis.offset, hypothesis.duration));
    }
    fn on_speech_phrase(&mut self, phrase: Phrase) {
        match phrase {
            Phrase::Simple(p) => self.calls.push(format!("phrase {} {}", p.recognition_status, p.display_text)),
            _ => self.calls.push("other phrase".to_string()),
        }
    }
}

#[test]
fn handler_sees_events_in_order() {
    let mut s = open_session();
    s.open("{}").unwrap();
    let frames = [
        "Path: turn.start\r\n\r\n{}",
        "Path: speech.hypothesis\r\n\r\n{\"Text\":\"hel\",\"Offset\":0,\"Duration\":500}",
        "Path: speech.phrase\r\n\r\n{\"RecognitionStatus\":\"Success\",\"DisplayText\":\"hello\",\"Offset\":0,\"Duration\":900}",
        "Path: turn.end\r\n\r\n",
    ];
    let mut rec = Recorder::default();
    for f in frames.iter() {
        let ev = s.receive_text(f).unwrap();
        deliver(&mut rec, ev);
    }
    assert_eq!(
        rec.calls,
        vec![
            "turn_start".to_string(),
            "hypothesis hel 0 500".to_string(),
            "phrase Success hello".to_string(),
            "turn_end".to_string()
        ]
    );
}

#[test]
fn other_paths_are_unknown_events() {
    let mut s = open_session();
    let ev = s.receive_text("Path: speech.startDetected\r\n\r\n").unwrap();
    assert!(matches!(ev, ServerEvent::SpeechStartDetected));
    let ev = s.receive_text("Path: speech.endDetected\r\n\r\n").unwrap();
    assert!(matches!(ev, ServerEvent::SpeechEndDetected));
    let ev = s.receive_text("Path: speech.somethingElse\r\n\r\n{}").unwrap();
    assert!(matches!(ev, ServerEvent::Unknown));
    let ev = s.receive_text("X-RequestId: 1\r\n\r\n").unwrap();
    assert!(matches!(ev, ServerEvent::Unknown));
}

#[test]
fn bad_frames_are_reported() {
    let mut s = open_session();
    assert_eq!(
        s.receive_text("Path: turn.start").unwrap_err(),
        SessionError::Frame(FrameError::MissingSeparator)
    );
    assert_eq!(
        s.receive_text("Path turn.start\r\n\r\n").unwrap_err(),
        SessionError::Frame(FrameError::MalformedHeader)
    );
    assert_eq!(
        s.receive_text("Path: speech.hypothesis\r\n\r\nnot json").unwrap_err(),
        SessionError::Json(JsonError::Syntax)
    );
    assert_eq!(
        s.receive_text("Path: speech.hypothesis\r\n\r\n{\"Offset\":0}").unwrap_err(),
        SessionError::Json(JsonError::Shape)
    );
}

#[test]
fn disconnect_twice_is_harmless() {
    let mut s = open_session();
    s.open("{}").unwrap();
    assert!(s.disconnect());
    assert_eq!(s.state(), ConnectionState::Closing);
    assert!(!s.disconnect());
    assert_eq!(s.state(), ConnectionState::Closing);
    let first = s.closed();
    assert!(matches!(first, Some(ServerEvent::Disconnect)));
    assert!(!s.disconnect());
    assert!(s.closed().is_none());
    assert_eq!(s.state(), ConnectionState::Disconnected);
}

#[test]
fn disconnect_when_disconnected_is_noop() {
    let mut s = Session::new();
    assert!(!s.disconnect());
    assert!(s.closed().is_none());
}

#[test]
fn reconnect_after_close_mints_new_id() {
    let mut s = open_session();
    s.opened("r", "t", "{}").unwrap();
    s.audio_frame_with(&[1], "11111111111111111111111111111111", "t").unwrap();
    assert!(s.disconnect());
    assert!(s.closed().is_some());
    let mode = Mode::Interactive(InteractiveDictationLanguage::EnglishUnitedStates);
    s.connect(&mode, &Format::Simple, false, "").unwrap();
    s.opened("r", "t", "{}").unwrap();
    let f = s.audio_frame_with(&[1], "22222222222222222222222222222222", "t").unwrap();
    assert_eq!(request_id(&f), "22222222222222222222222222222222");
}

#[test]
fn disconnect_drains_pending_audio_first() {
    let mut d = Dispatcher::new();
    d.submit(ClientEvent::Audio(vec![1])).unwrap();
    d.submit(ClientEvent::Audio(vec![2])).unwrap();
    d.submit(ClientEvent::Disconnect).unwrap();
    assert!(matches!(d.submit(ClientEvent::Audio(vec![3])), Err(ClientEvent::Audio(ref a)) if a == &vec![3]));
    assert!(matches!(d.next_action(), Some(Action::Send(ref a)) if a == &vec![1]));
    assert!(!d.is_stopped());
    assert!(matches!(d.next_action(), Some(Action::Send(ref a)) if a == &vec![2]));
    assert!(matches!(d.next_action(), Some(Action::Shutdown)));
    assert!(d.is_stopped());
    assert!(d.next_action().is_none());
}

#[test]
fn terminal_failure_reports_remaining_audio() {
    let mut d = Dispatcher::new();
    d.submit(ClientEvent::Audio(vec![1])).unwrap();
    d.submit(ClientEvent::Audio(vec![2])).unwrap();
    d.submit(ClientEvent::Audio(vec![3])).unwrap();
    assert!(matches!(d.next_action(), Some(Action::Send(_))));
    d.send_failed(false);
    assert!(matches!(d.next_action(), Some(Action::Send(ref a)) if a == &vec![2]));
    d.send_failed(true);
    assert!(matches!(d.next_action(), Some(Action::Reject(ref a)) if a == &vec![3]));
    assert!(d.next_action().is_none());
}

#[test]
fn chunks_of_4096() {
    let audio: Vec<u8> = (0..10000u32).map(|i| (i % 256) as u8).collect();
    let chunks = chunk_audio(&audio, 4096);
    assert_eq!(chunks.iter().map(|c| c.len()).collect::<Vec<_>>(), vec![4096, 4096, 1808]);
    assert_eq!(chunks.concat(), audio);
    assert!(chunk_audio(&[], 4096).is_empty());
    assert_eq!(chunk_audio(&[1, 2, 3, 4], 2), vec![vec![1, 2], vec![3, 4]]);
}

#[test]
fn event_kinds_of_paths() {
    assert_eq!(classify_path(&"turn.start".to_string()), EventKind::TurnStart);
    assert_eq!(classify_path(&"turn.end".to_string()), EventKind::TurnEnd);
    assert_eq!(classify_path(&"speech.hypothesis".to_string()), EventKind::SpeechHypothesis);
    assert_eq!(classify_path(&"speech.phrase".to_string()), EventKind::SpeechPhrase);
    assert_eq!(classify_path(&"Turn.Start".to_string()), EventKind::Unknown);
}

#[test]
fn generated_ids_are_hex_and_distinct() {
    let a = bing_speech::ident::generate_uuid();
    let b = bing_speech::ident::generate_uuid();
    assert!(is_hex_id(&a));
    assert!(is_hex_id(&b));
    assert_ne!(a, b);
}

#[test]
fn callbacks_of_events() {
    assert_eq!(callback_for(&ServerEvent::TurnStart), Callback::TurnStart);
    assert_eq!(callback_for(&ServerEvent::SpeechEndDetected), Callback::SpeechEnd);
    assert_eq!(callback_for(&ServerEvent::Disconnect), Callback::Nothing);
    assert_eq!(callback_for(&ServerEvent::Unknown), Callback::Nothing);
}

#[test]
fn timestamps_of_frames_are_rfc3339() {
    let mut s = open_session();
    let config = s.open("{}").unwrap();
    let ts = config.split("\r\n").find_map(|l| l.strip_prefix("X-Timestamp: ")).unwrap();
    assert!(!ts.is_empty() && ts.len() <= 64);
    assert!(ts.chars().all(|c| c.is_ascii_digit() || "-+:.T".contains(c)));
}
