//! The life cycle of one streaming connection and the correlation id of its
//! audio. The session decides; whoever owns the transport performs what it
//! returns (a URL to dial, a frame to send, a shutdown to signal).

use crate::endpoint::{build_url, recognition_host, recognition_url};
use crate::event::{frame_kind, EventKind, ServerEvent};
use crate::frame::{
    audio_frame, audio_header_bytes, binary_frame, config_fields, config_frame, decode_text,
    decode_text_frame, encode_text, lemma_audio_header_fits, FrameError,
};
use crate::ident::{generate_uuid, is_hex_id, is_timestamp, now_rfc3339};
use crate::language::{Format, Mode};
use crate::phrase::{hypothesis_text_reads, phrase_text_reads, Hypothesis, JsonError, Phrase};
use vstd::prelude::*;
use vstd::string::*;

verus! {

/// Where a connection stands.
#[derive(Clone, Copy, Debug, PartialEq, Eq, Structural)]
pub enum ConnectionState {
    Disconnected,
    Connecting,
    Open,
    Closing,
}

/// Why a session operation was refused or failed.
#[derive(Clone, Copy, Debug, PartialEq, Eq, Structural)]
pub enum SessionError {
    /// `connect` was called while a connection exists.
    AlreadyConnected,
    /// The operation needs an open connection.
    NotConnected,
    /// A frame could not be read or written.
    Frame(FrameError),
    /// The JSON body of a hypothesis or phrase could not be read.
    Json(JsonError),
}

/// The abstract state of a session.
pub struct SessionView {
    pub state: ConnectionState,
    pub audio_id: Option<Seq<char>>,
}

/// One streaming connection's decisions: its state and the correlation id
/// of the audio segment in progress, if any.
pub struct Session {
    state: ConnectionState,
    audio_id: Option<String>,
}

impl View for Session {
    type V = SessionView;

    closed spec fn view(&self) -> SessionView {
        SessionView {
            state: self.state,
            audio_id: match self.audio_id {
                Some(s) => Some(s@),
                None => None,
            },
        }
    }
}

/// The correlation id that the next audio frame carries: the current one,
/// or `fresh` when none is set.
pub open spec fn next_audio_id(s: SessionView, fresh: Seq<char>) -> Seq<char> {
    match s.audio_id {
        Some(id) => id,
        None => fresh,
    }
}

/// The state after an audio frame is written with `fresh` at hand.
pub open spec fn after_audio(s: SessionView, fresh: Seq<char>) -> SessionView {
    if s.state == ConnectionState::Open {
        SessionView { state: s.state, audio_id: Some(next_audio_id(s, fresh)) }
    } else {
        s
    }
}

/// The state after a frame that announces `kind` is received: a turn end
/// closes the audio segment.
pub open spec fn after_event(s: SessionView, kind: EventKind) -> SessionView {
    if kind == EventKind::TurnEnd {
        SessionView { state: s.state, audio_id: None }
    } else {
        s
    }
}

/// `r` is the event of a hypothesis frame whose body is `body`, or the
/// error that reading the body gives.
pub open spec fn hypothesis_event_reads(body: Seq<char>, r: Result<ServerEvent, SessionError>) -> bool {
    match r {
        Ok(ServerEvent::SpeechHypothesis(h)) => hypothesis_text_reads(body, Ok(h)),
        Err(SessionError::Json(e)) => hypothesis_text_reads(body, Err(e)),
        _ => false,
    }
}

/// `r` is the event of a phrase frame whose body is `body`, or the error
/// that reading the body gives.
pub open spec fn phrase_event_reads(body: Seq<char>, r: Result<ServerEvent, SessionError>) -> bool {
    match r {
        Ok(ServerEvent::SpeechPhrase(p)) => phrase_text_reads(body, Ok(p)),
        Err(SessionError::Json(e)) => phrase_text_reads(body, Err(e)),
        _ => false,
    }
}

/// The state after `disconnect`, and whether the transport must be shut down.
pub open spec fn after_disconnect(s: SessionView) -> (SessionView, bool) {
    if s.state == ConnectionState::Open || s.state == ConnectionState::Connecting {
        (SessionView { state: ConnectionState::Closing, audio_id: s.audio_id }, true)
    } else {
        (s, false)
    }
}

/// The state after the transport reports that it closed, and whether a
/// `Disconnect` event is to be delivered.
pub open spec fn after_closed(s: SessionView) -> (SessionView, bool) {
    if s.state == ConnectionState::Disconnected {
        (s, false)
    } else {
        (SessionView { state: ConnectionState::Disconnected, audio_id: None }, true)
    }
}

impl Session {
    /// The current correlation id, when there is one, is 32 hex digits.
    #[verifier::type_invariant]
    spec fn id_shape(self) -> bool {
        match self.audio_id {
            Some(id) => is_hex_id(id@),
            None => true,
        }
    }

    /// A session with no connection.
    pub fn new() -> (r: Session)
        ensures
            r@ == (SessionView { state: ConnectionState::Disconnected, audio_id: None }),
    {
        Session { state: ConnectionState::Disconnected, audio_id: None }
    }

    /// Where the connection stands.
    pub fn state(&self) -> (r: ConnectionState)
        ensures
            r == self@.state,
    {
        self.state
    }

    /// Whether the next audio frame needs a fresh correlation id.
    pub fn needs_audio_id(&self) -> (r: bool)
        ensures
            r == (self@.audio_id is None),
    {
        self.audio_id.is_none()
    }

    /// Starts a connection: from `Disconnected` only, to `Connecting`, with
    /// no correlation id. Returns the address to dial.
    pub fn connect(
        &mut self,
        mode: &Mode,
        format: &Format,
        is_custom_speech: bool,
        endpoint_id: &str,
    ) -> (r: Result<String, SessionError>)
        ensures
            old(self)@.state == ConnectionState::Disconnected ==> {
                &&& final(self)@ == (SessionView {
                    state: ConnectionState::Connecting,
                    audio_id: None,
                })
                &&& r is Ok
                &&& r->Ok_0@ == recognition_url(
                    recognition_host(true, is_custom_speech),
                    *mode,
                    *format,
                    is_custom_speech,
                    endpoint_id@,
                )
            },
            old(self)@.state != ConnectionState::Disconnected ==> final(self)@ == old(self)@ && r
                == Err::<String, _>(SessionError::AlreadyConnected),
    {
        proof {
            use_type_invariant(&*self);
        }
        if self.state != ConnectionState::Disconnected {
            return Err(SessionError::AlreadyConnected);
        }
        self.state = ConnectionState::Connecting;
        self.audio_id = None;
        Ok(build_url(mode, format, is_custom_speech, endpoint_id))
    }

    /// The handshake succeeded: from `Connecting` to `Open`. Returns the
    /// configuration frame that must go out before any audio.
    pub fn opened(&mut self, request_id: &str, timestamp: &str, config_json: &str) -> (r: Result<
        String,
        SessionError,
    >)
        ensures
            old(self)@.state == ConnectionState::Connecting ==> {
                &&& final(self)@ == (SessionView {
                    state: ConnectionState::Open,
                    audio_id: old(self)@.audio_id,
                })
                &&& r is Ok
                &&& r->Ok_0@ == encode_text(
                    config_fields(request_id@, timestamp@),
                    config_json@,
                )
            },
            old(self)@.state != ConnectionState::Connecting ==> final(self)@ == old(self)@ && r
                == Err::<String, _>(SessionError::NotConnected),
    {
        proof {
            use_type_invariant(&*self);
        }
        if self.state != ConnectionState::Connecting {
            return Err(SessionError::NotConnected);
        }
        self.state = ConnectionState::Open;
        Ok(config_frame(request_id, timestamp, config_json))
    }

    /// As `opened`, with a fresh request id and the current time.
    pub fn open(&mut self, config_json: &str) -> (r: Result<String, SessionError>)
        ensures
            old(self)@.state == ConnectionState::Connecting ==> {
                &&& final(self)@ == (SessionView {
                    state: ConnectionState::Open,
                    audio_id: old(self)@.audio_id,
                })
                &&& r is Ok
                &&& exists|id: Seq<char>, ts: Seq<char>|
                    is_hex_id(id) && is_timestamp(ts) && r->Ok_0@ == #[trigger] encode_text(
                        config_fields(id, ts),
                        config_json@,
                    )
            },
            old(self)@.state != ConnectionState::Connecting ==> final(self)@ == old(self)@ && r
                == Err::<String, _>(SessionError::NotConnected),
    {
        let request_id = generate_uuid();
        let timestamp = now_rfc3339();
        self.opened(request_id.as_str(), timestamp.as_str(), config_json)
    }

    /// The handshake failed: from `Connecting` back to `Disconnected`.
    pub fn connect_failed(&mut self)
        ensures
            old(self)@.state == ConnectionState::Connecting ==> final(self)@ == (SessionView {
                state: ConnectionState::Disconnected,
                audio_id: None,
            }),
            old(self)@.state != ConnectionState::Connecting ==> final(self)@ == old(self)@,
    {
        proof {
            use_type_invariant(&*self);
        }
        if self.state == ConnectionState::Connecting {
            self.state = ConnectionState::Disconnected;
            self.audio_id = None;
        }
    }

    /// Writes the audio frame for one chunk while the connection is open.
    /// The frame carries the current correlation id, or `fresh_id` (32 hex
    /// digits) when none is set, which then becomes current.
    pub fn audio_frame_with(&mut self, audio: &[u8], fresh_id: &str, timestamp: &str) -> (r:
        Result<Vec<u8>, SessionError>)
        requires
            old(self)@.audio_id is None ==> is_hex_id(fresh_id@),
        ensures
            final(self)@ == after_audio(old(self)@, fresh_id@),
            final(self)@.audio_id is Some ==> is_hex_id(final(self)@.audio_id->0),
            old(self)@.state == ConnectionState::Open && timestamp@.len() <= 1000 ==> r is Ok,
            old(self)@.state != ConnectionState::Open ==> r == Err::<Vec<u8>, _>(
                SessionError::NotConnected,
            ),
            old(self)@.state == ConnectionState::Open ==> {
                let id = next_audio_id(old(self)@, fresh_id@);
                match r {
                    Ok(v) => audio_header_bytes(id, timestamp@).len() < 65536 && v@ == binary_frame(
                        audio_header_bytes(id, timestamp@),
                        audio@,
                    ),
                    Err(e) => audio_header_bytes(id, timestamp@).len() >= 65536 && e
                        == SessionError::Frame(FrameError::HeaderTooLong),
                }
            },
    {
        proof {
            use_type_invariant(&*self);
        }
        if self.state != ConnectionState::Open {
            return Err(SessionError::NotConnected);
        }
        let id = match &self.audio_id {
            Some(id) => id.clone(),
            None => String::from_str(fresh_id),
        };
        let frame = audio_frame(id.as_str(), timestamp, audio);
        proof {
            if timestamp@.len() <= 1000 {
                lemma_audio_header_fits(id@, timestamp@);
            }
        }
        self.audio_id = Some(id);
        match frame {
            Ok(v) => Ok(v),
            Err(e) => Err(SessionError::Frame(e)),
        }
    }

    /// As `audio_frame_with`, minting a fresh id only when none is set, and
    /// stamping the frame with the current time.
    pub fn send_audio(&mut self, audio: &[u8]) -> (r: Result<Vec<u8>, SessionError>)
        ensures
            old(self)@.state != ConnectionState::Open ==> final(self)@ == old(self)@ && r
                == Err::<Vec<u8>, _>(SessionError::NotConnected),
            old(self)@.state == ConnectionState::Open ==> {
                &&& final(self)@.state == ConnectionState::Open
                &&& final(self)@.audio_id is Some
                &&& is_hex_id(final(self)@.audio_id->0)
                &&& old(self)@.audio_id is Some ==> final(self)@.audio_id == old(self)@.audio_id
                &&& r is Ok
                &&& exists|ts: Seq<char>|
                    is_timestamp(ts) && #[trigger] audio_header_bytes(final(self)@.audio_id->0, ts).len()
                        < 65536 && r->Ok_0@ == binary_frame(
                        audio_header_bytes(final(self)@.audio_id->0, ts),
                        audio@,
                    )
            },
    {
        let fresh = if self.needs_audio_id() {
            generate_uuid()
        } else {
            String::new()
        };
        proof {
            use_type_invariant(&*self);
        }
        let timestamp = now_rfc3339();
        self.audio_frame_with(audio, fresh.as_str(), timestamp.as_str())
    }

    /// Reads a received text frame into a server event. A turn end closes
    /// the audio segment, so that the next audio frame carries a new id.
    /// A frame that cannot be split, or a hypothesis or phrase whose body is
    /// not the expected JSON, is reported and changes nothing.
    pub fn receive_text(&mut self, text: &str) -> (r: Result<ServerEvent, SessionError>)
        ensures
            match decode_text(text@) {
                Err(e) => r == Err::<ServerEvent, _>(SessionError::Frame(e)) && final(self)@ == old(
                    self,
                )@,
                Ok(f) => {
                    let kind = frame_kind(f.0);
                    &&& final(self)@ == after_event(old(self)@, kind)
                    &&& match r {
                        Ok(ev) => ev.kind() == kind,
                        Err(e) => e is Json && (kind == EventKind::SpeechHypothesis || kind
                            == EventKind::SpeechPhrase),
                    }
                    &&& kind == EventKind::SpeechHypothesis ==> hypothesis_event_reads(f.1, r)
                    &&& kind == EventKind::SpeechPhrase ==> phrase_event_reads(f.1, r)
                },
            },
    {
        let frame = match decode_text_frame(text) {
            Ok(f) => f,
            Err(e) => {
                return Err(SessionError::Frame(e));
            },
        };
        let kind = frame.kind();
        let ev = match kind {
            EventKind::TurnStart => ServerEvent::TurnStart,
            EventKind::TurnEnd => {
                self.audio_id = None;
                ServerEvent::TurnEnd
            },
            EventKind::SpeechStartDetected => ServerEvent::SpeechStartDetected,
            EventKind::SpeechEndDetected => ServerEvent::SpeechEndDetected,
            EventKind::SpeechHypothesis => match Hypothesis::from_json_text(frame.body.as_str()) {
                Ok(h) => ServerEvent::SpeechHypothesis(h),
                Err(e) => {
                    return Err(SessionError::Json(e));
                },
            },
            EventKind::SpeechPhrase => match Phrase::from_json_text(frame.body.as_str()) {
                Ok(p) => ServerEvent::SpeechPhrase(p),
                Err(e) => {
                    return Err(SessionError::Json(e));
                },
            },
            _ => ServerEvent::Unknown,
        };
        Ok(ev)
    }

    /// Asks for the connection to close. An open or connecting session moves
    /// to `Closing` and returns true: the transport must be shut down. In any
    /// other state nothing happens and false is returned.
    pub fn disconnect(&mut self) -> (r: bool)
        ensures
            (final(self)@, r) == after_disconnect(old(self)@),
    {
        proof {
            use_type_invariant(&*self);
        }
        if self.state == ConnectionState::Open || self.state == ConnectionState::Connecting {
            self.state = ConnectionState::Closing;
            true
        } else {
            false
        }
    }

    /// The transport has closed. Returns the `Disconnect` event the first
    /// time only.
    pub fn closed(&mut self) -> (r: Option<ServerEvent>)
        ensures
            final(self)@ == after_closed(old(self)@).0,
            r is Some <==> after_closed(old(self)@).1,
            r is Some ==> r->0 is Disconnect,
    {
        proof {
            use_type_invariant(&*self);
        }
        if self.state == ConnectionState::Disconnected {
            None
        } else {
            self.state = ConnectionState::Disconnected;
            self.audio_id = None;
            Some(ServerEvent::Disconnect)
        }
    }
}

/// Disconnecting is idempotent: a second `disconnect` asks for no shutdown
/// and changes nothing, and once the transport's close has produced the
/// `Disconnect` event, neither another `disconnect` nor another close report
/// produces a second one.
pub proof fn lemma_disconnect_idempotent(s: SessionView)
    ensures
        after_disconnect(after_disconnect(s).0) == (after_disconnect(s).0, false),
        ({
            let closing = after_disconnect(s).0;
            let (gone, _) = after_closed(closing);
            let (again, shutdown) = after_disconnect(gone);
            &&& !shutdown
            &&& again == gone
            &&& after_closed(again) == (gone, false)
        }),
{
}

/// Correlation ids: two audio frames with no turn end between them (any
/// other event may come between) carry the same id; the first audio frame
/// after a turn end carries the fresh id at hand, so it differs from the
/// earlier id whenever that fresh id does.
pub proof fn lemma_correlation_id(
    s: SessionView,
    first_fresh: Seq<char>,
    between: EventKind,
    second_fresh: Seq<char>,
    later_fresh: Seq<char>,
)
    requires
        s.state == ConnectionState::Open,
        between != EventKind::TurnEnd,
    ensures
        ({
            let id = next_audio_id(s, first_fresh);
            let s1 = after_event(after_audio(s, first_fresh), between);
            let s2 = after_audio(s1, second_fresh);
            let s3 = after_event(s2, EventKind::TurnEnd);
            &&& next_audio_id(s1, second_fresh) == id
            &&& next_audio_id(s3, later_fresh) == later_fresh
            &&& (later_fresh != id ==> next_audio_id(s3, later_fresh) != id)
        }),
{
}

} // verus!
