//! Server events: what a received frame means, and how it reaches the
//! caller's handler.

use crate::frame::{fields_view, TextFrame};
use crate::phrase::{Hypothesis, Phrase};
use vstd::prelude::*;
use vstd::string::*;

verus! {

/// An event of the streaming session, in the order the transport delivered it.
#[derive(Clone, Debug)]
pub enum ServerEvent {
    Connect,
    Disconnect,
    TurnStart,
    SpeechStartDetected,
    SpeechHypothesis(Hypothesis),
    SpeechEndDetected,
    SpeechPhrase(Phrase),
    TurnEnd,
    Unknown,
}

/// The variant of a server event, without its payload.
#[derive(Clone, Copy, Debug, PartialEq, Eq, Structural)]
pub enum EventKind {
    Connect,
    Disconnect,
    TurnStart,
    SpeechStartDetected,
    SpeechHypothesis,
    SpeechEndDetected,
    SpeechPhrase,
    TurnEnd,
    Unknown,
}

impl ServerEvent {
    pub open spec fn kind(self) -> EventKind {
        match self {
            ServerEvent::Connect => EventKind::Connect,
            ServerEvent::Disconnect => EventKind::Disconnect,
            ServerEvent::TurnStart => EventKind::TurnStart,
            ServerEvent::SpeechStartDetected => EventKind::SpeechStartDetected,
            ServerEvent::SpeechHypothesis(_) => EventKind::SpeechHypothesis,
            ServerEvent::SpeechEndDetected => EventKind::SpeechEndDetected,
            ServerEvent::SpeechPhrase(_) => EventKind::SpeechPhrase,
            ServerEvent::TurnEnd => EventKind::TurnEnd,
            ServerEvent::Unknown => EventKind::Unknown,
        }
    }
}

/// The event that a frame's `Path` value announces.
pub open spec fn path_kind(p: Seq<char>) -> EventKind {
    if p == "turn.start"@ {
        EventKind::TurnStart
    } else if p == "turn.end"@ {
        EventKind::TurnEnd
    } else if p == "speech.startDetected"@ {
        EventKind::SpeechStartDetected
    } else if p == "speech.endDetected"@ {
        EventKind::SpeechEndDetected
    } else if p == "speech.hypothesis"@ {
        EventKind::SpeechHypothesis
    } else if p == "speech.phrase"@ {
        EventKind::SpeechPhrase
    } else {
        EventKind::Unknown
    }
}

/// The value of the first `Path` field.
pub open spec fn frame_path(fs: Seq<(Seq<char>, Seq<char>)>) -> Option<Seq<char>>
    decreases fs.len(),
{
    if fs.len() == 0 {
        None
    } else if fs[0].0 == "Path"@ {
        Some(fs[0].1)
    } else {
        frame_path(fs.drop_first())
    }
}

/// The event that a frame with fields `fs` announces; `Unknown` without a path.
pub open spec fn frame_kind(fs: Seq<(Seq<char>, Seq<char>)>) -> EventKind {
    match frame_path(fs) {
        Some(p) => path_kind(p),
        None => EventKind::Unknown,
    }
}

/// The event that a `Path` value announces.
pub fn classify_path(p: &String) -> (r: EventKind)
    ensures
        r == path_kind(p@),
{
    if *p == String::from_str("turn.start") {
        EventKind::TurnStart
    } else if *p == String::from_str("turn.end") {
        EventKind::TurnEnd
    } else if *p == String::from_str("speech.startDetected") {
        EventKind::SpeechStartDetected
    } else if *p == String::from_str("speech.endDetected") {
        EventKind::SpeechEndDetected
    } else if *p == String::from_str("speech.hypothesis") {
        EventKind::SpeechHypothesis
    } else if *p == String::from_str("speech.phrase") {
        EventKind::SpeechPhrase
    } else {
        EventKind::Unknown
    }
}

impl TextFrame {
    /// The value of the frame's first `Path` field.
    pub fn path(&self) -> (r: Option<&String>)
        ensures
            match r {
                Some(p) => frame_path(fields_view(self.headers@)) == Some(p@),
                None => frame_path(fields_view(self.headers@)) is None,
            },
    {
        let key = String::from_str("Path");
        let ghost all = fields_view(self.headers@);
        let mut i: usize = 0;
        assert(all.subrange(0, all.len() as int) =~= all);
        while i < self.headers.len()
            invariant
                i <= self.headers.len(),
                key@ == "Path"@,
                all == fields_view(self.headers@),
                frame_path(all) == frame_path(all.subrange(i as int, all.len() as int)),
            decreases self.headers.len() - i,
        {
            let ghost rest = all.subrange(i as int, all.len() as int);
            assert(rest.drop_first() =~= all.subrange(i + 1, all.len() as int));
            assert(rest[0] == self.headers@[i as int]@);
            if self.headers[i].key == key {
                return Some(&self.headers[i].value);
            }
            i += 1;
        }
        assert(all.subrange(i as int, all.len() as int) =~= Seq::empty());
        None
    }

    /// The event that the frame announces, before its body is read.
    pub fn kind(&self) -> (r: EventKind)
        ensures
            r == frame_kind(fields_view(self.headers@)),
    {
        match self.path() {
            Some(p) => classify_path(p),
            None => EventKind::Unknown,
        }
    }
}

/// Callbacks for the events of a recognition session. Each method does
/// nothing unless the implementer says otherwise.
pub trait Handler {
    fn on_turn_start(&mut self) {
    }

    fn on_turn_end(&mut self) {
    }

    fn on_speech_start(&mut self) {
    }

    fn on_speech_end(&mut self) {
    }

    fn on_speech_hypothesis(&mut self, hypothesis: Hypothesis) {
    }

    fn on_speech_phrase(&mut self, phrase: Phrase) {
    }
}

/// The handler callback that an event goes to.
#[derive(Clone, Copy, Debug, PartialEq, Eq, Structural)]
pub enum Callback {
    TurnStart,
    TurnEnd,
    SpeechStart,
    SpeechEnd,
    SpeechHypothesis,
    SpeechPhrase,
    /// Connection and unknown events have no callback.
    Nothing,
}

/// The callback for an event of kind `k`.
pub open spec fn callback_of(k: EventKind) -> Callback {
    match k {
        EventKind::TurnStart => Callback::TurnStart,
        EventKind::TurnEnd => Callback::TurnEnd,
        EventKind::SpeechStartDetected => Callback::SpeechStart,
        EventKind::SpeechEndDetected => Callback::SpeechEnd,
        EventKind::SpeechHypothesis => Callback::SpeechHypothesis,
        EventKind::SpeechPhrase => Callback::SpeechPhrase,
        _ => Callback::Nothing,
    }
}

/// The callback that `event` goes to.
pub fn callback_for(event: &ServerEvent) -> (r: Callback)
    ensures
        r == callback_of(event.kind()),
{
    match event {
        ServerEvent::TurnStart => Callback::TurnStart,
        ServerEvent::TurnEnd => Callback::TurnEnd,
        ServerEvent::SpeechStartDetected => Callback::SpeechStart,
        ServerEvent::SpeechEndDetected => Callback::SpeechEnd,
        ServerEvent::SpeechHypothesis(_) => Callback::SpeechHypothesis,
        ServerEvent::SpeechPhrase(_) => Callback::SpeechPhrase,
        _ => Callback::Nothing,
    }
}

/// Hands one event to the callback of `handler` that `callback_for` names,
/// with the event's payload.
pub fn deliver<H: Handler>(handler: &mut H, event: ServerEvent) {
    match (callback_for(&event), event) {
        (Callback::TurnStart, _) => handler.on_turn_start(),
        (Callback::TurnEnd, _) => handler.on_turn_end(),
        (Callback::SpeechStart, _) => handler.on_speech_start(),
        (Callback::SpeechEnd, _) => handler.on_speech_end(),
        (Callback::SpeechHypothesis, ServerEvent::SpeechHypothesis(h)) => handler.on_speech_hypothesis(h),
        (Callback::SpeechPhrase, ServerEvent::SpeechPhrase(p)) => handler.on_speech_phrase(p),
        _ => {},
    }
}

} // verus!
