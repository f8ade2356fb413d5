//! The outbound queue of a connection: one writer takes the caller's events
//! in the order they were submitted and turns each into one action on the
//! transport, so that frames never interleave.

use std::collections::VecDeque;
use vstd::prelude::*;
use vstd::slice::{slice_subrange, slice_to_vec};

verus! {

/// What the caller hands to the connection.
#[derive(Debug)]
pub enum ClientEvent {
    /// A chunk of audio, sent as it is.
    Audio(Vec<u8>),
    /// Close the connection once everything before it has been handled.
    Disconnect,
}

/// The abstract value of a client event.
pub enum Outbound {
    Audio(Seq<u8>),
    Disconnect,
}

impl View for ClientEvent {
    type V = Outbound;

    open spec fn view(&self) -> Outbound {
        match self {
            ClientEvent::Audio(a) => Outbound::Audio(a@),
            ClientEvent::Disconnect => Outbound::Disconnect,
        }
    }
}

/// What the writer must do with the next event.
#[derive(Debug)]
pub enum Action {
    /// Send this audio on the transport.
    Send(Vec<u8>),
    /// The transport has failed for good: report this audio as not sent.
    Reject(Vec<u8>),
    /// Shut the transport down; the writer is done.
    Shutdown,
}

/// The abstract value of an action.
pub enum ActionView {
    Send(Seq<u8>),
    Reject(Seq<u8>),
    Shutdown,
}

impl View for Action {
    type V = ActionView;

    open spec fn view(&self) -> ActionView {
        match self {
            Action::Send(a) => ActionView::Send(a@),
            Action::Reject(a) => ActionView::Reject(a@),
            Action::Shutdown => ActionView::Shutdown,
        }
    }
}

/// The abstract state of the queue.
pub struct DispatcherView {
    /// Events submitted and not yet taken, oldest first.
    pub pending: Seq<Outbound>,
    /// Whether new events are taken in; false once a disconnect is queued.
    pub accepting: bool,
    /// Whether the transport can still carry frames.
    pub transport_ok: bool,
    /// Whether the disconnect has been taken.
    pub stopped: bool,
}

/// The events that a queue of client events holds.
pub open spec fn events_view(q: Seq<ClientEvent>) -> Seq<Outbound> {
    q.map_values(|e: ClientEvent| e@)
}

/// The queue after `e` is submitted, and whether it was taken in.
pub open spec fn after_submit(d: DispatcherView, e: Outbound) -> (DispatcherView, bool) {
    if d.accepting {
        (
            DispatcherView {
                pending: d.pending.push(e),
                accepting: !(e is Disconnect),
                transport_ok: d.transport_ok,
                stopped: d.stopped,
            },
            true,
        )
    } else {
        (d, false)
    }
}

/// The action for event `e` while the transport is, or is not, usable.
pub open spec fn action_for(e: Outbound, transport_ok: bool) -> ActionView {
    match e {
        Outbound::Audio(a) => if transport_ok {
            ActionView::Send(a)
        } else {
            ActionView::Reject(a)
        },
        Outbound::Disconnect => ActionView::Shutdown,
    }
}

/// The queue after the oldest event is taken, and the action for it.
pub open spec fn after_take(d: DispatcherView) -> (DispatcherView, Option<ActionView>) {
    if d.pending.len() == 0 {
        (d, None)
    } else {
        let e = d.pending[0];
        (
            DispatcherView {
                pending: d.pending.drop_first(),
                accepting: d.accepting,
                transport_ok: d.transport_ok,
                stopped: d.stopped || e is Disconnect,
            },
            Some(action_for(e, d.transport_ok)),
        )
    }
}

/// The queue after `n` takes, and the actions they gave, in order.
pub open spec fn drain(d: DispatcherView, n: nat) -> (DispatcherView, Seq<ActionView>)
    decreases n,
{
    if n == 0 {
        (d, Seq::empty())
    } else {
        let (d1, a) = after_take(d);
        let (d2, rest) = drain(d1, (n - 1) as nat);
        match a {
            Some(x) => (d2, seq![x] + rest),
            None => (d2, rest),
        }
    }
}

/// Whether a queue state can arise: only the newest pending event may be a
/// disconnect, a queued or taken disconnect closes the queue to new events,
/// and nothing is pending once the disconnect is taken.
pub open spec fn dispatcher_wf(d: DispatcherView) -> bool {
    &&& forall|i: int| 0 <= i < d.pending.len() - 1 ==> d.pending[i] is Audio
    &&& (d.pending.len() > 0 && d.pending.last() is Disconnect) ==> !d.accepting
    &&& d.stopped ==> !d.accepting && d.pending.len() == 0
}

/// The single writer's queue of client events.
pub struct Dispatcher {
    queue: VecDeque<ClientEvent>,
    accepting: bool,
    transport_ok: bool,
    stopped: bool,
}

impl View for Dispatcher {
    type V = DispatcherView;

    closed spec fn view(&self) -> DispatcherView {
        DispatcherView {
            pending: events_view(self.queue@),
            accepting: self.accepting,
            transport_ok: self.transport_ok,
            stopped: self.stopped,
        }
    }
}

impl Dispatcher {
    /// An empty queue on a usable transport.
    pub fn new() -> (r: Dispatcher)
        ensures
            r@ == (DispatcherView {
                pending: Seq::empty(),
                accepting: true,
                transport_ok: true,
                stopped: false,
            }),
            dispatcher_wf(r@),
    {
        let r = Dispatcher {
            queue: VecDeque::new(),
            accepting: true,
            transport_ok: true,
            stopped: false,
        };
        assert(events_view(r.queue@) =~= Seq::empty());
        r
    }

    /// Queues `event` behind everything submitted before it. Once a
    /// disconnect is queued no event is taken in: it is handed back.
    pub fn submit(&mut self, event: ClientEvent) -> (r: Result<(), ClientEvent>)
        ensures
            dispatcher_wf(old(self)@) ==> dispatcher_wf(final(self)@),
            final(self)@ == after_submit(old(self)@, event@).0,
            r is Ok <==> after_submit(old(self)@, event@).1,
            match r {
                Ok(_) => true,
                Err(e) => e@ == event@,
            },
    {
        if !self.accepting {
            return Err(event);
        }
        let is_disconnect = match &event {
            ClientEvent::Disconnect => true,
            ClientEvent::Audio(_) => false,
        };
        let ghost e = event@;
        let ghost before = self.queue@;
        self.queue.push_back(event);
        assert(events_view(self.queue@) =~= events_view(before).push(e));
        if is_disconnect {
            self.accepting = false;
        }
        Ok(())
    }

    /// Takes the oldest event and says what to do with it: send audio while
    /// the transport is usable, report it as not sent once the transport has
    /// failed for good, shut down on a disconnect.
    pub fn next_action(&mut self) -> (r: Option<Action>)
        ensures
            dispatcher_wf(old(self)@) ==> dispatcher_wf(final(self)@),
            final(self)@ == after_take(old(self)@).0,
            match r {
                Some(a) => after_take(old(self)@).1 == Some(a@),
                None => after_take(old(self)@).1 is None,
            },
    {
        let ghost before = self.queue@;
        match self.queue.pop_front() {
            None => None,
            Some(e) => {
                assert(events_view(self.queue@) =~= events_view(before).drop_first());
                match e {
                    ClientEvent::Audio(a) => {
                        if self.transport_ok {
                            Some(Action::Send(a))
                        } else {
                            Some(Action::Reject(a))
                        }
                    },
                    ClientEvent::Disconnect => {
                        self.stopped = true;
                        Some(Action::Shutdown)
                    },
                }
            },
        }
    }

    /// The transport reported a failed send. A terminal failure makes every
    /// later audio event come out as `Reject`; another failure changes nothing.
    pub fn send_failed(&mut self, terminal: bool)
        ensures
            dispatcher_wf(old(self)@) ==> dispatcher_wf(final(self)@),
            final(self)@ == (DispatcherView {
                transport_ok: old(self)@.transport_ok && !terminal,
                ..old(self)@
            }),
    {
        if terminal {
            self.transport_ok = false;
        }
    }

    /// Whether the disconnect has been taken: the writer may exit.
    pub fn is_stopped(&self) -> (r: bool)
        ensures
            r == self@.stopped,
    {
        self.stopped
    }
}

/// Taking every audio event queued ahead of a disconnect yields one action
/// for each of them, in order, and then the shutdown.
proof fn lemma_drain_to_disconnect(d: DispatcherView, audio: Seq<Outbound>)
    requires
        forall|i: int| 0 <= i < audio.len() ==> audio[i] is Audio,
        d.pending == audio.push(Outbound::Disconnect),
    ensures
        drain(d, audio.len() + 1).1 == audio.map_values(|e: Outbound| action_for(e, d.transport_ok))
            + seq![ActionView::Shutdown],
        drain(d, audio.len() + 1).0.pending.len() == 0,
        drain(d, audio.len() + 1).0.stopped,
    decreases audio.len(),
{
    let (d1, a) = after_take(d);
    if audio.len() == 0 {
        assert(d.pending[0] == Outbound::Disconnect);
        assert(drain(d1, 0).1 =~= Seq::empty());
        assert(audio.map_values(|e: Outbound| action_for(e, d.transport_ok)) =~= Seq::empty());
    } else {
        assert(d.pending[0] == audio[0]);
        let rest = audio.drop_first();
        assert(d1.pending =~= rest.push(Outbound::Disconnect));
        assert forall|i: int| 0 <= i < rest.len() implies rest[i] is Audio by {
            assert(rest[i] == audio[i + 1]);
        }
        lemma_drain_to_disconnect(d1, rest);
        assert(audio.map_values(|e: Outbound| action_for(e, d.transport_ok)) =~= seq![
            action_for(audio[0], d.transport_ok),
        ] + rest.map_values(|e: Outbound| action_for(e, d1.transport_ok)));
    }
}

/// A disconnect submitted behind pending audio is taken in, and the writer
/// handles every one of those audio events, in the order they were
/// submitted, before it shuts the transport down: each is sent, or reported
/// as not sent when the transport has failed for good. None is lost.
pub proof fn lemma_disconnect_after_pending(d: DispatcherView)
    requires
        dispatcher_wf(d),
        d.accepting,
    ensures
        ({
            let (queued, taken) = after_submit(d, Outbound::Disconnect);
            let (done, actions) = drain(queued, d.pending.len() + 1);
            &&& taken
            &&& actions == d.pending.map_values(|e: Outbound| action_for(e, d.transport_ok)) + seq![
                ActionView::Shutdown,
            ]
            &&& done.pending.len() == 0
            &&& done.stopped
        }),
{
    let (queued, _) = after_submit(d, Outbound::Disconnect);
    assert forall|i: int| 0 <= i < d.pending.len() implies d.pending[i] is Audio by {
        if i == d.pending.len() - 1 && d.pending[i] is Disconnect {
            assert(d.pending.last() is Disconnect);
        }
    }
    lemma_drain_to_disconnect(queued, d.pending);
}

/// `s` cut into pieces of `size` elements, the last one shorter when the
/// length is not a multiple of `size`.
pub open spec fn chunks(s: Seq<u8>, size: nat) -> Seq<Seq<u8>>
    decreases s.len(),
{
    if s.len() == 0 || size == 0 {
        Seq::empty()
    } else if s.len() <= size {
        seq![s]
    } else {
        seq![s.take(size as int)] + chunks(s.skip(size as int), size)
    }
}

/// The pieces joined back together.
pub open spec fn concat(pieces: Seq<Seq<u8>>) -> Seq<u8>
    decreases pieces.len(),
{
    if pieces.len() == 0 {
        Seq::empty()
    } else {
        pieces[0] + concat(pieces.drop_first())
    }
}

/// The byte sequences that a list of buffers holds.
pub open spec fn buffers_view(v: Seq<Vec<u8>>) -> Seq<Seq<u8>> {
    v.map_values(|b: Vec<u8>| b@)
}

/// Cuts `audio` into chunks of `size` bytes, in order, for one audio event
/// each; the last chunk is shorter when the length is not a multiple of `size`.
pub fn chunk_audio(audio: &[u8], size: usize) -> (r: Vec<Vec<u8>>)
    requires
        size > 0,
    ensures
        buffers_view(r@) == chunks(audio@, size as nat),
{
    let n = audio.len();
    let mut out: Vec<Vec<u8>> = Vec::new();
    let mut start: usize = 0;
    assert(audio@.subrange(0, n as int) =~= audio@);
    while start < n
        invariant
            start <= n == audio@.len(),
            size > 0,
            chunks(audio@, size as nat) == buffers_view(out@) + chunks(
                audio@.subrange(start as int, n as int),
                size as nat,
            ),
        decreases n - start,
    {
        let ghost rest = audio@.subrange(start as int, n as int);
        let end = if n - start <= size {
            n
        } else {
            start + size
        };
        let piece = slice_to_vec(slice_subrange(audio, start, end));
        let ghost before = out@;
        out.push(piece);
        proof {
            assert(buffers_view(out@) =~= buffers_view(before).push(piece@));
            if n - start <= size {
                assert(piece@ =~= rest);
                assert(audio@.subrange(end as int, n as int) =~= Seq::<u8>::empty());
                assert(buffers_view(before) + seq![rest] =~= buffers_view(out@) + Seq::empty());
            } else {
                assert(piece@ =~= rest.take(size as int));
                assert(rest.skip(size as int) =~= audio@.subrange(end as int, n as int));
                assert(buffers_view(before) + (seq![piece@] + chunks(rest.skip(size as int), size as nat))
                    =~= buffers_view(out@) + chunks(audio@.subrange(end as int, n as int), size as nat));
            }
        }
        start = end;
    }
    assert(audio@.subrange(n as int, n as int) =~= Seq::<u8>::empty());
    assert(buffers_view(out@) + Seq::empty() =~= buffers_view(out@));
    out
}

/// Chunking loses nothing: the chunks joined in order give back the audio,
/// and each holds between one and `size` bytes.
pub proof fn lemma_chunks_concat(s: Seq<u8>, size: nat)
    requires
        size > 0,
    ensures
        concat(chunks(s, size)) == s,
        forall|i: int|
            0 <= i < chunks(s, size).len() ==> 0 < #[trigger] chunks(s, size)[i].len() <= size,
    decreases s.len(),
{
    if s.len() == 0 {
        assert(s =~= Seq::<u8>::empty());
    } else if s.len() <= size {
        assert(chunks(s, size).drop_first() =~= Seq::<Seq<u8>>::empty());
        assert(concat(Seq::<Seq<u8>>::empty()) == Seq::<u8>::empty());
        assert(chunks(s, size)[0] == s);
        assert(concat(chunks(s, size)) =~= s + Seq::<u8>::empty());
    } else {
        let rest = s.skip(size as int);
        lemma_chunks_concat(rest, size);
        assert(chunks(s, size).drop_first() =~= chunks(rest, size));
        assert(s.take(size as int) + rest =~= s);
        assert forall|i: int| 0 <= i < chunks(s, size).len() implies 0 < #[trigger] chunks(
            s,
            size,
        )[i].len() <= size by {
            if i > 0 {
                assert(chunks(s, size)[i] == chunks(rest, size)[i - 1]);
            }
        }
    }
}

} // verus!
