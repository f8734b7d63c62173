//! The four byte pumps that bridge one browser WebSocket to one ADB socket.
//!
//! Each pump waits, in a loop, on the shutdown token and on its source; what
//! it reads it hands to its sink and waits for the hand-over to finish. The
//! asynchronous plumbing lives with the caller; this module decides, for the
//! state of a pump and what just happened, what the pump does next.
use vstd::prelude::*;

verus! {

/// Size of the buffer into which one read from the ADB socket is made.
pub const ADB_READ_BUFFER_SIZE: usize = 1048576;

/// Capacity of each of the two channels that join the pumps.
pub const CHANNEL_CAPACITY: usize = 16;

/// Which of the four pumps a state belongs to.
#[derive(Clone, Copy, Debug, PartialEq, Eq, Structural)]
pub enum PumpKind {
    /// WebSocket messages to the channel towards ADB.
    WsReader,
    /// Channel items written to the ADB socket.
    AdbWriter,
    /// Reads from the ADB socket to the channel towards the WebSocket.
    AdbReader,
    /// Channel items sent as binary WebSocket messages.
    WsWriter,
}

impl PumpKind {
    /// The two writers take their input from a channel and own a sink that
    /// is closed when they stop.
    pub open spec fn is_writer(self) -> bool {
        self == PumpKind::AdbWriter || self == PumpKind::WsWriter
    }
}

/// Where a pump stands in its loop.
#[derive(Clone, Copy, Debug, PartialEq, Eq, Structural)]
pub enum PumpPhase {
    /// Waiting on both the shutdown token and the source.
    Listening,
    /// Waiting for the sink to take one payload.
    Delivering,
    /// The source channel is closed; only the shutdown token can end the wait.
    ShutdownOnly,
    /// The loop has ended.
    Finished,
}

/// A pump's state.
#[derive(Clone, Copy, Debug, PartialEq, Eq, Structural)]
pub struct Pump {
    pub kind: PumpKind,
    pub phase: PumpPhase,
}

/// A message received on the WebSocket, reduced to what the bridge reads.
#[derive(Debug)]
pub enum WsFrame {
    Text,
    Binary(Vec<u8>),
    Ping,
    Pong,
    Close,
}

/// What a pump observed.
#[derive(Debug)]
pub enum PumpEvent {
    /// The shutdown token was cancelled.
    Cancelled,
    /// The WebSocket yielded a message.
    Frame(WsFrame),
    /// The source channel yielded an item.
    Chunk(Vec<u8>),
    /// A read from the ADB socket filled the first `n` bytes of the buffer.
    Read(Vec<u8>, usize),
    /// The source is exhausted: the stream ended or failed, the socket read
    /// failed, or the channel was closed.
    SourceEnded,
    /// The sink took the payload.
    Delivered,
    /// The sink refused the payload.
    DeliveryFailed,
}

/// What a pump does next.
#[derive(Debug)]
pub enum PumpAction {
    /// Wait again on the shutdown token and the source.
    Await,
    /// Wait on the shutdown token alone.
    AwaitShutdown,
    /// Hand this payload to the sink and report how that went.
    Deliver(Vec<u8>),
    /// Leave the loop; close the sink first when `close_sink` is set.
    Finish { close_sink: bool },
}

/// Mathematical form of a [`PumpAction`].
pub enum PumpActionView {
    Await,
    AwaitShutdown,
    Deliver(Seq<u8>),
    Finish { close_sink: bool },
}

impl View for PumpAction {
    type V = PumpActionView;

    open spec fn view(&self) -> PumpActionView {
        match self {
            PumpAction::Await => PumpActionView::Await,
            PumpAction::AwaitShutdown => PumpActionView::AwaitShutdown,
            PumpAction::Deliver(b) => PumpActionView::Deliver(b@),
            PumpAction::Finish { close_sink } => PumpActionView::Finish { close_sink: *close_sink },
        }
    }
}

/// The bytes that a read of `n` bytes leaves in `buf`.
pub open spec fn read_prefix(buf: Seq<u8>, n: int) -> Seq<u8> {
    if n < buf.len() {
        buf.take(n)
    } else {
        buf
    }
}

/// Which events can occur in a state: those the loop is waiting for.
pub open spec fn accepts_spec(p: Pump, e: PumpEvent) -> bool {
    match p.phase {
        PumpPhase::Listening => match e {
            PumpEvent::Cancelled => true,
            PumpEvent::Frame(_) => p.kind == PumpKind::WsReader,
            PumpEvent::Chunk(_) => p.kind.is_writer(),
            PumpEvent::Read(_, _) => p.kind == PumpKind::AdbReader,
            PumpEvent::SourceEnded => true,
            _ => false,
        },
        PumpPhase::Delivering => e is Delivered || e is DeliveryFailed,
        PumpPhase::ShutdownOnly => e is Cancelled,
        PumpPhase::Finished => false,
    }
}

/// The state and action of a pump that leaves its loop.
pub open spec fn finish_of(p: Pump) -> (Pump, PumpActionView) {
    (
        Pump { kind: p.kind, phase: PumpPhase::Finished },
        PumpActionView::Finish { close_sink: p.kind.is_writer() },
    )
}

/// One turn of a pump's loop.
pub open spec fn step_spec(p: Pump, e: PumpEvent) -> (Pump, PumpActionView) {
    let delivering = Pump { kind: p.kind, phase: PumpPhase::Delivering };
    match p.phase {
        PumpPhase::Listening => match e {
            PumpEvent::Cancelled => finish_of(p),
            PumpEvent::Frame(WsFrame::Binary(b)) => (delivering, PumpActionView::Deliver(b@)),
            PumpEvent::Frame(_) => (p, PumpActionView::Await),
            PumpEvent::Chunk(c) => (delivering, PumpActionView::Deliver(c@)),
            PumpEvent::Read(b, n) => if n == 0 {
                finish_of(p)
            } else {
                (delivering, PumpActionView::Deliver(read_prefix(b@, n as int)))
            },
            PumpEvent::SourceEnded => if p.kind.is_writer() {
                (Pump { kind: p.kind, phase: PumpPhase::ShutdownOnly }, PumpActionView::AwaitShutdown)
            } else {
                finish_of(p)
            },
            _ => (p, PumpActionView::Await),
        },
        PumpPhase::Delivering => match e {
            PumpEvent::Delivered => (
                Pump { kind: p.kind, phase: PumpPhase::Listening },
                PumpActionView::Await,
            ),
            PumpEvent::DeliveryFailed => finish_of(p),
            _ => (p, PumpActionView::Await),
        },
        PumpPhase::ShutdownOnly => match e {
            PumpEvent::Cancelled => finish_of(p),
            _ => (p, PumpActionView::AwaitShutdown),
        },
        PumpPhase::Finished => (p, PumpActionView::Await),
    }
}

impl Pump {
    /// A pump of the given kind at the top of its loop.
    pub fn new(kind: PumpKind) -> (p: Pump)
        ensures
            p.kind == kind,
            p.phase == PumpPhase::Listening,
    {
        Pump { kind, phase: PumpPhase::Listening }
    }

    /// Whether the loop has ended.
    pub fn is_finished(&self) -> (r: bool)
        ensures
            r == (self.phase == PumpPhase::Finished),
    {
        self.phase == PumpPhase::Finished
    }

    /// Whether `event` is one the pump waits for in its current state.
    pub fn accepts(&self, event: &PumpEvent) -> (r: bool)
        ensures
            r == accepts_spec(*self, *event),
    {
        match self.phase {
            PumpPhase::Listening => match event {
                PumpEvent::Cancelled => true,
                PumpEvent::Frame(_) => self.kind == PumpKind::WsReader,
                PumpEvent::Chunk(_) => self.kind == PumpKind::AdbWriter || self.kind
                    == PumpKind::WsWriter,
                PumpEvent::Read(_, _) => self.kind == PumpKind::AdbReader,
                PumpEvent::SourceEnded => true,
                _ => false,
            },
            PumpPhase::Delivering => match event {
                PumpEvent::Delivered => true,
                PumpEvent::DeliveryFailed => true,
                _ => false,
            },
            PumpPhase::ShutdownOnly => match event {
                PumpEvent::Cancelled => true,
                _ => false,
            },
            PumpPhase::Finished => false,
        }
    }

    fn finish(&mut self) -> (a: PumpAction)
        ensures
            (*final(self), a@) == finish_of(*old(self)),
    {
        let close_sink = self.kind == PumpKind::AdbWriter || self.kind == PumpKind::WsWriter;
        self.phase = PumpPhase::Finished;
        PumpAction::Finish { close_sink }
    }

    /// Takes one turn of the loop: updates the state for `event` and says
    /// what to do next.
    pub fn step(&mut self, event: PumpEvent) -> (a: PumpAction)
        requires
            accepts_spec(*old(self), event),
        ensures
            (*final(self), a@) == step_spec(*old(self), event),
    {
        match self.phase {
            PumpPhase::Listening => match event {
                PumpEvent::Cancelled => self.finish(),
                PumpEvent::Frame(WsFrame::Binary(b)) => {
                    self.phase = PumpPhase::Delivering;
                    PumpAction::Deliver(b)
                },
                PumpEvent::Frame(_) => PumpAction::Await,
                PumpEvent::Chunk(c) => {
                    self.phase = PumpPhase::Delivering;
                    PumpAction::Deliver(c)
                },
                PumpEvent::Read(b, n) => {
                    if n == 0 {
                        self.finish()
                    } else {
                        let mut buf = b;
                        let ghost before = buf@;
                        buf.truncate(n);
                        assert(buf@ =~= read_prefix(before, n as int));
                        self.phase = PumpPhase::Delivering;
                        PumpAction::Deliver(buf)
                    }
                },
                PumpEvent::SourceEnded => {
                    if self.kind == PumpKind::AdbWriter || self.kind == PumpKind::WsWriter {
                        self.phase = PumpPhase::ShutdownOnly;
                        PumpAction::AwaitShutdown
                    } else {
                        self.finish()
                    }
                },
                _ => PumpAction::Await,
            },
            PumpPhase::Delivering => match event {
                PumpEvent::Delivered => {
                    self.phase = PumpPhase::Listening;
                    PumpAction::Await
                },
                _ => self.finish(),
            },
            PumpPhase::ShutdownOnly => self.finish(),
            PumpPhase::Finished => PumpAction::Await,
        }
    }
}

/// The state reached and the actions taken by a pump that starts in `p` and
/// observes `evs` in order.
pub open spec fn run(p: Pump, evs: Seq<PumpEvent>) -> (Pump, Seq<PumpActionView>)
    decreases evs.len(),
{
    if evs.len() == 0 {
        (p, Seq::empty())
    } else {
        let before = run(p, evs.drop_last());
        let turn = step_spec(before.0, evs.last());
        (turn.0, before.1.push(turn.1))
    }
}

/// Every event of `evs` is one the pump waits for when it occurs.
pub open spec fn accepts_all(p: Pump, evs: Seq<PumpEvent>) -> bool
    decreases evs.len(),
{
    if evs.len() == 0 {
        true
    } else {
        accepts_all(p, evs.drop_last()) && accepts_spec(run(p, evs.drop_last()).0, evs.last())
    }
}

/// The payload an event offers to the pump, if any.
pub open spec fn offer(e: PumpEvent) -> Option<Seq<u8>> {
    match e {
        PumpEvent::Frame(WsFrame::Binary(b)) => Some(b@),
        PumpEvent::Chunk(c) => Some(c@),
        PumpEvent::Read(b, n) => if n == 0 {
            None
        } else {
            Some(read_prefix(b@, n as int))
        },
        _ => None,
    }
}

/// The payloads offered by `evs`, in order.
pub open spec fn offers(evs: Seq<PumpEvent>) -> Seq<Seq<u8>>
    decreases evs.len(),
{
    if evs.len() == 0 {
        Seq::empty()
    } else {
        match offer(evs.last()) {
            Some(b) => offers(evs.drop_last()).push(b),
            None => offers(evs.drop_last()),
        }
    }
}

/// The payloads handed to the sink by `acts`, in order.
pub open spec fn deliveries(acts: Seq<PumpActionView>) -> Seq<Seq<u8>>
    decreases acts.len(),
{
    if acts.len() == 0 {
        Seq::empty()
    } else {
        match acts.last() {
            PumpActionView::Deliver(b) => deliveries(acts.drop_last()).push(b),
            _ => deliveries(acts.drop_last()),
        }
    }
}

/// Faithful forwarding: whatever the events, as long as each is one the pump
/// waits for, the pump hands to its sink exactly the payloads it was offered
/// (binary messages, channel items, the bytes each read filled), unchanged
/// and in the order they came.
pub proof fn lemma_forwarding_is_faithful(p: Pump, evs: Seq<PumpEvent>)
    requires
        accepts_all(p, evs),
    ensures
        deliveries(run(p, evs).1) == offers(evs),
    decreases evs.len(),
{
    if evs.len() > 0 {
        let prefix = evs.drop_last();
        lemma_forwarding_is_faithful(p, prefix);
        let before = run(p, prefix);
        let turn = step_spec(before.0, evs.last());
        assert(before.1.push(turn.1).drop_last() =~= before.1);
    }
}

/// A pump that has left its loop waits for nothing more.
pub proof fn lemma_finished_is_final(p: Pump, e: PumpEvent)
    requires
        p.phase == PumpPhase::Finished,
    ensures
        !accepts_spec(p, e),
{
}

/// Cancellation ends every wait on the shutdown token: it always leaves the
/// loop, and the writers close their sink on the way out.
pub proof fn lemma_cancel_ends_the_loop(p: Pump)
    requires
        p.phase == PumpPhase::Listening || p.phase == PumpPhase::ShutdownOnly,
    ensures
        accepts_spec(p, PumpEvent::Cancelled),
        step_spec(p, PumpEvent::Cancelled) == finish_of(p),
        step_spec(p, PumpEvent::Cancelled).1 == (PumpActionView::Finish {
            close_sink: p.kind.is_writer(),
        }),
{
}

/// A refused hand-over always ends the loop.
pub proof fn lemma_failed_delivery_ends_the_loop(p: Pump)
    requires
        p.phase == PumpPhase::Delivering,
    ensures
        accepts_spec(p, PumpEvent::DeliveryFailed),
        step_spec(p, PumpEvent::DeliveryFailed).0.phase == PumpPhase::Finished,
{
}

/// The loop is left at most once: in a run of events the pump waits for,
/// from a pump that has not finished, only the last action can be a
/// `Finish`, and the pump has finished exactly when it was one.
pub proof fn lemma_single_finish(p: Pump, evs: Seq<PumpEvent>)
    requires
        accepts_all(p, evs),
        p.phase != PumpPhase::Finished,
    ensures
        forall|i: int|
            0 <= i < run(p, evs).1.len() - 1 ==> !(#[trigger] run(p, evs).1[i] is Finish),
        run(p, evs).1.len() == evs.len(),
        (run(p, evs).0.phase == PumpPhase::Finished) <==> (evs.len() > 0 && run(p, evs).1.last() is Finish),
    decreases evs.len(),
{
    if evs.len() > 0 {
        let prefix = evs.drop_last();
        lemma_single_finish(p, prefix);
        let before = run(p, prefix);
        let acts = run(p, evs).1;
        assert(acts.drop_last() =~= before.1);
        assert forall|i: int| 0 <= i < acts.len() - 1 implies !(#[trigger] acts[i] is Finish) by {
            assert(acts[i] == before.1[i]);
            if i == before.1.len() - 1 {
                assert(before.0.phase != PumpPhase::Finished);
            }
        }
    }
}

/// The payloads of the binary messages among `evs`, in order.
pub open spec fn binary_messages(evs: Seq<PumpEvent>) -> Seq<Seq<u8>>
    decreases evs.len(),
{
    if evs.len() == 0 {
        Seq::empty()
    } else {
        match evs.last() {
            PumpEvent::Frame(WsFrame::Binary(b)) => binary_messages(evs.drop_last()).push(b@),
            _ => binary_messages(evs.drop_last()),
        }
    }
}

/// A pump keeps its kind through any run.
pub proof fn lemma_run_keeps_kind(p: Pump, evs: Seq<PumpEvent>)
    ensures
        run(p, evs).0.kind == p.kind,
    decreases evs.len(),
{
    if evs.len() > 0 {
        lemma_run_keeps_kind(p, evs.drop_last());
    }
}

/// What the WebSocket reader is offered are exactly the payloads of the
/// binary messages it receives.
pub proof fn lemma_reader_offers_are_binary_messages(p: Pump, evs: Seq<PumpEvent>)
    requires
        p.kind == PumpKind::WsReader,
        accepts_all(p, evs),
    ensures
        offers(evs) == binary_messages(evs),
    decreases evs.len(),
{
    if evs.len() > 0 {
        lemma_reader_offers_are_binary_messages(p, evs.drop_last());
        lemma_run_keeps_kind(p, evs.drop_last());
    }
}

/// The items a first-in first-out channel has handed out, given everything
/// put into it: the first items put in, in the order they were put in.
pub open spec fn fifo_handed_out(put: Seq<Seq<u8>>, taken: Seq<Seq<u8>>) -> bool {
    taken.len() <= put.len() && taken == put.take(taken.len() as int)
}

/// End-to-end forwarding from the browser to ADB: when the WebSocket reader
/// feeds the ADB writer through a first-in first-out channel, the writer
/// writes to ADB the payloads of the browser's binary messages, unchanged
/// and in order, as far as they have come through; once the channel has
/// handed out everything put into it, ADB has received exactly the
/// concatenation of those payloads. The same holds from ADB to the browser
/// for the ADB reader and the WebSocket writer, with the bytes each read
/// filled in place of the binary messages.
pub proof fn lemma_bridge_forwards_end_to_end(
    reader: Pump,
    reader_evs: Seq<PumpEvent>,
    writer: Pump,
    writer_evs: Seq<PumpEvent>,
)
    requires
        accepts_all(reader, reader_evs),
        accepts_all(writer, writer_evs),
        fifo_handed_out(deliveries(run(reader, reader_evs).1), offers(writer_evs)),
    ensures
        fifo_handed_out(offers(reader_evs), deliveries(run(writer, writer_evs).1)),
        reader.kind == PumpKind::WsReader ==> fifo_handed_out(
            binary_messages(reader_evs),
            deliveries(run(writer, writer_evs).1),
        ),
        offers(writer_evs) == deliveries(run(reader, reader_evs).1) ==> deliveries(
            run(writer, writer_evs).1,
        ).flatten() == offers(reader_evs).flatten(),
        reader.kind == PumpKind::WsReader && offers(writer_evs) == deliveries(
            run(reader, reader_evs).1,
        ) ==> deliveries(run(writer, writer_evs).1).flatten() == binary_messages(
            reader_evs,
        ).flatten(),
{
    lemma_forwarding_is_faithful(reader, reader_evs);
    lemma_forwarding_is_faithful(writer, writer_evs);
    if reader.kind == PumpKind::WsReader {
        lemma_reader_offers_are_binary_messages(reader, reader_evs);
    }
}

/// A listening pump waits for its own source, and every waiting state waits
/// for the events that can end the wait: a listening pump takes the shutdown
/// signal, the end of its source, and every item its source can yield (any
/// channel item for a writer, any WebSocket message for the WebSocket
/// reader, any read for the ADB reader); a delivering pump takes either
/// outcome of the hand-over; a pump whose channel closed takes the shutdown
/// signal.
pub proof fn lemma_waits_for_its_source(p: Pump)
    ensures
        p.phase == PumpPhase::Listening ==> accepts_spec(p, PumpEvent::Cancelled) && accepts_spec(
            p,
            PumpEvent::SourceEnded,
        ),
        p.phase == PumpPhase::Listening && p.kind.is_writer() ==> forall|c: Vec<u8>|
            #[trigger] accepts_spec(p, PumpEvent::Chunk(c)),
        p.phase == PumpPhase::Listening && p.kind == PumpKind::WsReader ==> forall|f: WsFrame|
            #[trigger] accepts_spec(p, PumpEvent::Frame(f)),
        p.phase == PumpPhase::Listening && p.kind == PumpKind::AdbReader ==> forall|
            b: Vec<u8>,
            n: usize,
        | #[trigger] accepts_spec(p, PumpEvent::Read(b, n)),
        p.phase == PumpPhase::Delivering ==> accepts_spec(p, PumpEvent::Delivered) && accepts_spec(
            p,
            PumpEvent::DeliveryFailed,
        ),
        p.phase == PumpPhase::ShutdownOnly ==> accepts_spec(p, PumpEvent::Cancelled),
{
}

/// After a successful hand-over every pump goes back to listening on its
/// source, with nothing else to do.
pub proof fn lemma_delivery_resumes_listening(p: Pump)
    requires
        p.phase == PumpPhase::Delivering,
    ensures
        step_spec(p, PumpEvent::Delivered).0 == (Pump { kind: p.kind, phase: PumpPhase::Listening }),
        step_spec(p, PumpEvent::Delivered).1 == PumpActionView::Await,
{
}

/// A pump leaves its loop only on the shutdown signal, on the end of a
/// source it reads itself (the WebSocket stream or the ADB socket), on a
/// read of zero bytes, or on a refused hand-over; and any event after which
/// it has not left keeps its kind.
pub proof fn lemma_what_ends_the_loop(p: Pump, e: PumpEvent)
    requires
        accepts_spec(p, e),
    ensures
        step_spec(p, e).0.kind == p.kind,
        step_spec(p, e).0.phase == PumpPhase::Finished ==> (e is Cancelled || (e is SourceEnded
            && !p.kind.is_writer()) || (e matches PumpEvent::Read(_, n) && n == 0)
            || e is DeliveryFailed),
        step_spec(p, e).0.phase == PumpPhase::Finished <==> step_spec(p, e).1 is Finish,
{
}

/// A WebSocket message that is not binary is ignored: the reader keeps
/// listening and hands nothing over.
pub proof fn lemma_non_binary_messages_are_ignored(p: Pump, f: WsFrame)
    requires
        p.phase == PumpPhase::Listening,
        p.kind == PumpKind::WsReader,
        !(f is Binary),
    ensures
        step_spec(p, PumpEvent::Frame(f)).0 == p,
        step_spec(p, PumpEvent::Frame(f)).1 == PumpActionView::Await,
{
}

/// A fresh, zeroed buffer for one read from the ADB socket.
pub fn read_buffer() -> (buf: Vec<u8>)
    ensures
        buf@.len() == ADB_READ_BUFFER_SIZE,
        forall|i: int| 0 <= i < buf@.len() ==> buf@[i] == 0,
{
    vec![0u8; ADB_READ_BUFFER_SIZE]
}

} // verus!
