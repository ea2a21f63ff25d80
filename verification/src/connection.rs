//! One accepted connection: its handshake, its stream-accept loop, and
//! the registry of the stream tasks it dispatched.
//!
//! Dispatch is fire-and-forget: accepting a stream appends a fresh task
//! and the loop is immediately ready for the next one. Delivering an event
//! to one stream touches that stream alone — the sibling streams and the
//! accept loop are untouched, which is the failure-containment guarantee.

use vstd::prelude::*;

use crate::chunks::concat_chunks;
use crate::echo::{
    echo_action_of, echo_enabled, echo_ev_of, echo_step, echo_wf, run_clean_echo, EchoAction,
    EchoActionModel, EchoEv, EchoEvent, EchoModel, EchoPhase, EchoTask,
};
use crate::exchange::{ExchangeModel, ExchangePhase, ResponseTask};

verus! {

/// Which per-stream protocol this connection serves, chosen when the
/// connection is constructed.
#[derive(Clone, Copy, Debug, PartialEq, Eq, Structural)]
pub enum StreamProtocol {
    /// Raw bidirectional streams, echoed byte for byte.
    Echo,
    /// Resolved request/response exchanges.
    RequestResponse,
}

/// Where the connection task stands.
#[derive(Clone, Copy, Debug, PartialEq, Eq, Structural)]
pub enum ConnPhase {
    /// The handshake is pending; no stream was accepted yet.
    Handshaking,
    /// The handshake succeeded; the stream-accept loop is running.
    Accepting,
    /// The peer closed the connection cleanly; the loop ended.
    ClosedByPeer,
    /// The handshake or the accept loop failed; this connection alone ended.
    Failed,
}

/// One dispatched stream task, tagged by protocol.
pub enum StreamTask {
    EchoStream(EchoTask),
    Exchange(ResponseTask),
}

/// Spec-level state of one dispatched stream task.
pub enum StreamModel {
    EchoStream(EchoModel),
    Exchange(ExchangeModel),
}

impl View for StreamTask {
    type V = StreamModel;

    open spec fn view(&self) -> StreamModel {
        match self {
            StreamTask::EchoStream(e) => StreamModel::EchoStream(e@),
            StreamTask::Exchange(x) => StreamModel::Exchange(x@),
        }
    }
}

/// The echo machine inside a stream model.
pub open spec fn echo_of(s: StreamModel) -> EchoModel {
    match s {
        StreamModel::EchoStream(e) => e,
        StreamModel::Exchange(_) => arbitrary(),
    }
}

/// One connection task: protocol, phase, and the registry of the stream
/// tasks it dispatched, in dispatch order.
pub struct ConnectionTask {
    pub protocol: StreamProtocol,
    pub phase: ConnPhase,
    pub streams: Vec<StreamTask>,
}

/// Spec-level state of a connection task.
#[verifier::ext_equal]
pub struct ConnModel {
    pub protocol: StreamProtocol,
    pub phase: ConnPhase,
    pub streams: Seq<StreamModel>,
}

impl View for ConnectionTask {
    type V = ConnModel;

    open spec fn view(&self) -> ConnModel {
        ConnModel {
            protocol: self.protocol,
            phase: self.phase,
            streams: self.streams@.map_values(|s: StreamTask| s@),
        }
    }
}

/// A connection that has not completed its handshake dispatched nothing,
/// and every stream it dispatched runs the protocol chosen when the
/// connection was constructed.
pub open spec fn conn_wf(c: ConnModel) -> bool {
    &&& c.phase == ConnPhase::Handshaking ==> c.streams.len() == 0
    &&& forall|j: int|
        0 <= j < c.streams.len() ==> (((#[trigger] c.streams[j]) is EchoStream) <==> c.protocol
            == StreamProtocol::Echo)
}

/// The task a freshly accepted stream gets, by protocol.
pub open spec fn fresh_stream(p: StreamProtocol) -> StreamModel {
    match p {
        StreamProtocol::Echo => StreamModel::EchoStream(
            EchoModel {
                phase: EchoPhase::AwaitingRead,
                read_log: Seq::<u8>::empty(),
                write_log: Seq::<u8>::empty(),
                pending: Seq::<u8>::empty(),
            },
        ),
        StreamProtocol::RequestResponse => StreamModel::Exchange(
            ExchangeModel {
                phase: ExchangePhase::AwaitingResolve,
                status: None,
                body: Seq::<u8>::empty(),
            },
        ),
    }
}

/// A freshly dispatched connection: handshake pending, no streams.
pub open spec fn spec_conn_new(p: StreamProtocol) -> ConnModel {
    ConnModel { protocol: p, phase: ConnPhase::Handshaking, streams: Seq::<StreamModel>::empty() }
}

/// The handshake outcome: success starts the accept loop, failure ends
/// this connection before any stream is accepted.
pub open spec fn spec_handshake(c: ConnModel, ok: bool) -> ConnModel {
    if c.phase == ConnPhase::Handshaking {
        if ok {
            ConnModel { phase: ConnPhase::Accepting, ..c }
        } else {
            ConnModel { phase: ConnPhase::Failed, ..c }
        }
    } else {
        c
    }
}

/// Accepting one stream: a fresh task is appended and the loop stays in
/// `Accepting` — it never waits for the dispatched task.
pub open spec fn spec_accept_stream(c: ConnModel) -> ConnModel {
    if c.phase == ConnPhase::Accepting {
        ConnModel { streams: c.streams.push(fresh_stream(c.protocol)), ..c }
    } else {
        c
    }
}

/// The peer closed the connection: the accept loop ends cleanly.
pub open spec fn spec_conn_closed(c: ConnModel) -> ConnModel {
    if c.phase == ConnPhase::Accepting {
        ConnModel { phase: ConnPhase::ClosedByPeer, ..c }
    } else {
        c
    }
}

/// Awaiting the next stream failed: the accept loop ends; the streams
/// already dispatched are untouched.
pub open spec fn spec_conn_error(c: ConnModel) -> ConnModel {
    if c.phase == ConnPhase::Accepting {
        ConnModel { phase: ConnPhase::Failed, ..c }
    } else {
        c
    }
}

/// Delivering one echo event to stream `i`: only that stream steps; the
/// phase, the protocol and every sibling stream are untouched.
pub open spec fn spec_stream_step(c: ConnModel, i: int, ev: EchoEv) -> (ConnModel, EchoActionModel) {
    if 0 <= i < c.streams.len() && c.streams[i] is EchoStream {
        let stepped = echo_step(echo_of(c.streams[i]), ev);
        (
            ConnModel { streams: c.streams.update(i, StreamModel::EchoStream(stepped.0)), ..c },
            stepped.1,
        )
    } else {
        (c, EchoActionModel::Halt)
    }
}

impl ConnectionTask {
    /// A task for one inbound connection attempt, before its handshake.
    pub fn start(protocol: StreamProtocol) -> (c: ConnectionTask)
        ensures
            c@ == spec_conn_new(protocol),
            conn_wf(c@),
    {
        let c = ConnectionTask { protocol, phase: ConnPhase::Handshaking, streams: Vec::new() };
        proof {
            assert(c@ =~= spec_conn_new(protocol));
        }
        c
    }

    /// Reports the handshake outcome. On failure the connection is over:
    /// no stream-accept loop ever runs and no stream was dispatched.
    pub fn on_handshake(&mut self, ok: bool)
        requires
            old(self)@.phase == ConnPhase::Handshaking,
        ensures
            final(self)@ == spec_handshake(old(self)@, ok),
            !ok ==> final(self)@.phase == ConnPhase::Failed,
            ok ==> final(self)@.phase == ConnPhase::Accepting,
            final(self)@.streams == old(self)@.streams,
    {
        if ok {
            self.phase = ConnPhase::Accepting;
        } else {
            self.phase = ConnPhase::Failed;
        }
        proof {
            assert(self@ =~= spec_handshake(old(self)@, ok));
        }
    }

    /// Accepts one stream: dispatches a fresh task for it (by this
    /// connection's protocol) and returns its index. The loop does not
    /// wait for the task: the connection stays ready to accept.
    pub fn accept_stream(&mut self) -> (i: usize)
        requires
            old(self)@.phase == ConnPhase::Accepting,
        ensures
            final(self)@ == spec_accept_stream(old(self)@),
            i as int == old(self)@.streams.len(),
            final(self)@.phase == ConnPhase::Accepting,
            final(self)@.streams.len() == old(self)@.streams.len() + 1,
            final(self)@.streams[i as int] == fresh_stream(old(self)@.protocol),
    {
        let i = self.streams.len();
        match self.protocol {
            StreamProtocol::Echo => self.streams.push(StreamTask::EchoStream(EchoTask::start())),
            StreamProtocol::RequestResponse => self.streams.push(
                StreamTask::Exchange(ResponseTask::start()),
            ),
        }
        proof {
            assert(self@.streams =~= spec_accept_stream(old(self)@).streams);
            assert(self@ =~= spec_accept_stream(old(self)@));
        }
        i
    }

    /// The peer closed the connection: the accept loop ends cleanly.
    pub fn on_closed(&mut self)
        requires
            old(self)@.phase == ConnPhase::Accepting,
        ensures
            final(self)@ == spec_conn_closed(old(self)@),
            final(self)@.phase == ConnPhase::ClosedByPeer,
            final(self)@.streams == old(self)@.streams,
    {
        self.phase = ConnPhase::ClosedByPeer;
        proof {
            assert(self@ =~= spec_conn_closed(old(self)@));
        }
    }

    /// Awaiting the next stream failed: this connection's loop ends; its
    /// already-dispatched streams are untouched.
    pub fn on_accept_error(&mut self)
        requires
            old(self)@.phase == ConnPhase::Accepting,
        ensures
            final(self)@ == spec_conn_error(old(self)@),
            final(self)@.phase == ConnPhase::Failed,
            final(self)@.streams == old(self)@.streams,
    {
        self.phase = ConnPhase::Failed;
        proof {
            assert(self@ =~= spec_conn_error(old(self)@));
        }
    }

    /// Delivers one transport outcome to the echo stream at `i` and
    /// returns its next action. Every sibling stream, the phase and the
    /// protocol are untouched.
    pub fn echo_event_at(&mut self, i: usize, ev: EchoEvent) -> (a: EchoAction)
        requires
            i < old(self)@.streams.len(),
            old(self)@.streams[i as int] is EchoStream,
            echo_enabled(echo_of(old(self)@.streams[i as int]), echo_ev_of(ev)),
        ensures
            (final(self)@, echo_action_of(a)) == spec_stream_step(
                old(self)@,
                i as int,
                echo_ev_of(ev),
            ),
            final(self)@.phase == old(self)@.phase,
            final(self)@.streams.len() == old(self)@.streams.len(),
            forall|j: int|
                0 <= j < old(self)@.streams.len() && j != i ==> final(self)@.streams[j] == old(
                    self,
                )@.streams[j],
    {
        proof {
            assert(old(self)@.streams[i as int] == old(self).streams@[i as int]@);
        }
        let slot = &mut self.streams[i];
        let a = match slot {
            StreamTask::EchoStream(e) => e.on_event(ev),
            StreamTask::Exchange(_) => {
                proof {
                    assert(false);
                }
                EchoAction::Halt
            }
        };
        proof {
            assert(self@.streams =~= spec_stream_step(old(self)@, i as int, echo_ev_of(ev)).0.streams);
            assert(self@ =~= spec_stream_step(old(self)@, i as int, echo_ev_of(ev)).0);
        }
        a
    }

    /// The exchange task at `i`, mutably: stepping it touches that stream
    /// alone — the registry records the new state at `i` and nothing else.
    pub fn exchange_at(&mut self, i: usize) -> (x: &mut ResponseTask)
        requires
            i < old(self)@.streams.len(),
            old(self)@.streams[i as int] is Exchange,
        ensures
            StreamModel::Exchange((*x)@) == old(self)@.streams[i as int],
            final(self)@.streams == old(self)@.streams.update(
                i as int,
                StreamModel::Exchange(final(x)@),
            ),
            final(self)@.phase == old(self)@.phase,
            final(self)@.protocol == old(self)@.protocol,
    {
        proof {
            assert(old(self)@.streams[i as int] == old(self).streams@[i as int]@);
        }
        let slot = &mut self.streams[i];
        match slot {
            StreamTask::Exchange(x) => x,
            StreamTask::EchoStream(_) => {
                proof {
                    assert(false);
                }
                unreached()
            }
        }
    }
}

/// Failure containment between sibling streams: a read failure delivered
/// to stream `a` terminates that stream alone — the accept loop and every
/// sibling stream are untouched — and a sibling echo stream awaiting a
/// read still completes any clean run exactly, echoing every byte it is
/// then sent.
pub proof fn lemma_stream_failure_isolated(c: ConnModel, a: int, b: int, chunks: Seq<Seq<u8>>)
    requires
        0 <= a < c.streams.len(),
        0 <= b < c.streams.len(),
        a != b,
        c.streams[a] is EchoStream,
        echo_of(c.streams[a]).phase == EchoPhase::AwaitingRead,
        c.streams[b] is EchoStream,
        echo_of(c.streams[b]).phase == EchoPhase::AwaitingRead,
        echo_wf(echo_of(c.streams[b])),
    ensures
        ({
            let c1 = spec_stream_step(c, a, EchoEv::ReadFailed).0;
            &&& echo_of(c1.streams[a]).phase == EchoPhase::Failed
            &&& c1.phase == c.phase
            &&& c1.protocol == c.protocol
            &&& c1.streams.len() == c.streams.len()
            &&& forall|j: int| 0 <= j < c.streams.len() && j != a ==> c1.streams[j] == c.streams[j]
            &&& run_clean_echo(echo_of(c1.streams[b]), chunks).phase == EchoPhase::Done
            &&& run_clean_echo(echo_of(c1.streams[b]), chunks).write_log == echo_of(
                c.streams[b],
            ).write_log + concat_chunks(chunks)
        }),
{
    let c1 = spec_stream_step(c, a, EchoEv::ReadFailed).0;
    assert(c1.streams[b] == c.streams[b]);
    crate::echo::lemma_echo_round_trip(echo_of(c1.streams[b]), chunks);
}

/// Every connection transition preserves well-formedness: only the accept
/// loop adds streams, each running the connection's own protocol, and a
/// connection whose handshake failed never holds one.
pub proof fn lemma_conn_wf_preserved(c: ConnModel, ok: bool, i: int, ev: EchoEv)
    requires
        conn_wf(c),
    ensures
        conn_wf(spec_handshake(c, ok)),
        conn_wf(spec_accept_stream(c)),
        conn_wf(spec_conn_closed(c)),
        conn_wf(spec_conn_error(c)),
        conn_wf(spec_stream_step(c, i, ev).0),
{
    let accepted = spec_accept_stream(c);
    assert forall|j: int| 0 <= j < accepted.streams.len() implies (((#[trigger] accepted.streams[j])
        is EchoStream) <==> accepted.protocol == StreamProtocol::Echo) by {
        if j < c.streams.len() {
            assert(accepted.streams[j] == c.streams[j]);
        }
    }
    let stepped = spec_stream_step(c, i, ev).0;
    assert forall|j: int| 0 <= j < stepped.streams.len() implies (((#[trigger] stepped.streams[j])
        is EchoStream) <==> stepped.protocol == StreamProtocol::Echo) by {
        if j != i {
            assert(stepped.streams[j] == c.streams[j]);
        } else {
            assert(c.streams[j] is EchoStream ==> stepped.streams[j] is EchoStream);
        }
    }
}

} // verus!
