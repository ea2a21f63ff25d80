//! The per-stream echo protocol as an event-driven machine.
//!
//! The host owns the transport halves and the loop; this machine owns the
//! decisions. Each transport outcome (a chunk read, FIN, a failure, the
//! completion of an ordered write or finish) is an event; the machine
//! answers with the next action to perform. Ghost logs record the bytes
//! read and the bytes whose write completed, so that the round-trip law
//! can be stated: a clean run echoes exactly what was read, in order.

use vstd::prelude::*;

use crate::chunks::{chunk_views, concat_chunks, copy_bytes, lemma_concat_chunks_push};
use crate::half::WriteHalf;

verus! {

/// Where the echo task stands between two events.
#[derive(Clone, Copy, Debug, PartialEq, Eq, Structural)]
pub enum EchoPhase {
    /// Waiting for the outcome of the ordered read.
    AwaitingRead,
    /// Waiting for the outcome of the ordered write.
    AwaitingWrite,
    /// FIN was read; waiting for the outcome of the ordered finish.
    AwaitingFinish,
    /// Clean completion: FIN read, everything echoed, write half finished.
    Done,
    /// A transport operation failed; the task terminated alone.
    Failed,
}

/// A transport outcome delivered to the echo task.
pub enum EchoEvent {
    /// The read returned a chunk of bytes.
    Data(Vec<u8>),
    /// The read returned end-of-input: the peer will send no more.
    Fin,
    /// The read failed.
    ReadFailed,
    /// The ordered write completed.
    WroteOk,
    /// The ordered write failed.
    WroteErr,
    /// The ordered finish completed.
    FinishedOk,
    /// The ordered finish failed.
    FinishedErr,
}

/// The next transport operation the host must perform.
pub enum EchoAction {
    /// Order the next bounded read.
    ReadNext,
    /// Order exactly these bytes written on the write half.
    SendBytes(Vec<u8>),
    /// Order the terminal finish on the write half.
    CloseWrite,
    /// The task is over; perform nothing further on this stream.
    Halt,
}

/// One echo task: its phase and the ghost ledger of its run.
pub struct EchoTask {
    pub phase: EchoPhase,
    /// All bytes read from the peer so far, in order.
    pub read_log: Ghost<Seq<u8>>,
    /// All bytes whose echo write has completed, in order.
    pub write_log: Ghost<Seq<u8>>,
    /// Bytes of the write currently in flight (meaningful in `AwaitingWrite`).
    pub pending: Ghost<Seq<u8>>,
}

/// Spec-level state of an echo task.
#[verifier::ext_equal]
pub struct EchoModel {
    pub phase: EchoPhase,
    pub read_log: Seq<u8>,
    pub write_log: Seq<u8>,
    pub pending: Seq<u8>,
}

impl View for EchoTask {
    type V = EchoModel;

    open spec fn view(&self) -> EchoModel {
        EchoModel {
            phase: self.phase,
            read_log: self.read_log@,
            write_log: self.write_log@,
            pending: self.pending@,
        }
    }
}

/// Spec-level event of the echo machine.
pub enum EchoEv {
    Data(Seq<u8>),
    Fin,
    ReadFailed,
    WroteOk,
    WroteErr,
    FinishedOk,
    FinishedErr,
}

/// Spec-level action of the echo machine.
pub enum EchoActionModel {
    ReadNext,
    SendBytes(Seq<u8>),
    CloseWrite,
    Halt,
}

/// The spec-level event an exec event stands for.
pub open spec fn echo_ev_of(ev: EchoEvent) -> EchoEv {
    match ev {
        EchoEvent::Data(b) => EchoEv::Data(b@),
        EchoEvent::Fin => EchoEv::Fin,
        EchoEvent::ReadFailed => EchoEv::ReadFailed,
        EchoEvent::WroteOk => EchoEv::WroteOk,
        EchoEvent::WroteErr => EchoEv::WroteErr,
        EchoEvent::FinishedOk => EchoEv::FinishedOk,
        EchoEvent::FinishedErr => EchoEv::FinishedErr,
    }
}

/// The spec-level action an exec action stands for.
pub open spec fn echo_action_of(a: EchoAction) -> EchoActionModel {
    match a {
        EchoAction::ReadNext => EchoActionModel::ReadNext,
        EchoAction::SendBytes(b) => EchoActionModel::SendBytes(b@),
        EchoAction::CloseWrite => EchoActionModel::CloseWrite,
        EchoAction::Halt => EchoActionModel::Halt,
    }
}

/// Whether the machine expects this event in this phase: read outcomes
/// while awaiting a read, write outcomes while awaiting a write, finish
/// outcomes while awaiting a finish.
pub open spec fn echo_enabled(m: EchoModel, ev: EchoEv) -> bool {
    match ev {
        EchoEv::Data(_) | EchoEv::Fin | EchoEv::ReadFailed => m.phase == EchoPhase::AwaitingRead,
        EchoEv::WroteOk | EchoEv::WroteErr => m.phase == EchoPhase::AwaitingWrite,
        EchoEv::FinishedOk | EchoEv::FinishedErr => m.phase == EchoPhase::AwaitingFinish,
    }
}

/// The transition of the echo machine. On an event the machine does not
/// expect in its phase it changes nothing and answers `Halt`.
pub open spec fn echo_step(m: EchoModel, ev: EchoEv) -> (EchoModel, EchoActionModel) {
    if !echo_enabled(m, ev) {
        (m, EchoActionModel::Halt)
    } else {
        match ev {
            EchoEv::Data(b) => (
                EchoModel {
                    phase: EchoPhase::AwaitingWrite,
                    read_log: m.read_log + b,
                    write_log: m.write_log,
                    pending: b,
                },
                EchoActionModel::SendBytes(b),
            ),
            EchoEv::Fin => (
                EchoModel { phase: EchoPhase::AwaitingFinish, ..m },
                EchoActionModel::CloseWrite,
            ),
            EchoEv::ReadFailed => (EchoModel { phase: EchoPhase::Failed, ..m }, EchoActionModel::Halt),
            EchoEv::WroteOk => (
                EchoModel {
                    phase: EchoPhase::AwaitingRead,
                    read_log: m.read_log,
                    write_log: m.write_log + m.pending,
                    pending: m.pending,
                },
                EchoActionModel::ReadNext,
            ),
            EchoEv::WroteErr => (EchoModel { phase: EchoPhase::Failed, ..m }, EchoActionModel::Halt),
            EchoEv::FinishedOk => (EchoModel { phase: EchoPhase::Done, ..m }, EchoActionModel::Halt),
            EchoEv::FinishedErr => (
                EchoModel { phase: EchoPhase::Failed, ..m },
                EchoActionModel::Halt,
            ),
        }
    }
}

/// A fresh echo task: awaiting its first read, logs empty.
pub open spec fn echo_started(m: EchoModel) -> bool {
    &&& m.phase == EchoPhase::AwaitingRead
    &&& m.read_log == Seq::<u8>::empty()
    &&& m.write_log == Seq::<u8>::empty()
    &&& m.pending == Seq::<u8>::empty()
}

/// The ledger invariant: everything read has been echoed, except for the
/// single write in flight, and nothing is claimed after a failure.
pub open spec fn echo_wf(m: EchoModel) -> bool {
    match m.phase {
        EchoPhase::AwaitingWrite => m.read_log == m.write_log + m.pending,
        EchoPhase::Failed => true,
        _ => m.read_log == m.write_log,
    }
}

/// Every step preserves the ledger invariant.
pub proof fn lemma_echo_step_wf(m: EchoModel, ev: EchoEv)
    requires
        echo_wf(m),
    ensures
        echo_wf(echo_step(m, ev).0),
{
}

impl EchoTask {
    /// A task for one freshly accepted stream.
    pub fn start() -> (t: EchoTask)
        ensures
            echo_started(t@),
    {
        EchoTask {
            phase: EchoPhase::AwaitingRead,
            read_log: Ghost(Seq::<u8>::empty()),
            write_log: Ghost(Seq::<u8>::empty()),
            pending: Ghost(Seq::<u8>::empty()),
        }
    }

    /// Delivers one transport outcome and returns the next action, exactly
    /// as the machine's transition prescribes.
    pub fn on_event(&mut self, ev: EchoEvent) -> (a: EchoAction)
        requires
            echo_enabled(old(self)@, echo_ev_of(ev)),
        ensures
            (final(self)@, echo_action_of(a)) == echo_step(old(self)@, echo_ev_of(ev)),
    {
        match ev {
            EchoEvent::Data(b) => {
                self.read_log = Ghost(self.read_log@ + b@);
                self.pending = Ghost(b@);
                self.phase = EchoPhase::AwaitingWrite;
                proof {
                    assert(self@ =~= echo_step(old(self)@, echo_ev_of(ev)).0);
                }
                EchoAction::SendBytes(b)
            }
            EchoEvent::Fin => {
                self.phase = EchoPhase::AwaitingFinish;
                proof {
                    assert(self@ =~= echo_step(old(self)@, echo_ev_of(ev)).0);
                }
                EchoAction::CloseWrite
            }
            EchoEvent::ReadFailed => {
                self.phase = EchoPhase::Failed;
                proof {
                    assert(self@ =~= echo_step(old(self)@, echo_ev_of(ev)).0);
                }
                EchoAction::Halt
            }
            EchoEvent::WroteOk => {
                self.write_log = Ghost(self.write_log@ + self.pending@);
                self.phase = EchoPhase::AwaitingRead;
                proof {
                    assert(self@ =~= echo_step(old(self)@, echo_ev_of(ev)).0);
                }
                EchoAction::ReadNext
            }
            EchoEvent::WroteErr => {
                self.phase = EchoPhase::Failed;
                proof {
                    assert(self@ =~= echo_step(old(self)@, echo_ev_of(ev)).0);
                }
                EchoAction::Halt
            }
            EchoEvent::FinishedOk => {
                self.phase = EchoPhase::Done;
                proof {
                    assert(self@ =~= echo_step(old(self)@, echo_ev_of(ev)).0);
                }
                EchoAction::Halt
            }
            EchoEvent::FinishedErr => {
                self.phase = EchoPhase::Failed;
                proof {
                    assert(self@ =~= echo_step(old(self)@, echo_ev_of(ev)).0);
                }
                EchoAction::Halt
            }
        }
    }
}

/// The run in which the peer sends the given chunks and then FIN, and
/// every ordered write and the finish succeed: for each chunk, the read
/// outcome and then the completion of the echo write; then FIN and the
/// completion of the finish.
pub open spec fn run_clean_echo(m: EchoModel, chunks: Seq<Seq<u8>>) -> EchoModel
    decreases chunks.len(),
{
    if chunks.len() == 0 {
        let m1 = echo_step(m, EchoEv::Fin).0;
        echo_step(m1, EchoEv::FinishedOk).0
    } else {
        let m1 = echo_step(m, EchoEv::Data(chunks.first())).0;
        let m2 = echo_step(m1, EchoEv::WroteOk).0;
        run_clean_echo(m2, chunks.drop_first())
    }
}

/// Echo round trip: from a task awaiting a read, a clean run over any
/// chunk sequence ends `Done` having read and echoed exactly the
/// concatenation of those chunks, appended to what the ledgers already
/// held — in particular, from a fresh task, exactly the bytes the peer
/// sent before FIN, in their order.
pub proof fn lemma_echo_round_trip(m: EchoModel, chunks: Seq<Seq<u8>>)
    requires
        m.phase == EchoPhase::AwaitingRead,
        echo_wf(m),
    ensures
        run_clean_echo(m, chunks).phase == EchoPhase::Done,
        run_clean_echo(m, chunks).read_log == m.read_log + concat_chunks(chunks),
        run_clean_echo(m, chunks).write_log == m.write_log + concat_chunks(chunks),
    decreases chunks.len(),
{
    if chunks.len() == 0 {
        assert(run_clean_echo(m, chunks).read_log =~= m.read_log + concat_chunks(chunks));
        assert(run_clean_echo(m, chunks).write_log =~= m.write_log + concat_chunks(chunks));
    } else {
        let b = chunks.first();
        let m1 = echo_step(m, EchoEv::Data(b)).0;
        let m2 = echo_step(m1, EchoEv::WroteOk).0;
        assert(m2.phase == EchoPhase::AwaitingRead);
        assert(m2.read_log == m.read_log + b);
        assert(m2.write_log == m.write_log + b);
        assert(echo_wf(m2));
        lemma_echo_round_trip(m2, chunks.drop_first());
        assert(run_clean_echo(m, chunks).read_log =~= m.read_log + concat_chunks(chunks));
        assert(run_clean_echo(m, chunks).write_log =~= m.write_log + concat_chunks(chunks));
    }
}

/// Echoes a prerecorded sequence of read chunks against a write half and
/// then finishes it: the per-stream echo task run to clean completion,
/// with the transport's read outcomes given up front and every write and
/// the finish succeeding. What the half sends out is exactly the
/// concatenation of the chunks read, in order, followed by the FIN.
pub fn echo_prerecorded(chunks: &Vec<Vec<u8>>, half: &mut WriteHalf) -> (t: EchoTask)
    requires
        !old(half)@.finished,
    ensures
        final(half)@.sent == old(half)@.sent + concat_chunks(chunk_views(chunks@)),
        final(half)@.finished,
        t@.phase == EchoPhase::Done,
        t@.read_log == concat_chunks(chunk_views(chunks@)),
        t@.write_log == t@.read_log,
{
    let ghost sent0 = half@.sent;
    let mut t = EchoTask::start();
    let n = chunks.len();
    proof {
        assert(chunk_views(chunks@).subrange(0, 0) =~= Seq::<Seq<u8>>::empty());
        assert(t@.read_log =~= concat_chunks(chunk_views(chunks@).subrange(0, 0)));
    }
    let mut k: usize = 0;
    while k < n
        invariant
            k <= n,
            n == chunks@.len(),
            t@.phase == EchoPhase::AwaitingRead,
            t@.read_log == concat_chunks(chunk_views(chunks@).subrange(0, k as int)),
            t@.write_log == t@.read_log,
            half@.sent == sent0 + t@.read_log,
            !half@.finished,
        decreases n - k,
    {
        let ghost done = chunk_views(chunks@).subrange(0, k as int);
        let b = copy_bytes(&chunks[k]);
        let a = t.on_event(EchoEvent::Data(b));
        match a {
            EchoAction::SendBytes(w) => {
                let wrote = half.order_write(&w);
                proof {
                    assert(wrote is Ok);
                }
            }
            _ => {
                proof {
                    assert(false);
                }
            }
        }
        let _next = t.on_event(EchoEvent::WroteOk);
        proof {
            assert(chunk_views(chunks@).subrange(0, k + 1 as int) =~= done.push(
                chunks@[k as int]@,
            ));
            lemma_concat_chunks_push(done, chunks@[k as int]@);
            assert(half@.sent =~= sent0 + t@.read_log);
        }
        k = k + 1;
    }
    proof {
        assert(chunk_views(chunks@).subrange(0, n as int) =~= chunk_views(chunks@));
    }
    let fin = t.on_event(EchoEvent::Fin);
    match fin {
        EchoAction::CloseWrite => {
            let finished = half.finish();
            proof {
                assert(finished is Ok);
            }
        }
        _ => {
            proof {
                assert(false);
            }
        }
    }
    let _halted = t.on_event(EchoEvent::FinishedOk);
    proof {
        assert(half@.sent =~= sent0 + concat_chunks(chunk_views(chunks@)));
    }
    t
}

} // verus!
