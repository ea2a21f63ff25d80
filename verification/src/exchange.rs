//! The request/response protocol of one exchange, as a machine over the
//! sending side's obligations: resolve first, then the response head
//! exactly once, then body chunks in order, then the terminal finish
//! exactly once. Misuse is rejected locally, without effect; a transport
//! failure report terminates the one exchange.
//!
//! `status` and `body` are the peer-visible response: the framing layer
//! preserves head-before-body and chunk order, so a completed exchange
//! delivers exactly the recorded status and the recorded bytes.

use vstd::prelude::*;

use crate::chunks::{append_bytes, chunk_views, concat_chunks, lemma_concat_chunks_push};
use crate::errors::ProtocolViolation;

verus! {

/// Where one exchange stands.
#[derive(Clone, Copy, Debug, PartialEq, Eq, Structural)]
pub enum ExchangePhase {
    /// Waiting for the resolver: no request head yet, nothing may be sent.
    AwaitingResolve,
    /// Resolved; the response head is owed before any body byte.
    HeadPending,
    /// Head sent; body chunks may be sent, then the finish.
    Streaming,
    /// Finished cleanly: head once, chunks in order, terminal finish once.
    Completed,
    /// Resolution or a send failed; the exchange terminated alone.
    Failed,
}

/// One request/response exchange, as the engine sees it.
pub struct ResponseTask {
    pub phase: ExchangePhase,
    /// The declared status, from the moment the head is sent.
    pub status: Option<u16>,
    /// The response body bytes ordered so far, in order.
    pub body: Vec<u8>,
}

/// Spec-level state of an exchange.
#[verifier::ext_equal]
pub struct ExchangeModel {
    pub phase: ExchangePhase,
    pub status: Option<u16>,
    pub body: Seq<u8>,
}

impl View for ResponseTask {
    type V = ExchangeModel;

    open spec fn view(&self) -> ExchangeModel {
        ExchangeModel { phase: self.phase, status: self.status, body: self.body@ }
    }
}

/// Until the head is sent there is no status and no body; from the head
/// on, the status is declared.
pub open spec fn exchange_wf(m: ExchangeModel) -> bool {
    match m.phase {
        ExchangePhase::AwaitingResolve | ExchangePhase::HeadPending => m.status is None && m.body
            == Seq::<u8>::empty(),
        ExchangePhase::Streaming | ExchangePhase::Completed => m.status is Some,
        ExchangePhase::Failed => true,
    }
}

/// Reporting the resolver's outcome: success readies the exchange,
/// failure terminates it; a second report is rejected.
pub open spec fn spec_resolve(m: ExchangeModel, ok: bool) -> (ExchangeModel, Result<
    (),
    ProtocolViolation,
>) {
    match m.phase {
        ExchangePhase::AwaitingResolve => if ok {
            (ExchangeModel { phase: ExchangePhase::HeadPending, ..m }, Ok(()))
        } else {
            (ExchangeModel { phase: ExchangePhase::Failed, ..m }, Ok(()))
        },
        ExchangePhase::Failed => (m, Err(ProtocolViolation::TaskTerminated)),
        _ => (m, Err(ProtocolViolation::DoubleResolve)),
    }
}

/// Sending the response head: allowed exactly once, after resolution and
/// before any body byte.
pub open spec fn spec_send_head(m: ExchangeModel, status: u16) -> (ExchangeModel, Result<
    (),
    ProtocolViolation,
>) {
    match m.phase {
        ExchangePhase::AwaitingResolve => (m, Err(ProtocolViolation::HeadTooEarly)),
        ExchangePhase::HeadPending => (
            ExchangeModel { phase: ExchangePhase::Streaming, status: Some(status), body: m.body },
            Ok(()),
        ),
        ExchangePhase::Streaming | ExchangePhase::Completed => (
            m,
            Err(ProtocolViolation::DoubleHead),
        ),
        ExchangePhase::Failed => (m, Err(ProtocolViolation::TaskTerminated)),
    }
}

/// Sending one body chunk: allowed between the head and the finish;
/// appends the bytes in order.
pub open spec fn spec_send_chunk(m: ExchangeModel, chunk: Seq<u8>) -> (ExchangeModel, Result<
    (),
    ProtocolViolation,
>) {
    match m.phase {
        ExchangePhase::AwaitingResolve | ExchangePhase::HeadPending => (
            m,
            Err(ProtocolViolation::BodyBeforeHead),
        ),
        ExchangePhase::Streaming => (
            ExchangeModel { phase: ExchangePhase::Streaming, status: m.status, body: m.body + chunk },
            Ok(()),
        ),
        ExchangePhase::Completed => (m, Err(ProtocolViolation::WriteAfterFinish)),
        ExchangePhase::Failed => (m, Err(ProtocolViolation::TaskTerminated)),
    }
}

/// Finishing the exchange: the terminal one-shot action, owed after the
/// head (and all intended chunks), rejected anywhere else.
pub open spec fn spec_finish_exchange(m: ExchangeModel) -> (ExchangeModel, Result<
    (),
    ProtocolViolation,
>) {
    match m.phase {
        ExchangePhase::AwaitingResolve | ExchangePhase::HeadPending => (
            m,
            Err(ProtocolViolation::FinishBeforeHead),
        ),
        ExchangePhase::Streaming => (
            ExchangeModel { phase: ExchangePhase::Completed, ..m },
            Ok(()),
        ),
        ExchangePhase::Completed => (m, Err(ProtocolViolation::DoubleFinish)),
        ExchangePhase::Failed => (m, Err(ProtocolViolation::TaskTerminated)),
    }
}

/// Reporting a transport failure while resolving or sending: terminates
/// this exchange alone; on an already-terminated exchange it is rejected.
pub open spec fn spec_send_failed(m: ExchangeModel) -> (ExchangeModel, Result<
    (),
    ProtocolViolation,
>) {
    match m.phase {
        ExchangePhase::Completed | ExchangePhase::Failed => (
            m,
            Err(ProtocolViolation::TaskTerminated),
        ),
        _ => (ExchangeModel { phase: ExchangePhase::Failed, ..m }, Ok(())),
    }
}

impl ResponseTask {
    /// A task for one freshly accepted exchange, not yet resolved.
    pub fn start() -> (t: ResponseTask)
        ensures
            t@.phase == ExchangePhase::AwaitingResolve,
            t@.status is None,
            t@.body == Seq::<u8>::empty(),
            exchange_wf(t@),
    {
        ResponseTask { phase: ExchangePhase::AwaitingResolve, status: None, body: Vec::new() }
    }

    /// Reports the resolver's outcome.
    pub fn on_resolve(&mut self, ok: bool) -> (r: Result<(), ProtocolViolation>)
        ensures
            (final(self)@, r) == spec_resolve(old(self)@, ok),
    {
        match self.phase {
            ExchangePhase::AwaitingResolve => {
                if ok {
                    self.phase = ExchangePhase::HeadPending;
                } else {
                    self.phase = ExchangePhase::Failed;
                }
                proof {
                    assert(self@ =~= spec_resolve(old(self)@, ok).0);
                }
                Ok(())
            }
            ExchangePhase::Failed => Err(ProtocolViolation::TaskTerminated),
            _ => Err(ProtocolViolation::DoubleResolve),
        }
    }

    /// Sends the response head with the given status.
    pub fn send_head(&mut self, status: u16) -> (r: Result<(), ProtocolViolation>)
        ensures
            (final(self)@, r) == spec_send_head(old(self)@, status),
    {
        match self.phase {
            ExchangePhase::AwaitingResolve => Err(ProtocolViolation::HeadTooEarly),
            ExchangePhase::HeadPending => {
                self.phase = ExchangePhase::Streaming;
                self.status = Some(status);
                proof {
                    assert(self@ =~= spec_send_head(old(self)@, status).0);
                }
                Ok(())
            }
            ExchangePhase::Streaming | ExchangePhase::Completed => Err(
                ProtocolViolation::DoubleHead,
            ),
            ExchangePhase::Failed => Err(ProtocolViolation::TaskTerminated),
        }
    }

    /// Sends one response body chunk.
    pub fn send_chunk(&mut self, chunk: &Vec<u8>) -> (r: Result<(), ProtocolViolation>)
        ensures
            (final(self)@, r) == spec_send_chunk(old(self)@, chunk@),
    {
        match self.phase {
            ExchangePhase::AwaitingResolve | ExchangePhase::HeadPending => Err(
                ProtocolViolation::BodyBeforeHead,
            ),
            ExchangePhase::Streaming => {
                append_bytes(&mut self.body, chunk);
                proof {
                    assert(self@ =~= spec_send_chunk(old(self)@, chunk@).0);
                }
                Ok(())
            }
            ExchangePhase::Completed => Err(ProtocolViolation::WriteAfterFinish),
            ExchangePhase::Failed => Err(ProtocolViolation::TaskTerminated),
        }
    }

    /// Finishes the exchange: terminal and one-shot.
    pub fn finish(&mut self) -> (r: Result<(), ProtocolViolation>)
        ensures
            (final(self)@, r) == spec_finish_exchange(old(self)@),
    {
        match self.phase {
            ExchangePhase::AwaitingResolve | ExchangePhase::HeadPending => Err(
                ProtocolViolation::FinishBeforeHead,
            ),
            ExchangePhase::Streaming => {
                self.phase = ExchangePhase::Completed;
                proof {
                    assert(self@ =~= spec_finish_exchange(old(self)@).0);
                }
                Ok(())
            }
            ExchangePhase::Completed => Err(ProtocolViolation::DoubleFinish),
            ExchangePhase::Failed => Err(ProtocolViolation::TaskTerminated),
        }
    }

    /// Reports a transport failure on this exchange.
    pub fn on_send_failed(&mut self) -> (r: Result<(), ProtocolViolation>)
        ensures
            (final(self)@, r) == spec_send_failed(old(self)@),
    {
        match self.phase {
            ExchangePhase::Completed | ExchangePhase::Failed => Err(
                ProtocolViolation::TaskTerminated,
            ),
            _ => {
                self.phase = ExchangePhase::Failed;
                proof {
                    assert(self@ =~= spec_send_failed(old(self)@).0);
                }
                Ok(())
            }
        }
    }
}

/// The exchange after sending the given chunks, in order.
pub open spec fn send_chunks(m: ExchangeModel, chunks: Seq<Seq<u8>>) -> ExchangeModel
    decreases chunks.len(),
{
    if chunks.len() == 0 {
        m
    } else {
        send_chunks(spec_send_chunk(m, chunks.first()).0, chunks.drop_first())
    }
}

/// While streaming, sending chunks keeps streaming, keeps the declared
/// status, and appends exactly their concatenation to the body.
pub proof fn lemma_send_chunks(m: ExchangeModel, chunks: Seq<Seq<u8>>)
    requires
        m.phase == ExchangePhase::Streaming,
    ensures
        send_chunks(m, chunks).phase == ExchangePhase::Streaming,
        send_chunks(m, chunks).status == m.status,
        send_chunks(m, chunks).body == m.body + concat_chunks(chunks),
    decreases chunks.len(),
{
    if chunks.len() == 0 {
        assert(send_chunks(m, chunks).body =~= m.body + concat_chunks(chunks));
    } else {
        let m1 = spec_send_chunk(m, chunks.first()).0;
        lemma_send_chunks(m1, chunks.drop_first());
        assert(send_chunks(m, chunks).body =~= m.body + concat_chunks(chunks));
    }
}

/// The exchange after the whole sending side: head, then the chunks in
/// order, then the finish.
pub open spec fn run_response(m: ExchangeModel, status: u16, chunks: Seq<Seq<u8>>) -> ExchangeModel {
    spec_finish_exchange(send_chunks(spec_send_head(m, status).0, chunks)).0
}

/// Response round: from a resolved exchange that owes its head, sending
/// the head once, then any chunks in order, then the one finish, completes
/// the exchange with the declared status and with the body equal to the
/// concatenation of the chunks — no reordering, no loss, no extra bytes.
pub proof fn lemma_response_round(m: ExchangeModel, status: u16, chunks: Seq<Seq<u8>>)
    requires
        m.phase == ExchangePhase::HeadPending,
        exchange_wf(m),
    ensures
        run_response(m, status, chunks).phase == ExchangePhase::Completed,
        run_response(m, status, chunks).status == Some(status),
        run_response(m, status, chunks).body == concat_chunks(chunks),
        exchange_wf(run_response(m, status, chunks)),
{
    let m1 = spec_send_head(m, status).0;
    lemma_send_chunks(m1, chunks);
    assert(run_response(m, status, chunks).body =~= concat_chunks(chunks));
}

/// Runs the whole sending side of one exchange: the response head with
/// the given status, then the given body chunks in order, then the
/// terminal finish.
pub fn serve_exchange(t: &mut ResponseTask, status: u16, chunks: &Vec<Vec<u8>>) -> (r: Result<
    (),
    ProtocolViolation,
>)
    requires
        old(t)@.phase == ExchangePhase::HeadPending,
        exchange_wf(old(t)@),
    ensures
        r is Ok,
        final(t)@ == run_response(old(t)@, status, chunk_views(chunks@)),
        final(t)@.phase == ExchangePhase::Completed,
        final(t)@.status == Some(status),
        final(t)@.body == concat_chunks(chunk_views(chunks@)),
        exchange_wf(final(t)@),
{
    let head_sent = t.send_head(status);
    proof {
        assert(head_sent is Ok);
    }
    let n = chunks.len();
    let ghost m1 = t@;
    let mut k: usize = 0;
    while k < n
        invariant
            k <= n,
            n == chunks@.len(),
            m1.phase == ExchangePhase::Streaming,
            t@ == send_chunks(m1, chunk_views(chunks@).subrange(0, k as int)),
            t@.phase == ExchangePhase::Streaming,
        decreases n - k,
    {
        let ghost done = chunk_views(chunks@).subrange(0, k as int);
        proof {
            lemma_send_chunks(m1, done);
        }
        let sent = t.send_chunk(&chunks[k]);
        proof {
            assert(sent is Ok);
            assert(chunk_views(chunks@).subrange(0, k + 1 as int) =~= done.push(
                chunk_views(chunks@)[k as int],
            ));
            lemma_send_chunks_push(m1, done, chunk_views(chunks@)[k as int]);
        }
        k = k + 1;
    }
    proof {
        assert(chunk_views(chunks@).subrange(0, n as int) =~= chunk_views(chunks@));
        lemma_send_chunks(m1, chunk_views(chunks@));
    }
    let finished = t.finish();
    proof {
        assert(finished is Ok);
        lemma_response_round(old(t)@, status, chunk_views(chunks@));
    }
    Ok(())
}

/// Sending one more chunk extends a chunk run by one step.
proof fn lemma_send_chunks_push(m: ExchangeModel, chunks: Seq<Seq<u8>>, c: Seq<u8>)
    requires
        m.phase == ExchangePhase::Streaming,
    ensures
        send_chunks(m, chunks.push(c)) == spec_send_chunk(send_chunks(m, chunks), c).0,
    decreases chunks.len(),
{
    if chunks.len() == 0 {
        assert(chunks.push(c).drop_first() =~= Seq::<Seq<u8>>::empty());
        assert(chunks.push(c).first() == c);
        assert(send_chunks(spec_send_chunk(m, c).0, Seq::<Seq<u8>>::empty())
            == spec_send_chunk(m, c).0);
        assert(send_chunks(m, chunks.push(c)) =~= spec_send_chunk(send_chunks(m, chunks), c).0);
    } else {
        assert(chunks.push(c).drop_first() =~= chunks.drop_first().push(c));
        assert(chunks.push(c).first() == chunks.first());
        let m1 = spec_send_chunk(m, chunks.first()).0;
        assert(m1.phase == ExchangePhase::Streaming);
        lemma_send_chunks_push(m1, chunks.drop_first(), c);
        assert(send_chunks(m, chunks.push(c)) =~= spec_send_chunk(send_chunks(m, chunks), c).0);
    }
}

} // verus!
