//! Model of the local write direction of one stream: the bytes whose
//! write has been ordered, in order, and the one-shot finished flag.
//!
//! The transport collaborator preserves write order and delivers a FIN on
//! finish, so `sent` is exactly what the peer will read. Writing after
//! finish and finishing twice are protocol violations: they are rejected
//! locally and leave the half unchanged.

use vstd::prelude::*;

use crate::errors::ProtocolViolation;

verus! {

/// The write direction of one stream, as the engine sees it.
pub struct WriteHalf {
    /// Bytes ordered written so far, in order.
    pub sent: Vec<u8>,
    /// Whether the terminal finish has been ordered.
    pub finished: bool,
}

/// Spec-level state of a write half.
#[verifier::ext_equal]
pub struct WriteHalfModel {
    pub sent: Seq<u8>,
    pub finished: bool,
}

impl View for WriteHalf {
    type V = WriteHalfModel;

    open spec fn view(&self) -> WriteHalfModel {
        WriteHalfModel { sent: self.sent@, finished: self.finished }
    }
}

/// What ordering a write does to a half: appends the bytes if the half is
/// not finished, and is rejected without effect if it is.
pub open spec fn spec_order_write(m: WriteHalfModel, chunk: Seq<u8>) -> (WriteHalfModel, Result<
    (),
    ProtocolViolation,
>) {
    if m.finished {
        (m, Err(ProtocolViolation::WriteAfterFinish))
    } else {
        (WriteHalfModel { sent: m.sent + chunk, finished: false }, Ok(()))
    }
}

/// What finishing does to a half: sets the one-shot flag if it was clear,
/// and is rejected without effect if the half was already finished.
pub open spec fn spec_finish(m: WriteHalfModel) -> (WriteHalfModel, Result<
    (),
    ProtocolViolation,
>) {
    if m.finished {
        (m, Err(ProtocolViolation::DoubleFinish))
    } else {
        (WriteHalfModel { sent: m.sent, finished: true }, Ok(()))
    }
}

impl WriteHalf {
    /// A fresh write half: nothing sent, not finished.
    pub fn new() -> (h: WriteHalf)
        ensures
            h@.sent == Seq::<u8>::empty(),
            !h@.finished,
    {
        WriteHalf { sent: Vec::new(), finished: false }
    }

    /// Orders `chunk` written on this half, preserving byte order; rejected
    /// with `WriteAfterFinish`, leaving the half unchanged, if the half was
    /// already finished.
    pub fn order_write(&mut self, chunk: &Vec<u8>) -> (r: Result<(), ProtocolViolation>)
        ensures
            (final(self)@, r) == spec_order_write(old(self)@, chunk@),
    {
        if self.finished {
            Err(ProtocolViolation::WriteAfterFinish)
        } else {
            let n = chunk.len();
            let ghost sent0 = self.sent@;
            let mut k: usize = 0;
            while k < n
                invariant
                    k <= n,
                    n == chunk@.len(),
                    !self.finished,
                    self.sent@ == sent0 + chunk@.subrange(0, k as int),
                decreases n - k,
            {
                self.sent.push(chunk[k]);
                proof {
                    assert(chunk@.subrange(0, k + 1 as int) =~= chunk@.subrange(0, k as int).push(
                        chunk@[k as int],
                    ));
                }
                k = k + 1;
            }
            proof {
                assert(chunk@.subrange(0, n as int) =~= chunk@);
                assert(self@ =~= spec_order_write(old(self)@, chunk@).0);
            }
            Ok(())
        }
    }

    /// Orders the terminal finish on this half; rejected with
    /// `DoubleFinish`, leaving the half unchanged, if it was already
    /// finished.
    pub fn finish(&mut self) -> (r: Result<(), ProtocolViolation>)
        ensures
            (final(self)@, r) == spec_finish(old(self)@),
    {
        if self.finished {
            Err(ProtocolViolation::DoubleFinish)
        } else {
            self.finished = true;
            proof {
                assert(self@ =~= spec_finish(old(self)@).0);
            }
            Ok(())
        }
    }
}

/// Finishing is one-shot: from an unfinished half the first finish
/// succeeds, and a second finish is rejected and changes nothing — the
/// bytes sent and the finished flag stay exactly as the first finish left
/// them.
pub proof fn lemma_finish_one_shot(m: WriteHalfModel)
    requires
        !m.finished,
    ensures
        ({
            let (m1, r1) = spec_finish(m);
            let (m2, r2) = spec_finish(m1);
            &&& r1 == Ok::<(), ProtocolViolation>(())
            &&& m1.finished
            &&& m1.sent == m.sent
            &&& r2 == Err::<(), ProtocolViolation>(ProtocolViolation::DoubleFinish)
            &&& m2 == m1
        }),
{
}

/// Writing after finish is rejected and changes nothing.
pub proof fn lemma_no_write_after_finish(m: WriteHalfModel, chunk: Seq<u8>)
    requires
        m.finished,
    ensures
        spec_order_write(m, chunk).0 == m,
        spec_order_write(m, chunk).1 == Err::<(), ProtocolViolation>(
            ProtocolViolation::WriteAfterFinish,
        ),
{
}

} // verus!
