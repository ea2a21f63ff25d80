//! The listener loop and the registry of the connections it dispatched.
//!
//! The loop waits for inbound connection attempts on the bound endpoint
//! and dispatches each to a fresh connection task without waiting for its
//! handshake: a handshake failure is fatal to that one connection and to
//! nothing else. Only endpoint closure ends the loop.

use vstd::prelude::*;

use crate::connection::{
    conn_wf, spec_conn_new, spec_handshake, ConnModel, ConnPhase, ConnectionTask, StreamProtocol,
};

verus! {

/// The listener and the connections it dispatched, in dispatch order.
pub struct Supervisor {
    /// Whether the endpoint still accepts inbound attempts.
    pub accepting: bool,
    pub conns: Vec<ConnectionTask>,
}

/// Spec-level state of the listener and its connections.
#[verifier::ext_equal]
pub struct SupervisorModel {
    pub accepting: bool,
    pub conns: Seq<ConnModel>,
}

impl View for Supervisor {
    type V = SupervisorModel;

    open spec fn view(&self) -> SupervisorModel {
        SupervisorModel {
            accepting: self.accepting,
            conns: self.conns@.map_values(|c: ConnectionTask| c@),
        }
    }
}

/// One inbound attempt: a fresh connection task is dispatched and the
/// loop immediately resumes accepting — it never waits for the handshake.
pub open spec fn spec_attempt(s: SupervisorModel, p: StreamProtocol) -> SupervisorModel {
    if s.accepting {
        SupervisorModel { accepting: true, conns: s.conns.push(spec_conn_new(p)) }
    } else {
        s
    }
}

/// Endpoint closure: no more attempts will arrive; the dispatched
/// connections are untouched.
pub open spec fn spec_endpoint_closed(s: SupervisorModel) -> SupervisorModel {
    SupervisorModel { accepting: false, conns: s.conns }
}

/// The handshake outcome of connection `i`: only that connection steps;
/// the listener keeps accepting and every sibling connection is untouched.
pub open spec fn spec_conn_handshake(s: SupervisorModel, i: int, ok: bool) -> SupervisorModel {
    if 0 <= i < s.conns.len() {
        SupervisorModel {
            accepting: s.accepting,
            conns: s.conns.update(i, spec_handshake(s.conns[i], ok)),
        }
    } else {
        s
    }
}

impl Supervisor {
    /// A fresh listener on a newly bound endpoint: accepting, nothing
    /// dispatched yet.
    pub fn start() -> (s: Supervisor)
        ensures
            s@.accepting,
            s@.conns == Seq::<ConnModel>::empty(),
    {
        let s = Supervisor { accepting: true, conns: Vec::new() };
        proof {
            assert(s@.conns =~= Seq::<ConnModel>::empty());
        }
        s
    }

    /// Accepts one inbound attempt: dispatches a fresh connection task
    /// with the given per-stream protocol and returns its index. The loop
    /// resumes at once, whatever becomes of that handshake.
    pub fn on_attempt(&mut self, protocol: StreamProtocol) -> (i: usize)
        requires
            old(self)@.accepting,
        ensures
            final(self)@ == spec_attempt(old(self)@, protocol),
            i as int == old(self)@.conns.len(),
            final(self)@.accepting,
            final(self)@.conns.len() == old(self)@.conns.len() + 1,
            final(self)@.conns[i as int] == spec_conn_new(protocol),
    {
        let i = self.conns.len();
        self.conns.push(ConnectionTask::start(protocol));
        proof {
            assert(self@.conns =~= spec_attempt(old(self)@, protocol).conns);
            assert(self@ =~= spec_attempt(old(self)@, protocol));
        }
        i
    }

    /// The endpoint closed: the loop terminates; nothing else changes.
    pub fn on_endpoint_closed(&mut self)
        ensures
            final(self)@ == spec_endpoint_closed(old(self)@),
            !final(self)@.accepting,
            final(self)@.conns == old(self)@.conns,
    {
        self.accepting = false;
        proof {
            assert(self@ =~= spec_endpoint_closed(old(self)@));
        }
    }

    /// Reports the handshake outcome of connection `i`. The listener keeps
    /// accepting and every sibling connection is untouched, whatever the
    /// outcome.
    pub fn conn_handshake(&mut self, i: usize, ok: bool)
        requires
            i < old(self)@.conns.len(),
            old(self)@.conns[i as int].phase == ConnPhase::Handshaking,
        ensures
            final(self)@ == spec_conn_handshake(old(self)@, i as int, ok),
            final(self)@.accepting == old(self)@.accepting,
            final(self)@.conns.len() == old(self)@.conns.len(),
            forall|j: int|
                0 <= j < old(self)@.conns.len() && j != i ==> final(self)@.conns[j] == old(
                    self,
                )@.conns[j],
            ok ==> final(self)@.conns[i as int].phase == ConnPhase::Accepting,
            !ok ==> final(self)@.conns[i as int].phase == ConnPhase::Failed,
    {
        proof {
            assert(old(self)@.conns[i as int] == old(self).conns@[i as int]@);
        }
        let c = &mut self.conns[i];
        c.on_handshake(ok);
        proof {
            assert(self@.conns =~= spec_conn_handshake(old(self)@, i as int, ok).conns);
            assert(self@ =~= spec_conn_handshake(old(self)@, i as int, ok));
        }
    }

    /// The connection task at `i`, mutably: stepping it touches that
    /// connection alone — the registry records the new state at `i` and
    /// nothing else, and the listener's accepting flag is untouched.
    pub fn conn_at(&mut self, i: usize) -> (c: &mut ConnectionTask)
        requires
            i < old(self)@.conns.len(),
        ensures
            (*c)@ == old(self)@.conns[i as int],
            final(self)@.conns == old(self)@.conns.update(i as int, final(c)@),
            final(self)@.accepting == old(self)@.accepting,
    {
        proof {
            assert(old(self)@.conns[i as int] == old(self).conns@[i as int]@);
        }
        &mut self.conns[i]
    }
}

/// Handshake-failure containment: with the listener accepting, a failed
/// handshake on connection `i` leaves the listener accepting, leaves every
/// sibling connection untouched, and leaves connection `i` terminated
/// having served no stream. A subsequent attempt is still dispatched as a
/// fresh connection, and its successful handshake opens its accept loop.
pub proof fn lemma_listener_survives_handshake_failure(
    s: SupervisorModel,
    i: int,
    p: StreamProtocol,
)
    requires
        s.accepting,
        0 <= i < s.conns.len(),
        s.conns[i].phase == ConnPhase::Handshaking,
        conn_wf(s.conns[i]),
    ensures
        ({
            let s1 = spec_conn_handshake(s, i, false);
            let s2 = spec_attempt(s1, p);
            let fresh = s2.conns[s2.conns.len() - 1];
            &&& s1.accepting
            &&& s1.conns[i].phase == ConnPhase::Failed
            &&& s1.conns[i].streams.len() == 0
            &&& forall|j: int| 0 <= j < s.conns.len() && j != i ==> s1.conns[j] == s.conns[j]
            &&& s2.conns.len() == s.conns.len() + 1
            &&& fresh == spec_conn_new(p)
            &&& spec_handshake(fresh, true).phase == ConnPhase::Accepting
        }),
{
}

/// Every connection the listener holds is well-formed.
pub open spec fn supervisor_wf(s: SupervisorModel) -> bool {
    forall|j: int| 0 <= j < s.conns.len() ==> conn_wf(#[trigger] s.conns[j])
}

/// Every listener transition preserves well-formedness of all its
/// connections.
pub proof fn lemma_supervisor_wf_preserved(s: SupervisorModel, p: StreamProtocol, i: int, ok: bool)
    requires
        supervisor_wf(s),
    ensures
        supervisor_wf(spec_attempt(s, p)),
        supervisor_wf(spec_endpoint_closed(s)),
        supervisor_wf(spec_conn_handshake(s, i, ok)),
{
    let attempted = spec_attempt(s, p);
    assert forall|j: int| 0 <= j < attempted.conns.len() implies conn_wf(
        #[trigger] attempted.conns[j],
    ) by {
        if j < s.conns.len() {
            assert(attempted.conns[j] == s.conns[j]);
        } else {
            assert(attempted.conns[j] == spec_conn_new(p));
        }
    }
    let shaken = spec_conn_handshake(s, i, ok);
    assert forall|j: int| 0 <= j < shaken.conns.len() implies conn_wf(
        #[trigger] shaken.conns[j],
    ) by {
        if j != i {
            assert(shaken.conns[j] == s.conns[j]);
        } else {
            crate::connection::lemma_conn_wf_preserved(
                s.conns[i],
                ok,
                0,
                crate::echo::EchoEv::Fin,
            );
        }
    }
}

} // verus!
