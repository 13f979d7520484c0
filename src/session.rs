use vstd::prelude::*;
use crate::error::{ErrorKind, HostError};

verus! {

/// One step in the life of the interpreter session.
#[derive(Clone, Copy, Debug, PartialEq, Eq, Structural)]
pub enum GateEvent {
    Acquired,
    Released,
}

/// A history in which the session is taken and given back in turn: it starts
/// with an acquisition and no step repeats the one before it, so two
/// acquisitions are never in flight at once.
pub open spec fn alternating(h: Seq<GateEvent>) -> bool {
    &&& h.len() > 0 ==> h[0] == GateEvent::Acquired
    &&& forall|i: int| 0 <= i < h.len() - 1 ==> #[trigger] h[i] != #[trigger] h[i + 1]
}

/// Whether the latest step is an acquisition.
pub open spec fn ends_held(h: Seq<GateEvent>) -> bool {
    h.len() > 0 && h.last() == GateEvent::Acquired
}

/// One scoped use of the session: a free session is taken and given back, a
/// held one is left as it was.
pub open spec fn gate_step(before: SessionGate, after: SessionGate) -> bool {
    &&& after.wf()
    &&& after.held() == before.held()
    &&& before.held() ==> after.history() == before.history()
    &&& !before.held() ==> after.history() == before.history().push(GateEvent::Acquired).push(
        GateEvent::Released,
    )
}

/// Exclusive access to the single interpreter session, with the history of
/// every acquisition and release.
pub struct SessionGate {
    held: bool,
    history: Ghost<Seq<GateEvent>>,
}

impl SessionGate {
    pub closed spec fn held(&self) -> bool {
        self.held
    }

    pub closed spec fn history(&self) -> Seq<GateEvent> {
        self.history@
    }

    /// Well formed: held exactly when the history ends in an acquisition.
    pub open spec fn wf(&self) -> bool {
        &&& alternating(self.history())
        &&& self.held() == ends_held(self.history())
    }

    pub fn new() -> (g: SessionGate)
        ensures
            g.wf(),
            !g.held(),
            g.history() == Seq::<GateEvent>::empty(),
    {
        SessionGate { held: false, history: Ghost(Seq::empty()) }
    }

    pub fn is_held(&self) -> (r: bool)
        ensures
            r == self.held(),
    {
        self.held
    }

    /// Takes the session; taking it while it is held is refused.
    pub fn acquire(&mut self) -> (r: Result<(), HostError>)
        requires
            old(self).wf(),
        ensures
            final(self).wf(),
            old(self).held() ==> r is Err && r->Err_0.kind == ErrorKind::Other
                && final(self).history() == old(self).history() && final(self).held(),
            !old(self).held() ==> r is Ok && final(self).held() && final(self).history()
                == old(self).history().push(GateEvent::Acquired),
    {
        if self.held {
            return Err(
                HostError {
                    kind: ErrorKind::Other,
                    message: "interpreter session is already held".to_owned(),
                },
            );
        }
        self.held = true;
        self.history = Ghost(self.history@.push(GateEvent::Acquired));
        Ok(())
    }

    /// Gives the session back.
    pub fn release(&mut self)
        requires
            old(self).wf(),
            old(self).held(),
        ensures
            final(self).wf(),
            !final(self).held(),
            final(self).history() == old(self).history().push(GateEvent::Released),
    {
        self.held = false;
        self.history = Ghost(self.history@.push(GateEvent::Released));
    }

    /// Runs `job` while holding the session and releases it afterwards; a
    /// session that is already held is not entered.
    pub fn scoped<R, F: FnOnce() -> R>(&mut self, job: F) -> (r: Result<R, HostError>)
        requires
            old(self).wf(),
            !old(self).held() ==> job.requires(()),
        ensures
            final(self).wf(),
            final(self).held() == old(self).held(),
            old(self).held() ==> r is Err && final(self).history() == old(self).history(),
            !old(self).held() ==> r is Ok && job.ensures((), r->Ok_0) && final(self).history()
                == old(self).history().push(GateEvent::Acquired).push(GateEvent::Released),
    {
        match self.acquire() {
            Ok(()) => {
                let v = job();
                self.release();
                Ok(v)
            },
            Err(e) => Err(e),
        }
    }
}

/// Two invocations run one after the other on a free session never overlap:
/// the second acquisition comes only after the first release, and the session
/// is free again at the end.
pub proof fn lemma_sequential_scopes(g0: SessionGate, g1: SessionGate, g2: SessionGate)
    requires
        g0.wf(),
        !g0.held(),
        g1.history() == g0.history().push(GateEvent::Acquired).push(GateEvent::Released),
        g2.history() == g1.history().push(GateEvent::Acquired).push(GateEvent::Released),
    ensures
        alternating(g2.history()),
        g2.history() == g0.history() + seq![
            GateEvent::Acquired,
            GateEvent::Released,
            GateEvent::Acquired,
            GateEvent::Released,
        ],
        !ends_held(g2.history()),
        g2.history().len() == g0.history().len() + 4,
{
    let h0 = g0.history();
    let h2 = g2.history();
    let n = h0.len() as int;
    assert forall|i: int| 0 <= i < h2.len() - 1 implies #[trigger] h2[i] != #[trigger] h2[i + 1] by {
        if i < n - 1 {
            assert(h2[i] == h0[i] && h2[i + 1] == h0[i + 1]);
        }
    }
    assert(h2 =~= h0 + seq![
        GateEvent::Acquired,
        GateEvent::Released,
        GateEvent::Acquired,
        GateEvent::Released,
    ]);
}

} // verus!
