//! Bookkeeping of the relay: two copies run at once, and the session is torn
//! down exactly once, when both have reached end-of-stream or when the first
//! one fails.

use vstd::prelude::*;

verus! {

#[derive(PartialEq, Eq, Structural, Clone, Copy, Debug)]
pub enum Direction {
    ClientToServer,
    ServerToClient,
}

/// How one copy ended.
#[derive(PartialEq, Eq, Structural, Clone, Copy, Debug)]
pub enum CopyOutcome {
    EndOfStream,
    Failed,
}

/// What the caller does next.
#[derive(PartialEq, Eq, Structural, Clone, Copy, Debug)]
pub enum RelayAction {
    /// Keep the other copy running.
    Continue,
    /// Close both sockets and end the session, successfully or not.
    Teardown { success: bool },
    /// The session is already torn down: nothing to do.
    Ignore,
}

#[derive(PartialEq, Eq, Structural, Clone, Copy, Debug)]
pub struct Relay {
    pub client_done: bool,
    pub server_done: bool,
    pub finished: bool,
}

impl Relay {
    /// A reachable state: both copies done means the session is torn down.
    pub open spec fn wf(self) -> bool {
        self.client_done && self.server_done ==> self.finished
    }

    pub open spec fn spec_next(self, d: Direction, o: CopyOutcome) -> (Relay, RelayAction) {
        if self.finished {
            (self, RelayAction::Ignore)
        } else if o == CopyOutcome::Failed {
            (Relay { finished: true, ..self }, RelayAction::Teardown { success: false })
        } else {
            let c = self.client_done || d == Direction::ClientToServer;
            let s = self.server_done || d == Direction::ServerToClient;
            if c && s {
                (
                    Relay { client_done: c, server_done: s, finished: true },
                    RelayAction::Teardown { success: true },
                )
            } else {
                (Relay { client_done: c, server_done: s, finished: false }, RelayAction::Continue)
            }
        }
    }

    pub fn new() -> (r: Relay)
        ensures
            r == (Relay { client_done: false, server_done: false, finished: false }),
    {
        Relay { client_done: false, server_done: false, finished: false }
    }

    /// Records how the copy in direction `d` ended.
    pub fn on_copy_end(&mut self, d: Direction, o: CopyOutcome) -> (a: RelayAction)
        ensures
            (*final(self), a) == old(self).spec_next(d, o),
    {
        if self.finished {
            return RelayAction::Ignore;
        }
        match o {
            CopyOutcome::Failed => {
                self.finished = true;
                RelayAction::Teardown { success: false }
            },
            CopyOutcome::EndOfStream => {
                let c = self.client_done || d == Direction::ClientToServer;
                let s = self.server_done || d == Direction::ServerToClient;
                self.client_done = c;
                self.server_done = s;
                if c && s {
                    self.finished = true;
                    RelayAction::Teardown { success: true }
                } else {
                    RelayAction::Continue
                }
            },
        }
    }
}

/// The state after a run of copy endings, and how many teardowns it asked for.
pub open spec fn run(r: Relay, events: Seq<(Direction, CopyOutcome)>) -> (Relay, nat)
    decreases events.len(),
{
    if events.len() == 0 {
        (r, 0)
    } else {
        let (r1, a) = r.spec_next(events[0].0, events[0].1);
        let (rf, n) = run(r1, events.drop_first());
        (rf, n + if a is Teardown {
            1nat
        } else {
            0nat
        })
    }
}

proof fn lemma_run_counts(r: Relay, events: Seq<(Direction, CopyOutcome)>)
    requires
        r.wf(),
    ensures
        run(r, events).0.wf(),
        run(r, events).1 <= 1,
        r.finished ==> run(r, events).1 == 0 && run(r, events).0 == r,
        !r.finished ==> (run(r, events).1 == 1 <==> run(r, events).0.finished),
        r.client_done ==> run(r, events).0.client_done,
        r.server_done ==> run(r, events).0.server_done,
        r.finished ==> run(r, events).0.finished,
    decreases events.len(),
{
    if events.len() > 0 {
        let (r1, a) = r.spec_next(events[0].0, events[0].1);
        lemma_run_counts(r1, events.drop_first());
    }
}

proof fn lemma_run_reaches(r: Relay, events: Seq<(Direction, CopyOutcome)>, k: int)
    requires
        r.wf(),
        0 <= k < events.len(),
    ensures
        events[k] == (Direction::ClientToServer, CopyOutcome::EndOfStream) ==> run(
            r,
            events,
        ).0.client_done || run(r, events).0.finished,
        events[k] == (Direction::ServerToClient, CopyOutcome::EndOfStream) ==> run(
            r,
            events,
        ).0.server_done || run(r, events).0.finished,
    decreases events.len(),
{
    let (r1, a) = r.spec_next(events[0].0, events[0].1);
    lemma_run_counts(r1, events.drop_first());
    if k > 0 {
        lemma_run_reaches(r1, events.drop_first(), k - 1);
    }
}

/// Whatever order the copies end in, a relay asks for at most one teardown;
/// and once both directions have reached end-of-stream it has asked for
/// exactly one, so both sockets are closed exactly once.
pub proof fn teardown_happens_once(events: Seq<(Direction, CopyOutcome)>)
    ensures
        run(Relay { client_done: false, server_done: false, finished: false }, events).1 <= 1,
        (exists|i: int|
            0 <= i < events.len() && events[i] == (
                Direction::ClientToServer,
                CopyOutcome::EndOfStream,
            )) && (exists|j: int|
            0 <= j < events.len() && events[j] == (
                Direction::ServerToClient,
                CopyOutcome::EndOfStream,
            )) ==> run(Relay { client_done: false, server_done: false, finished: false }, events).1
            == 1,
{
    let r0 = Relay { client_done: false, server_done: false, finished: false };
    lemma_run_counts(r0, events);
    if (exists|i: int|
        0 <= i < events.len() && events[i] == (Direction::ClientToServer, CopyOutcome::EndOfStream))
        && (exists|j: int|
        0 <= j < events.len() && events[j] == (Direction::ServerToClient, CopyOutcome::EndOfStream)) {
        let i = choose|i: int|
            0 <= i < events.len() && events[i] == (
                Direction::ClientToServer,
                CopyOutcome::EndOfStream,
            );
        let j = choose|j: int|
            0 <= j < events.len() && events[j] == (
                Direction::ServerToClient,
                CopyOutcome::EndOfStream,
            );
        lemma_run_reaches(r0, events, i);
        lemma_run_reaches(r0, events, j);
    }
}

} // verus!
