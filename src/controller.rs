//! The controller's side of one run, as a state machine: each event that the
//! surrounding program reports (a system call's result, a value read from a
//! shared cell) yields the next state and the one action to perform next.
use vstd::prelude::*;
use crate::identity::{PublicationSlot, UNPUBLISHED};
use crate::release::Strategy;

verus! {

/// The pause between seeing the handle and sending the signal, in
/// milliseconds. It makes an early signal unlikely; no strategy needs it.
pub const READINESS_DELAY_MS: u64 = 100;

/// Why a run ends abnormally.
#[derive(Clone, Copy, Debug, PartialEq, Eq, Structural)]
pub enum Fault {
    /// Installing the signal handler failed.
    InstallFailed,
    /// Sending the signal to the worker's thread failed.
    DispatchFailed,
    /// The worker thread ended abnormally.
    JoinFailed,
    /// An event came that the current phase does not expect.
    OutOfOrder,
}

#[derive(Clone, Copy, Debug, PartialEq, Eq, Structural)]
pub enum Phase {
    Start,
    /// The handler installation was requested.
    Installing,
    /// The worker spawn was requested.
    Spawning,
    /// Polling the publication slot.
    AwaitingIdentity,
    /// Sleeping for the readiness delay.
    Delaying,
    /// The signal send was requested.
    Dispatching,
    /// Polling the handler's atomic mark (condition variable only).
    AwaitingRelease,
    /// Setting the guarded flag under the mutex and notifying.
    Relaying,
    /// Waiting for the worker to exit.
    Joining,
    Finished,
    Aborted(Fault),
}

/// What the surrounding program reports back.
#[derive(Clone, Copy, Debug, PartialEq, Eq, Structural)]
pub enum Event {
    Begin,
    Installed { ok: bool },
    Spawned,
    SlotRead { value: u64 },
    DelayElapsed,
    /// The result code of the targeted send; 0 is success.
    SignalSent { code: i32 },
    FiredRead { fired: bool },
    Notified,
    Joined { ok: bool },
}

/// What the surrounding program is to do next.
#[derive(Clone, Copy, Debug, PartialEq, Eq, Structural)]
pub enum Action {
    InstallHandler,
    SpawnWorker,
    ReadSlot,
    Sleep { ms: u64 },
    SendSignal { handle: u64 },
    ReadFired,
    NotifyWorker,
    JoinWorker,
    Finish,
    Abort { fault: Fault },
    Idle,
}

#[derive(Clone, Copy, Debug, PartialEq, Eq, Structural)]
pub struct Controller {
    pub strategy: Strategy,
    pub delay_ms: u64,
    pub phase: Phase,
    /// The worker's handle once observed; the sentinel before.
    pub handle: u64,
}

/// The state and action after `event` in state `c`.
pub open spec fn next(c: Controller, event: Event) -> (Controller, Action) {
    let abort = |f: Fault| (Controller { phase: Phase::Aborted(f), ..c }, Action::Abort { fault: f });
    match (c.phase, event) {
        (Phase::Finished, _) => (c, Action::Idle),
        (Phase::Aborted(_), _) => (c, Action::Idle),
        (Phase::Start, Event::Begin) => (
            Controller { phase: Phase::Installing, ..c },
            Action::InstallHandler,
        ),
        (Phase::Installing, Event::Installed { ok }) => if ok {
            (Controller { phase: Phase::Spawning, ..c }, Action::SpawnWorker)
        } else {
            abort(Fault::InstallFailed)
        },
        (Phase::Spawning, Event::Spawned) => (
            Controller { phase: Phase::AwaitingIdentity, ..c },
            Action::ReadSlot,
        ),
        (Phase::AwaitingIdentity, Event::SlotRead { value }) => if value == UNPUBLISHED {
            (c, Action::ReadSlot)
        } else {
            (
                Controller { phase: Phase::Delaying, handle: value, ..c },
                Action::Sleep { ms: c.delay_ms },
            )
        },
        (Phase::Delaying, Event::DelayElapsed) => (
            Controller { phase: Phase::Dispatching, ..c },
            Action::SendSignal { handle: c.handle },
        ),
        (Phase::Dispatching, Event::SignalSent { code }) => if code != 0 {
            abort(Fault::DispatchFailed)
        } else if c.strategy == Strategy::CondVar {
            (Controller { phase: Phase::AwaitingRelease, ..c }, Action::ReadFired)
        } else {
            (Controller { phase: Phase::Joining, ..c }, Action::JoinWorker)
        },
        (Phase::AwaitingRelease, Event::FiredRead { fired }) => if fired {
            (Controller { phase: Phase::Relaying, ..c }, Action::NotifyWorker)
        } else {
            (c, Action::ReadFired)
        },
        (Phase::Relaying, Event::Notified) => (
            Controller { phase: Phase::Joining, ..c },
            Action::JoinWorker,
        ),
        (Phase::Joining, Event::Joined { ok }) => if ok {
            (Controller { phase: Phase::Finished, ..c }, Action::Finish)
        } else {
            abort(Fault::JoinFailed)
        },
        _ => abort(Fault::OutOfOrder),
    }
}

impl Controller {
    /// Every phase from the delay on holds the observed, non-sentinel
    /// handle; only the condition variable polls the mark and relays.
    pub open spec fn wf(self) -> bool {
        &&& (match self.phase {
            Phase::Delaying | Phase::Dispatching | Phase::AwaitingRelease | Phase::Relaying
            | Phase::Joining | Phase::Finished => self.handle != UNPUBLISHED,
            _ => true,
        })
        &&& (match self.phase {
            Phase::Start | Phase::Installing | Phase::Spawning | Phase::AwaitingIdentity =>
                self.handle == UNPUBLISHED,
            _ => true,
        })
        &&& (match self.phase {
            Phase::AwaitingRelease | Phase::Relaying => self.strategy == Strategy::CondVar,
            _ => true,
        })
    }

    pub fn new(strategy: Strategy, delay_ms: u64) -> (r: Self)
        ensures
            r == (Controller { strategy, delay_ms, phase: Phase::Start, handle: UNPUBLISHED }),
            r.wf(),
    {
        Controller { strategy, delay_ms, phase: Phase::Start, handle: UNPUBLISHED }
    }

    fn abort(&mut self, fault: Fault) -> (action: Action)
        ensures
            *final(self) == (Controller { phase: Phase::Aborted(fault), ..*old(self) }),
            action == (Action::Abort { fault }),
    {
        self.phase = Phase::Aborted(fault);
        Action::Abort { fault }
    }

    /// Takes one event and returns the next action. A signal is only ever
    /// requested for the handle the controller observed, which is never the
    /// sentinel; any failure it is told of ends the run.
    pub fn step(&mut self, event: Event) -> (action: Action)
        requires
            old(self).wf(),
        ensures
            (*final(self), action) == next(*old(self), event),
            final(self).wf(),
            action matches Action::SendSignal { handle } ==> handle != UNPUBLISHED && handle
                == old(self).handle,
    {
        match (self.phase, event) {
            (Phase::Finished, _) => Action::Idle,
            (Phase::Aborted(_), _) => Action::Idle,
            (Phase::Start, Event::Begin) => {
                self.phase = Phase::Installing;
                Action::InstallHandler
            },
            (Phase::Installing, Event::Installed { ok }) => {
                if ok {
                    self.phase = Phase::Spawning;
                    Action::SpawnWorker
                } else {
                    self.abort(Fault::InstallFailed)
                }
            },
            (Phase::Spawning, Event::Spawned) => {
                self.phase = Phase::AwaitingIdentity;
                Action::ReadSlot
            },
            (Phase::AwaitingIdentity, Event::SlotRead { value }) => {
                if value == UNPUBLISHED {
                    Action::ReadSlot
                } else {
                    self.phase = Phase::Delaying;
                    self.handle = value;
                    Action::Sleep { ms: self.delay_ms }
                }
            },
            (Phase::Delaying, Event::DelayElapsed) => {
                self.phase = Phase::Dispatching;
                Action::SendSignal { handle: self.handle }
            },
            (Phase::Dispatching, Event::SignalSent { code }) => {
                if code != 0 {
                    self.abort(Fault::DispatchFailed)
                } else if self.strategy == Strategy::CondVar {
                    self.phase = Phase::AwaitingRelease;
                    Action::ReadFired
                } else {
                    self.phase = Phase::Joining;
                    Action::JoinWorker
                }
            },
            (Phase::AwaitingRelease, Event::FiredRead { fired }) => {
                if fired {
                    self.phase = Phase::Relaying;
                    Action::NotifyWorker
                } else {
                    Action::ReadFired
                }
            },
            (Phase::Relaying, Event::Notified) => {
                self.phase = Phase::Joining;
                Action::JoinWorker
            },
            (Phase::Joining, Event::Joined { ok }) => {
                if ok {
                    self.phase = Phase::Finished;
                    Action::Finish
                } else {
                    self.abort(Fault::JoinFailed)
                }
            },
            _ => self.abort(Fault::OutOfOrder),
        }
    }
}

/// Once the worker has stored its handle, the controller's next read of the
/// slot sees that handle and no longer the sentinel: it leaves the polling
/// phase holding exactly the published handle, and the signal it later
/// requests targets that handle.
pub proof fn lemma_controller_sees_publication(c: Controller, slot: PublicationSlot, handle: u64)
    requires
        c.wf(),
        c.phase == Phase::AwaitingIdentity,
        slot.value == UNPUBLISHED,
        handle != UNPUBLISHED,
    ensures
        ({
            let published = slot.after_publish(handle);
            let (c1, a1) = next(c, Event::SlotRead { value: published.value });
            let (c2, a2) = next(c1, Event::DelayElapsed);
            &&& published.published() == Some(handle)
            &&& c1.phase == Phase::Delaying
            &&& c1.handle == handle
            &&& a1 == (Action::Sleep { ms: c.delay_ms })
            &&& a2 == (Action::SendSignal { handle })
        }),
{
}

} // verus!
