//! The release condition that the parked worker waits on, and the three moves
//! that change it: the worker reaching its wait point, the signal handler
//! running on the worker's stack, and (for the condition variable) the
//! controller relaying the handler's mark into the mutex-guarded flag.
use vstd::prelude::*;

verus! {

/// The wait primitive through which the signal handler releases the worker.
#[derive(Clone, Copy, Debug, PartialEq, Eq, Structural)]
pub enum Strategy {
    /// Two-party rendezvous: the worker and the handler each arrive once.
    Barrier,
    /// Kernel wait on a 32-bit cell while it holds 0.
    Futex,
    /// Mutex-guarded flag plus condition variable; the handler only marks an atomic.
    CondVar,
    /// Busy-spin on an atomic cell until it is non-zero.
    AtomicSpin,
}

/// Where the worker stands with respect to its wait point.
#[derive(Clone, Copy, Debug, PartialEq, Eq, Structural)]
pub enum WorkerPhase {
    /// Not yet at the wait point.
    Running,
    /// Blocked (or spinning) at the wait point, condition not yet met.
    Parked,
    /// Past the wait point.
    Released,
}

/// What the signal handler does when the signal arrives.
#[derive(Clone, Copy, Debug, PartialEq, Eq, Structural)]
pub enum HandlerAction {
    /// Arrive at the two-party barrier.
    ArriveAtBarrier,
    /// Store 1 into the futex cell, then wake one waiter on it.
    StoreAndWake,
    /// Store into the atomic "fired" mark; the controller does the rest.
    MarkFired,
    /// Store a non-zero value into the spin cell.
    StoreFlag,
    /// Nothing: the handler already took its one turn.
    Ignore,
}

/// The action the handler takes for `strategy`, given whether it already ran.
pub open spec fn handler_action_of(strategy: Strategy, already_fired: bool) -> HandlerAction {
    match strategy {
        Strategy::Barrier => if already_fired {
            HandlerAction::Ignore
        } else {
            HandlerAction::ArriveAtBarrier
        },
        Strategy::Futex => HandlerAction::StoreAndWake,
        Strategy::CondVar => HandlerAction::MarkFired,
        Strategy::AtomicSpin => HandlerAction::StoreFlag,
    }
}

/// Chooses the handler's action. A second run of the handler on the barrier
/// is ignored: a third arrival would open a new rendezvous and block the
/// handler for good. The other primitives tolerate a repeated store.
pub fn handler_action(strategy: Strategy, already_fired: bool) -> (r: HandlerAction)
    ensures
        r == handler_action_of(strategy, already_fired),
{
    match strategy {
        Strategy::Barrier => if already_fired {
            HandlerAction::Ignore
        } else {
            HandlerAction::ArriveAtBarrier
        },
        Strategy::Futex => HandlerAction::StoreAndWake,
        Strategy::CondVar => HandlerAction::MarkFired,
        Strategy::AtomicSpin => HandlerAction::StoreFlag,
    }
}

/// The shared release condition of one run.
#[derive(Clone, Copy, Debug, PartialEq, Eq, Structural)]
pub struct ReleaseState {
    pub strategy: Strategy,
    /// Arrivals recorded at the rendezvous (barrier only).
    pub arrivals: u8,
    /// Whether the handler has run: the barrier's guard, the condition
    /// variable's atomic mark, and for the cells the same as `cell != 0`.
    pub fired: bool,
    /// The futex cell or the spin cell: 0 = not signaled, 1 = signaled.
    pub cell: u32,
    /// The mutex-guarded flag (condition variable only).
    pub guarded: bool,
    pub worker: WorkerPhase,
    /// How many times the worker went from waiting to released.
    pub releases: u8,
}

impl ReleaseState {
    /// The predicate the worker's wait primitive waits for.
    pub open spec fn condition_met(self) -> bool {
        match self.strategy {
            Strategy::Barrier => self.arrivals >= 2,
            Strategy::Futex => self.cell != 0,
            Strategy::CondVar => self.guarded,
            Strategy::AtomicSpin => self.cell != 0,
        }
    }

    /// The shape every reachable state has.
    pub open spec fn wf(self) -> bool {
        &&& self.releases <= 1
        &&& (self.worker == WorkerPhase::Released <==> self.releases == 1)
        &&& (self.worker == WorkerPhase::Parked ==> !self.condition_met())
        &&& (self.worker == WorkerPhase::Released ==> self.condition_met())
        &&& match self.strategy {
            Strategy::Barrier => {
                &&& self.cell == 0
                &&& !self.guarded
                &&& self.arrivals == (if self.fired { 1u8 } else { 0u8 }) + (if self.worker
                    == WorkerPhase::Running {
                    0u8
                } else {
                    1u8
                })
            },
            Strategy::CondVar => {
                &&& self.arrivals == 0
                &&& self.cell == 0
                &&& (self.guarded ==> self.fired)
            },
            _ => {
                &&& self.arrivals == 0
                &&& !self.guarded
                &&& (self.cell == 1 <==> self.fired)
                &&& self.cell <= 1
            },
        }
    }

    /// The state when the worker is spawned: nothing has happened yet.
    pub open spec fn initial(strategy: Strategy) -> Self {
        ReleaseState {
            strategy,
            arrivals: 0,
            fired: false,
            cell: 0,
            guarded: false,
            worker: WorkerPhase::Running,
            releases: 0,
        }
    }

    /// A parked worker whose condition is met is woken; nothing else changes.
    pub open spec fn settle(self) -> Self {
        if self.worker == WorkerPhase::Parked && self.condition_met() {
            ReleaseState { worker: WorkerPhase::Released, releases: 1, ..self }
        } else {
            self
        }
    }

    /// The worker reaches its wait point: it arrives at the barrier, or
    /// checks the condition and parks only while it is unmet.
    pub open spec fn after_wait(self) -> Self {
        if self.worker != WorkerPhase::Running {
            self
        } else if self.strategy == Strategy::Barrier {
            ReleaseState {
                arrivals: (self.arrivals + 1) as u8,
                worker: WorkerPhase::Parked,
                ..self
            }.settle()
        } else {
            ReleaseState { worker: WorkerPhase::Parked, ..self }.settle()
        }
    }

    /// The signal handler runs once more.
    pub open spec fn after_handler(self) -> Self {
        match handler_action_of(self.strategy, self.fired) {
            HandlerAction::ArriveAtBarrier => ReleaseState {
                arrivals: (self.arrivals + 1) as u8,
                fired: true,
                ..self
            }.settle(),
            HandlerAction::StoreAndWake => ReleaseState { cell: 1, fired: true, ..self }.settle(),
            HandlerAction::StoreFlag => ReleaseState { cell: 1, fired: true, ..self }.settle(),
            HandlerAction::MarkFired => ReleaseState { fired: true, ..self },
            HandlerAction::Ignore => self,
        }
    }

    /// The controller, outside the handler, sees the mark and sets the
    /// guarded flag under the mutex, then notifies (condition variable only).
    pub open spec fn after_relay(self) -> Self {
        if self.strategy == Strategy::CondVar && self.fired && !self.guarded {
            ReleaseState { guarded: true, ..self }.settle()
        } else {
            self
        }
    }

    /// Whether the controller has a relay step to take on this state.
    pub open spec fn relay_due(self) -> bool {
        self.strategy == Strategy::CondVar && self.fired && !self.guarded
    }

    pub fn new(strategy: Strategy) -> (r: Self)
        ensures
            r == Self::initial(strategy),
            r.wf(),
    {
        ReleaseState {
            strategy,
            arrivals: 0,
            fired: false,
            cell: 0,
            guarded: false,
            worker: WorkerPhase::Running,
            releases: 0,
        }
    }

    pub fn condition(&self) -> (r: bool)
        ensures
            r == self.condition_met(),
    {
        match self.strategy {
            Strategy::Barrier => self.arrivals >= 2,
            Strategy::Futex => self.cell != 0,
            Strategy::CondVar => self.guarded,
            Strategy::AtomicSpin => self.cell != 0,
        }
    }

    fn settle_exec(&mut self)
        requires
            old(self).releases == 0,
        ensures
            *final(self) == old(self).settle(),
    {
        if self.worker == WorkerPhase::Parked && self.condition() {
            self.worker = WorkerPhase::Released;
            self.releases = 1;
        }
    }

    /// The worker reaches its wait point. Returns whether it must block
    /// (or spin) there; `false` means it went straight through.
    pub fn worker_wait(&mut self) -> (blocks: bool)
        requires
            old(self).wf(),
        ensures
            *final(self) == old(self).after_wait(),
            final(self).wf(),
            old(self).worker == WorkerPhase::Running ==> (blocks == (final(self).worker
                == WorkerPhase::Parked)),
            old(self).worker != WorkerPhase::Running ==> !blocks,
    {
        if self.worker != WorkerPhase::Running {
            return false;
        }
        if self.strategy == Strategy::Barrier {
            self.arrivals = self.arrivals + 1;
        }
        self.worker = WorkerPhase::Parked;
        self.settle_exec();
        self.worker == WorkerPhase::Parked
    }

    /// The signal handler runs. Returns the action it performs on the real
    /// primitive; the state records its effect.
    pub fn handler_fire(&mut self) -> (action: HandlerAction)
        requires
            old(self).wf(),
        ensures
            action == handler_action_of(old(self).strategy, old(self).fired),
            *final(self) == old(self).after_handler(),
            final(self).wf(),
    {
        let action = handler_action(self.strategy, self.fired);
        match action {
            HandlerAction::ArriveAtBarrier => {
                self.arrivals = self.arrivals + 1;
                self.fired = true;
                if self.releases == 0 {
                    self.settle_exec();
                }
            },
            HandlerAction::StoreAndWake | HandlerAction::StoreFlag => {
                self.cell = 1;
                self.fired = true;
                if self.releases == 0 {
                    self.settle_exec();
                }
            },
            HandlerAction::MarkFired => {
                self.fired = true;
            },
            HandlerAction::Ignore => {},
        }
        action
    }

    /// The controller relays the handler's mark into the guarded flag and
    /// notifies. Returns whether it did so (condition variable with the mark
    /// set and the flag still clear).
    pub fn relay(&mut self) -> (notified: bool)
        requires
            old(self).wf(),
        ensures
            notified == old(self).relay_due(),
            *final(self) == old(self).after_relay(),
            final(self).wf(),
    {
        if self.strategy == Strategy::CondVar && self.fired && !self.guarded {
            self.guarded = true;
            self.settle_exec();
            true
        } else {
            false
        }
    }
}

/// One move of a run, by whoever makes it.
#[derive(Clone, Copy, Debug, PartialEq, Eq, Structural)]
pub enum Move {
    /// The worker reaches its wait point.
    Wait,
    /// The signal handler runs (possibly again).
    Signal,
    /// The controller relays the handler's mark.
    Relay,
}

impl ReleaseState {
    /// The state after `m`.
    pub open spec fn after(self, m: Move) -> Self {
        match m {
            Move::Wait => self.after_wait(),
            Move::Signal => self.after_handler(),
            Move::Relay => self.after_relay(),
        }
    }

    /// The state after the moves of `moves`, in order.
    pub open spec fn after_all(self, moves: Seq<Move>) -> Self
        decreases moves.len(),
    {
        if moves.len() == 0 {
            self
        } else {
            self.after_all(moves.drop_last()).after(moves.last())
        }
    }

    /// Applies one move.
    pub fn apply(&mut self, m: Move)
        requires
            old(self).wf(),
        ensures
            *final(self) == old(self).after(m),
            final(self).wf(),
    {
        match m {
            Move::Wait => {
                self.worker_wait();
            },
            Move::Signal => {
                self.handler_fire();
            },
            Move::Relay => {
                self.relay();
            },
        }
    }
}

/// Every move keeps the state well formed, so the worker is released at most
/// once in any run; a repeated handler run or relay changes nothing, and a
/// released worker stays released.
pub proof fn lemma_single_release(s: ReleaseState)
    requires
        s.wf(),
    ensures
        s.after_wait().wf(),
        s.after_handler().wf(),
        s.after_relay().wf(),
        s.after_wait().releases <= 1,
        s.after_handler().releases <= 1,
        s.after_relay().releases <= 1,
        s.after_handler().after_handler() == s.after_handler(),
        s.after_relay().after_relay() == s.after_relay(),
        s.worker == WorkerPhase::Released ==> s.after_wait() == s && s.after_handler().worker
            == WorkerPhase::Released && s.after_relay() == s,
{
}

/// In any run, whatever moves come in whatever order (the signal delivered
/// any number of times included), the worker is released at most once and
/// the state stays well formed.
pub proof fn lemma_at_most_one_release(strategy: Strategy, moves: Seq<Move>)
    ensures
        ReleaseState::initial(strategy).after_all(moves).wf(),
        ReleaseState::initial(strategy).after_all(moves).releases <= 1,
    decreases moves.len(),
{
    if moves.len() > 0 {
        lemma_at_most_one_release(strategy, moves.drop_last());
        lemma_single_release(ReleaseState::initial(strategy).after_all(moves.drop_last()));
    }
}

/// Whether some relay in `moves` comes after some signal.
pub open spec fn signal_then_relay(moves: Seq<Move>) -> bool {
    exists|i: int, j: int|
        0 <= i < j < moves.len() && moves[i] == Move::Signal && moves[j] == Move::Relay
}

proof fn lemma_contains_split(moves: Seq<Move>, m: Move)
    requires
        moves.len() > 0,
    ensures
        moves.contains(m) <==> (moves.drop_last().contains(m) || moves.last() == m),
{
    let pre = moves.drop_last();
    if moves.contains(m) {
        let i = choose|i: int| 0 <= i < moves.len() && moves[i] == m;
        if i < moves.len() - 1 {
            assert(pre[i] == m);
        }
    }
    if pre.contains(m) {
        let i = choose|i: int| 0 <= i < pre.len() && pre[i] == m;
        assert(moves[i] == m);
    }
    if moves.last() == m {
        assert(moves[moves.len() - 1] == m);
    }
}

proof fn lemma_signal_then_relay_split(moves: Seq<Move>)
    requires
        moves.len() > 0,
    ensures
        signal_then_relay(moves) <==> (signal_then_relay(moves.drop_last()) || (moves.last()
            == Move::Relay && moves.drop_last().contains(Move::Signal))),
{
    let pre = moves.drop_last();
    let n = moves.len() - 1;
    if signal_then_relay(moves) {
        let (i, j) = choose|i: int, j: int|
            0 <= i < j < moves.len() && moves[i] == Move::Signal && moves[j] == Move::Relay;
        if j < n {
            assert(pre[i] == Move::Signal && pre[j] == Move::Relay);
        } else {
            assert(pre[i] == Move::Signal);
        }
    }
    if signal_then_relay(pre) {
        let (i, j) = choose|i: int, j: int|
            0 <= i < j < pre.len() && pre[i] == Move::Signal && pre[j] == Move::Relay;
        assert(moves[i] == Move::Signal && moves[j] == Move::Relay);
    }
    if moves.last() == Move::Relay && pre.contains(Move::Signal) {
        let i = choose|i: int| 0 <= i < pre.len() && pre[i] == Move::Signal;
        assert(moves[i] == Move::Signal && moves[n] == Move::Relay);
    }
}

/// What a run's moves say about its state: the handler's mark records
/// whether a signal came, the worker has left `Running` exactly when it
/// reached its wait point, and the guarded flag records a relay that
/// followed a signal.
proof fn lemma_state_of_moves(strategy: Strategy, moves: Seq<Move>)
    ensures
        ({
            let s = ReleaseState::initial(strategy).after_all(moves);
            &&& s.wf()
            &&& s.strategy == strategy
            &&& s.fired == moves.contains(Move::Signal)
            &&& (s.worker != WorkerPhase::Running) == moves.contains(Move::Wait)
            &&& (strategy == Strategy::CondVar ==> s.guarded == signal_then_relay(moves))
        }),
    decreases moves.len(),
{
    if moves.len() > 0 {
        lemma_state_of_moves(strategy, moves.drop_last());
        lemma_single_release(ReleaseState::initial(strategy).after_all(moves.drop_last()));
        lemma_contains_split(moves, Move::Signal);
        lemma_contains_split(moves, Move::Wait);
        lemma_signal_then_relay_split(moves);
    }
}

/// Moves after which the worker must be past its wait point: it waited,
/// it was signaled, and for the condition variable a relay followed a signal.
pub open spec fn completes(strategy: Strategy, moves: Seq<Move>) -> bool {
    &&& moves.contains(Move::Wait)
    &&& moves.contains(Move::Signal)
    &&& (strategy == Strategy::CondVar ==> signal_then_relay(moves))
}

/// However the worker's wait, the signal and the controller's relay are
/// interleaved, and however often the signal comes, the worker ends up
/// released exactly once as soon as it has waited and been signaled (and,
/// for the condition variable, a relay has followed the signal).
pub proof fn lemma_no_lost_wakeup_any_order(strategy: Strategy, moves: Seq<Move>)
    requires
        completes(strategy, moves),
    ensures
        ReleaseState::initial(strategy).after_all(moves).worker == WorkerPhase::Released,
        ReleaseState::initial(strategy).after_all(moves).releases == 1,
{
    lemma_state_of_moves(strategy, moves);
}

/// How early the signal arrives relative to the worker's wait does not
/// change where the run ends: any two complete runs of one strategy, the
/// one without a readiness delay included, end in the same state.
pub proof fn lemma_outcome_independent_of_timing(strategy: Strategy, a: Seq<Move>, b: Seq<Move>)
    requires
        completes(strategy, a),
        completes(strategy, b),
    ensures
        ReleaseState::initial(strategy).after_all(a) == ReleaseState::initial(strategy).after_all(
            b,
        ),
{
    lemma_state_of_moves(strategy, a);
    lemma_state_of_moves(strategy, b);
}

/// For the condition variable the handler only stores the atomic mark: it
/// neither touches the mutex-guarded flag nor wakes the worker.
pub proof fn lemma_condvar_handler_lock_free(s: ReleaseState, already_fired: bool)
    requires
        s.wf(),
        s.strategy == Strategy::CondVar,
    ensures
        handler_action_of(Strategy::CondVar, already_fired) == HandlerAction::MarkFired,
        s.after_handler() == (ReleaseState { fired: true, ..s }),
        s.after_handler().guarded == s.guarded,
        s.after_handler().worker == s.worker,
{
}

} // verus!
