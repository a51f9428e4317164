use signal_release::controller::{Action, Controller, Event, Fault, Phase, READINESS_DELAY_MS};
use signal_release::identity::{observe_value, PublicationSlot, PublishError, UNPUBLISHED};
use signal_release::release::{
    handler_action, HandlerAction, Move, ReleaseState, Strategy, WorkerPhase,
};

const ALL: [Strategy; 4] = [
    Strategy::Barrier,
    Strategy::Futex,
    Strategy::CondVar,
    Strategy::AtomicSpin,
];

fn run_late(strategy: Strategy) -> ReleaseState {
    let mut s = ReleaseState::new(strategy);
    s.worker_wait();
    s.handler_fire();
    s.relay();
    s
}

fn run_early(strategy: Strategy) -> ReleaseState {
    let mut s = ReleaseState::new(strategy);
    s.handler_fire();
    s.relay();
    s.worker_wait();
    s
}

#[test]
fn worker_parks_until_signal() {
    for strategy in ALL {
        let mut s = ReleaseState::new(strategy);
        assert!(s.worker_wait());
        assert_eq!(s.worker, WorkerPhase::Parked);
        assert_eq!(s.releases, 0);
    }
}

#[test]
fn single_release_every_strategy() {
    for strategy in ALL {
        let s = run_late(strategy);
        assert_eq!(s.worker, WorkerPhase::Released);
        assert_eq!(s.releases, 1);
    }
}

#[test]
fn repeated_signal_does_not_release_twice() {
    for strategy in ALL {
        let mut s = run_late(strategy);
        let before = s;
        s.handler_fire();
        s.relay();
        assert_eq!(s.releases, 1);
        assert_eq!(s.worker, WorkerPhase::Released);
        if strategy == Strategy::Barrier {
            assert_eq!(s, before);
            assert_eq!(s.arrivals, 2);
        }
    }
}

#[test]
fn barrier_ignores_second_handler_run() {
    assert_eq!(handler_action(Strategy::Barrier, false), HandlerAction::ArriveAtBarrier);
    assert_eq!(handler_action(Strategy::Barrier, true), HandlerAction::Ignore);
    let mut s = ReleaseState::new(Strategy::Barrier);
    assert_eq!(s.handler_fire(), HandlerAction::ArriveAtBarrier);
    assert_eq!(s.handler_fire(), HandlerAction::Ignore);
    assert_eq!(s.arrivals, 1);
    assert!(!s.worker_wait());
    assert_eq!(s.arrivals, 2);
    assert_eq!(s.worker, WorkerPhase::Released);
}

#[test]
fn early_signal_is_not_lost() {
    for strategy in ALL {
        let s = run_early(strategy);
        assert_eq!(s.worker, WorkerPhase::Released);
        assert_eq!(s.releases, 1);
    }
}

#[test]
fn early_signal_with_late_relay() {
    let mut s = ReleaseState::new(Strategy::CondVar);
    s.handler_fire();
    assert!(s.worker_wait());
    assert!(s.relay());
    assert_eq!(s.worker, WorkerPhase::Released);
}

#[test]
fn outcome_same_without_delay() {
    for strategy in ALL {
        assert_eq!(run_early(strategy), run_late(strategy));
    }
}

#[test]
fn futex_early_signal_goes_straight_through() {
    let mut s = ReleaseState::new(Strategy::Futex);
    assert_eq!(s.handler_fire(), HandlerAction::StoreAndWake);
    assert_eq!(s.cell, 1);
    assert!(!s.worker_wait());
    assert_eq!(s.worker, WorkerPhase::Released);
}

#[test]
fn condvar_handler_only_marks() {
    let mut s = ReleaseState::new(Strategy::CondVar);
    s.worker_wait();
    assert_eq!(s.handler_fire(), HandlerAction::MarkFired);
    assert!(s.fired);
    assert!(!s.guarded);
    assert_eq!(s.worker, WorkerPhase::Parked);
    assert!(s.relay());
    assert!(s.guarded);
    assert_eq!(s.worker, WorkerPhase::Released);
    assert!(!s.relay());
}

#[test]
fn spin_flag_set_by_handler() {
    let mut s = ReleaseState::new(Strategy::AtomicSpin);
    s.worker_wait();
    assert_eq!(s.handler_fire(), HandlerAction::StoreFlag);
    assert_eq!(s.cell, 1);
    assert_eq!(s.worker, WorkerPhase::Released);
}

#[test]
fn publish_once() {
    let mut slot = PublicationSlot::new();
    assert_eq!(slot.observe(), None);
    assert_eq!(slot.publish(0), Err(PublishError::SentinelHandle));
    assert_eq!(slot.observe(), None);
    assert_eq!(slot.publish(140_000_123), Ok(()));
    assert_eq!(slot.observe(), Some(140_000_123));
    assert_eq!(slot.publish(77), Err(PublishError::AlreadyPublished));
    assert_eq!(slot.observe(), Some(140_000_123));
}

#[test]
fn publication_visible_across_many_reads() {
    for h in 1u64..2000 {
        let mut slot = PublicationSlot::new();
        slot.publish(h).unwrap();
        for _ in 0..5 {
            assert_eq!(observe_value(slot.value), Some(h));
        }
    }
    assert_eq!(observe_value(UNPUBLISHED), None);
    assert_eq!(observe_value(u64::MAX), Some(u64::MAX));
}

fn drive(c: &mut Controller, events: &[Event]) -> Vec<Action> {
    events.iter().map(|e| c.step(*e)).collect()
}

#[test]
fn futex_run_end_to_end() {
    let handle = 139_871_234_567u64;
    let mut c = Controller::new(Strategy::Futex, READINESS_DELAY_MS);
    let mut shared = ReleaseState::new(Strategy::Futex);
    let mut slot = PublicationSlot::new();
    let mut actions = drive(&mut c, &[Event::Begin, Event::Installed { ok: true }, Event::Spawned]);
    actions.push(c.step(Event::SlotRead { value: slot.value }));
    slot.publish(handle).unwrap();
    assert!(shared.worker_wait());
    actions.extend(drive(
        &mut c,
        &[Event::SlotRead { value: slot.value }, Event::DelayElapsed, Event::SignalSent { code: 0 }],
    ));
    assert_eq!(shared.handler_fire(), HandlerAction::StoreAndWake);
    assert_eq!(shared.worker, WorkerPhase::Released);
    actions.push(c.step(Event::Joined { ok: true }));
    assert_eq!(
        actions,
        vec![
            Action::InstallHandler,
            Action::SpawnWorker,
            Action::ReadSlot,
            Action::ReadSlot,
            Action::Sleep { ms: 100 },
            Action::SendSignal { handle },
            Action::JoinWorker,
            Action::Finish,
        ]
    );
    assert_eq!(c.phase, Phase::Finished);
    assert_eq!(c.handle, handle);
    assert_eq!(c.step(Event::Begin), Action::Idle);
}

#[test]
fn condvar_controller_relays_after_mark() {
    let mut c = Controller::new(Strategy::CondVar, 0);
    let actions = drive(
        &mut c,
        &[
            Event::Begin,
            Event::Installed { ok: true },
            Event::Spawned,
            Event::SlotRead { value: 9 },
            Event::DelayElapsed,
            Event::SignalSent { code: 0 },
            Event::FiredRead { fired: false },
            Event::FiredRead { fired: true },
            Event::Notified,
            Event::Joined { ok: true },
        ],
    );
    assert_eq!(
        actions,
        vec![
            Action::InstallHandler,
            Action::SpawnWorker,
            Action::ReadSlot,
            Action::Sleep { ms: 0 },
            Action::SendSignal { handle: 9 },
            Action::ReadFired,
            Action::ReadFired,
            Action::NotifyWorker,
            Action::JoinWorker,
            Action::Finish,
        ]
    );
}

#[test]
fn install_failure_aborts() {
    let mut c = Controller::new(Strategy::Barrier, READINESS_DELAY_MS);
    let a = drive(&mut c, &[Event::Begin, Event::Installed { ok: false }, Event::Spawned]);
    assert_eq!(a[1], Action::Abort { fault: Fault::InstallFailed });
    assert_eq!(a[2], Action::Idle);
    assert_eq!(c.phase, Phase::Aborted(Fault::InstallFailed));
}

#[test]
fn dispatch_failure_aborts() {
    let mut c = Controller::new(Strategy::Futex, READINESS_DELAY_MS);
    let a = drive(
        &mut c,
        &[
            Event::Begin,
            Event::Installed { ok: true },
            Event::Spawned,
            Event::SlotRead { value: 5 },
            Event::DelayElapsed,
            Event::SignalSent { code: 3 },
        ],
    );
    assert_eq!(a[5], Action::Abort { fault: Fault::DispatchFailed });
}

#[test]
fn join_failure_aborts() {
    let mut c = Controller::new(Strategy::AtomicSpin, READINESS_DELAY_MS);
    let a = drive(
        &mut c,
        &[
            Event::Begin,
            Event::Installed { ok: true },
            Event::Spawned,
            Event::SlotRead { value: 5 },
            Event::DelayElapsed,
            Event::SignalSent { code: 0 },
            Event::Joined { ok: false },
        ],
    );
    assert_eq!(a[5], Action::JoinWorker);
    assert_eq!(a[6], Action::Abort { fault: Fault::JoinFailed });
}

#[test]
fn out_of_order_event_aborts() {
    let mut c = Controller::new(Strategy::Futex, READINESS_DELAY_MS);
    assert_eq!(c.step(Event::DelayElapsed), Action::Abort { fault: Fault::OutOfOrder });
    assert_eq!(c.phase, Phase::Aborted(Fault::OutOfOrder));
}

fn run_moves(strategy: Strategy, moves: &[Move]) -> ReleaseState {
    let mut s = ReleaseState::new(strategy);
    for m in moves {
        s.apply(*m);
    }
    s
}

#[test]
fn every_interleaving_releases_once() {
    let orders: [[Move; 3]; 3] = [
        [Move::Wait, Move::Signal, Move::Relay],
        [Move::Signal, Move::Wait, Move::Relay],
        [Move::Signal, Move::Relay, Move::Wait],
    ];
    for strategy in ALL {
        let reference = run_moves(strategy, &orders[0]);
        for order in orders.iter() {
            let s = run_moves(strategy, order);
            assert_eq!(s.worker, WorkerPhase::Released);
            assert_eq!(s.releases, 1);
            assert_eq!(s, reference);
        }
    }
}

#[test]
fn signal_storm_keeps_one_release() {
    let moves = [
        Move::Signal,
        Move::Signal,
        Move::Relay,
        Move::Wait,
        Move::Signal,
        Move::Relay,
        Move::Signal,
    ];
    for strategy in ALL {
        let s = run_moves(strategy, &moves);
        assert_eq!(s.releases, 1);
        assert_eq!(s.worker, WorkerPhase::Released);
        assert!(s.arrivals <= 2);
    }
}

#[test]
fn condvar_needs_relay_after_signal() {
    let s = run_moves(Strategy::CondVar, &[Move::Relay, Move::Wait, Move::Signal]);
    assert_eq!(s.worker, WorkerPhase::Parked);
    assert_eq!(s.releases, 0);
    let s = run_moves(Strategy::Futex, &[Move::Relay, Move::Wait, Move::Signal]);
    assert_eq!(s.worker, WorkerPhase::Released);
}
