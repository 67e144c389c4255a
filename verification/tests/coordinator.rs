use bluez_monitor::coordinator::{
    reg_start, reg_step, tear_step, RegAction, RegEvent, RegPhase, TearAction, TearEvent,
    TearPhase,
};

#[test]
fn registration_publishes_before_remote_register() {
    // The very first action is the local publish; only the Published
    // event unlocks the remote Register call.
    let (p0, a0) = reg_start();
    assert_eq!(a0, RegAction::PublishObject);
    assert_eq!(p0, RegPhase::Publishing);
    let (p1, a1) = reg_step(p0, RegEvent::Published).unwrap();
    assert_eq!(a1, RegAction::CallRegister);
    assert_eq!(p1, RegPhase::Registering);
    let (p2, a2) = reg_step(p1, RegEvent::RegisterOk).unwrap();
    assert_eq!(a2, RegAction::HandOutHandle);
    assert_eq!(p2, RegPhase::Active);
}

#[test]
fn register_failure_is_reported_and_object_stays_published() {
    let (p0, _) = reg_start();
    let (p1, _) = reg_step(p0, RegEvent::Published).unwrap();
    let (p2, a2) = reg_step(p1, RegEvent::RegisterFailed).unwrap();
    assert_eq!(a2, RegAction::ReportFailure);
    assert_eq!(p2, RegPhase::Failed);
    // No further step retracts the published object.
    assert!(reg_step(p2, RegEvent::Published).is_none());
    assert!(reg_step(p2, RegEvent::RegisterOk).is_none());
    assert!(reg_step(p2, RegEvent::RegisterFailed).is_none());
}

#[test]
fn out_of_order_registration_events_are_impossible() {
    let (p0, _) = reg_start();
    // The remote call cannot be answered before the object is
    // published.
    assert!(reg_step(p0, RegEvent::RegisterOk).is_none());
    assert!(reg_step(p0, RegEvent::RegisterFailed).is_none());
}

#[test]
fn teardown_unregisters_then_removes() {
    let (p1, a1) = tear_step(TearPhase::Waiting, TearEvent::HandleDropped).unwrap();
    assert_eq!(a1, TearAction::CallUnregister);
    assert_eq!(p1, TearPhase::Unregistering);
    let (p2, a2) = tear_step(p1, TearEvent::UnregisterOk).unwrap();
    assert_eq!(a2, TearAction::RemoveObject);
    assert_eq!(p2, TearPhase::Removing);
    let (p3, a3) = tear_step(p2, TearEvent::ObjectRemoved).unwrap();
    assert_eq!(a3, TearAction::Finish);
    assert_eq!(p3, TearPhase::Done);
}

#[test]
fn failed_remote_unregister_still_removes_locally() {
    let (p1, _) = tear_step(TearPhase::Waiting, TearEvent::HandleDropped).unwrap();
    let (p2, a2) = tear_step(p1, TearEvent::UnregisterFailed).unwrap();
    assert_eq!(a2, TearAction::RemoveObject);
    assert_eq!(p2, TearPhase::Removing);
}

#[test]
fn teardown_fires_at_most_once() {
    let (p1, _) = tear_step(TearPhase::Waiting, TearEvent::HandleDropped).unwrap();
    // A second drop signal cannot happen: the machine refuses it in
    // every later phase.
    assert!(tear_step(p1, TearEvent::HandleDropped).is_none());
    let (p2, _) = tear_step(p1, TearEvent::UnregisterOk).unwrap();
    assert!(tear_step(p2, TearEvent::HandleDropped).is_none());
    let (p3, _) = tear_step(p2, TearEvent::ObjectRemoved).unwrap();
    assert!(tear_step(p3, TearEvent::HandleDropped).is_none());
    assert!(tear_step(p3, TearEvent::ObjectRemoved).is_none());
}

fn run_teardown(events: &[TearEvent]) -> Vec<TearAction> {
    let mut phase = TearPhase::Waiting;
    let mut actions = Vec::new();
    for e in events {
        match tear_step(phase, *e) {
            Some((p, a)) => {
                phase = p;
                actions.push(a);
            }
            None => break,
        }
    }
    actions
}

#[test]
fn dropping_one_of_two_handles_tears_down_only_that_monitor() {
    // Two independent registrations, each with its own teardown
    // machine. Only handle A is dropped.
    let a_events = [
        TearEvent::HandleDropped,
        TearEvent::UnregisterOk,
        TearEvent::ObjectRemoved,
    ];
    let a_actions = run_teardown(&a_events);
    let b_actions = run_teardown(&[]);
    assert_eq!(
        a_actions,
        vec![TearAction::CallUnregister, TearAction::RemoveObject, TearAction::Finish]
    );
    assert_eq!(
        a_actions.iter().filter(|a| **a == TearAction::CallUnregister).count(),
        1
    );
    assert_eq!(
        a_actions.iter().filter(|a| **a == TearAction::RemoveObject).count(),
        1
    );
    // Monitor B saw no drop: its teardown never acts, so B stays
    // published and servable.
    assert!(b_actions.is_empty());
}
