//! The registration coordinator, as two small state machines.
//!
//! Registering a monitor publishes the object locally, then tells the
//! remote manager about it, then hands the caller a handle. Tearing it
//! down — triggered solely by the handle being discarded — tells the
//! manager to unregister, then removes the local object, whatever the
//! remote call answered.
//!
//! The asynchronous runner performs each emitted action (a bus call, a
//! dispatch-table update) and feeds the resulting event back in; the
//! step functions here decide everything. The trace lemmas state the
//! ordering and exactly-once guarantees of any run.

use vstd::prelude::*;

verus! {

/// Where a registration attempt stands.
#[derive(Clone, Copy, Debug, PartialEq, Eq, Structural)]
pub enum RegPhase {
    /// The object is being published in the local dispatch table.
    Publishing,
    /// The remote manager is being told about the published object.
    Registering,
    /// The registration is complete and a handle is outstanding.
    Active,
    /// The remote call failed; the object stays published but orphaned.
    Failed,
}

/// What the runner must do next for a registration.
#[derive(Clone, Copy, Debug, PartialEq, Eq, Structural)]
pub enum RegAction {
    /// Publish the exported object in the local dispatch table.
    PublishObject,
    /// Call `Register` on the remote manager with the object's path.
    CallRegister,
    /// Hand the caller the lifecycle handle.
    HandOutHandle,
    /// Report the remote failure to the caller.
    ReportFailure,
}

/// What the runner observed while registering.
#[derive(Clone, Copy, Debug, PartialEq, Eq, Structural)]
pub enum RegEvent {
    /// The object now stands in the local dispatch table.
    Published,
    /// The remote `Register` call succeeded.
    RegisterOk,
    /// The remote `Register` call failed.
    RegisterFailed,
}

/// The first phase and action of every registration: publish first.
pub open spec fn spec_reg_start() -> (RegPhase, RegAction) {
    (RegPhase::Publishing, RegAction::PublishObject)
}

/// One decision step of the registration machine; `None` for an event
/// that cannot occur in the given phase.
pub open spec fn spec_reg_step(p: RegPhase, e: RegEvent) -> Option<(RegPhase, RegAction)> {
    match (p, e) {
        (RegPhase::Publishing, RegEvent::Published) => Option::Some(
            (RegPhase::Registering, RegAction::CallRegister),
        ),
        (RegPhase::Registering, RegEvent::RegisterOk) => Option::Some(
            (RegPhase::Active, RegAction::HandOutHandle),
        ),
        (RegPhase::Registering, RegEvent::RegisterFailed) => Option::Some(
            (RegPhase::Failed, RegAction::ReportFailure),
        ),
        _ => Option::None,
    }
}

/// Starts a registration: the object is published before anything
/// else.
pub fn reg_start() -> (r: (RegPhase, RegAction))
    ensures
        r == spec_reg_start(),
{
    (RegPhase::Publishing, RegAction::PublishObject)
}

/// Advances a registration by one observed event.
pub fn reg_step(p: RegPhase, e: RegEvent) -> (r: Option<(RegPhase, RegAction)>)
    ensures
        r == spec_reg_step(p, e),
{
    match (p, e) {
        (RegPhase::Publishing, RegEvent::Published) => Option::Some(
            (RegPhase::Registering, RegAction::CallRegister),
        ),
        (RegPhase::Registering, RegEvent::RegisterOk) => Option::Some(
            (RegPhase::Active, RegAction::HandOutHandle),
        ),
        (RegPhase::Registering, RegEvent::RegisterFailed) => Option::Some(
            (RegPhase::Failed, RegAction::ReportFailure),
        ),
        _ => Option::None,
    }
}

/// The actions a registration run emits from phase `p` under the
/// events `evs`, stopping at the first impossible event.
pub open spec fn reg_actions_from(p: RegPhase, evs: Seq<RegEvent>) -> Seq<RegAction>
    decreases evs.len(),
{
    if evs.len() == 0 {
        Seq::empty()
    } else {
        match spec_reg_step(p, evs[0]) {
            Option::Some(pa) => seq![pa.1] + reg_actions_from(pa.0, evs.drop_first()),
            Option::None => Seq::empty(),
        }
    }
}

/// All actions of a registration run: the initial publish, then
/// whatever the events dictate.
pub open spec fn reg_actions(evs: Seq<RegEvent>) -> Seq<RegAction> {
    seq![spec_reg_start().1] + reg_actions_from(spec_reg_start().0, evs)
}

/// Law: in every registration run, the local object is published
/// before the remote `Register` call is issued, so a request arriving
/// the instant after `Register` succeeds finds a live local object.
pub proof fn lemma_publish_precedes_register(evs: Seq<RegEvent>, i: int)
    requires
        0 <= i < reg_actions(evs).len(),
        reg_actions(evs)[i] == RegAction::CallRegister,
    ensures
        exists|j: int| 0 <= j < i && reg_actions(evs)[j] == RegAction::PublishObject,
{
    assert(reg_actions(evs)[0] == RegAction::PublishObject);
    assert(i != 0);
    assert(0 <= 0 < i && reg_actions(evs)[0] == RegAction::PublishObject);
}

/// Law: once a registration has settled — the handle handed out, or
/// the remote call failed — the machine takes no further step. In
/// particular a failed remote registration never retracts the
/// published object: the propagated error is the caller's only
/// signal.
pub proof fn lemma_settled_registration_takes_no_step(e: RegEvent)
    ensures
        spec_reg_step(RegPhase::Active, e) is None,
        spec_reg_step(RegPhase::Failed, e) is None,
{
}

/// Where a teardown stands.
#[derive(Clone, Copy, Debug, PartialEq, Eq, Structural)]
pub enum TearPhase {
    /// Waiting for the handle to be dropped.
    Waiting,
    /// The remote manager is being told to unregister.
    Unregistering,
    /// The local object is being removed from the dispatch table.
    Removing,
    /// The teardown is complete.
    Done,
}

/// What the teardown runner must do next.
#[derive(Clone, Copy, Debug, PartialEq, Eq, Structural)]
pub enum TearAction {
    /// Call `Unregister` on the remote manager with the object's path.
    CallUnregister,
    /// Remove the exported object from the local dispatch table.
    RemoveObject,
    /// Nothing is left to do.
    Finish,
}

/// What the teardown runner observed.
#[derive(Clone, Copy, Debug, PartialEq, Eq, Structural)]
pub enum TearEvent {
    /// The lifecycle handle was dropped.
    HandleDropped,
    /// The remote `Unregister` call succeeded.
    UnregisterOk,
    /// The remote `Unregister` call failed.
    UnregisterFailed,
    /// The local object was removed.
    ObjectRemoved,
}

/// One decision step of the teardown machine; `None` for an event that
/// cannot occur in the given phase. A failed remote unregistration is
/// tolerated: removal happens regardless, so the local object never
/// leaks.
pub open spec fn spec_tear_step(p: TearPhase, e: TearEvent) -> Option<(TearPhase, TearAction)> {
    match (p, e) {
        (TearPhase::Waiting, TearEvent::HandleDropped) => Option::Some(
            (TearPhase::Unregistering, TearAction::CallUnregister),
        ),
        (TearPhase::Unregistering, TearEvent::UnregisterOk) => Option::Some(
            (TearPhase::Removing, TearAction::RemoveObject),
        ),
        (TearPhase::Unregistering, TearEvent::UnregisterFailed) => Option::Some(
            (TearPhase::Removing, TearAction::RemoveObject),
        ),
        (TearPhase::Removing, TearEvent::ObjectRemoved) => Option::Some(
            (TearPhase::Done, TearAction::Finish),
        ),
        _ => Option::None,
    }
}

/// Advances a teardown by one observed event.
pub fn tear_step(p: TearPhase, e: TearEvent) -> (r: Option<(TearPhase, TearAction)>)
    ensures
        r == spec_tear_step(p, e),
{
    match (p, e) {
        (TearPhase::Waiting, TearEvent::HandleDropped) => Option::Some(
            (TearPhase::Unregistering, TearAction::CallUnregister),
        ),
        (TearPhase::Unregistering, TearEvent::UnregisterOk) => Option::Some(
            (TearPhase::Removing, TearAction::RemoveObject),
        ),
        (TearPhase::Unregistering, TearEvent::UnregisterFailed) => Option::Some(
            (TearPhase::Removing, TearAction::RemoveObject),
        ),
        (TearPhase::Removing, TearEvent::ObjectRemoved) => Option::Some(
            (TearPhase::Done, TearAction::Finish),
        ),
        _ => Option::None,
    }
}

/// The actions a teardown run emits from phase `p` under the events
/// `evs`, stopping at the first impossible event.
pub open spec fn tear_actions_from(p: TearPhase, evs: Seq<TearEvent>) -> Seq<TearAction>
    decreases evs.len(),
{
    if evs.len() == 0 {
        Seq::empty()
    } else {
        match spec_tear_step(p, evs[0]) {
            Option::Some(pa) => seq![pa.1] + tear_actions_from(pa.0, evs.drop_first()),
            Option::None => Seq::empty(),
        }
    }
}

/// All actions of a teardown run, which begins waiting for the handle.
pub open spec fn tear_actions(evs: Seq<TearEvent>) -> Seq<TearAction> {
    tear_actions_from(TearPhase::Waiting, evs)
}

/// Law: a failed remote unregistration still leads to local removal;
/// the teardown treats both outcomes of `Unregister` alike.
pub proof fn lemma_remove_regardless_of_unregister_outcome()
    ensures
        spec_tear_step(TearPhase::Unregistering, TearEvent::UnregisterOk) == Option::Some(
            (TearPhase::Removing, TearAction::RemoveObject),
        ),
        spec_tear_step(TearPhase::Unregistering, TearEvent::UnregisterFailed) == Option::Some(
            (TearPhase::Removing, TearAction::RemoveObject),
        ),
{
}

/// The predicate that picks out one action.
pub open spec fn action_eq(a: TearAction) -> spec_fn(TearAction) -> bool {
    |x: TearAction| x == a
}

/// How often an action occurs in a run.
pub open spec fn tear_count(acts: Seq<TearAction>, a: TearAction) -> int {
    acts.filter(action_eq(a)).len() as int
}

/// Filtering a sequence with one element in front keeps the front
/// element when the predicate holds of it, and then filters the rest.
proof fn lemma_filter_head<A>(x: A, rest: Seq<A>, pred: spec_fn(A) -> bool)
    ensures
        (seq![x] + rest).filter(pred).len() == (if pred(x) {
            1int
        } else {
            0int
        }) + rest.filter(pred).len(),
{
    reveal(Seq::filter);
    Seq::filter_distributes_over_add(seq![x], rest, pred);
    let single = seq![x];
    assert(single.drop_last() =~= Seq::<A>::empty());
    assert(Seq::<A>::empty().filter(pred).len() == 0);
    assert(single.last() == x);
    if pred(x) {
        assert(single.filter(pred).len() == 1);
    } else {
        assert(single.filter(pred).len() == 0);
    }
}

/// From any phase past waiting, a run never emits `CallUnregister`
/// again; from any phase at all it emits it at most once.
proof fn lemma_unregister_count_from(p: TearPhase, evs: Seq<TearEvent>)
    ensures
        tear_count(tear_actions_from(p, evs), TearAction::CallUnregister) <= 1,
        p != TearPhase::Waiting ==> tear_count(
            tear_actions_from(p, evs),
            TearAction::CallUnregister,
        ) == 0,
    decreases evs.len(),
{
    reveal(Seq::filter);
    if evs.len() == 0 {
    } else {
        match spec_tear_step(p, evs[0]) {
            Option::Some(pa) => {
                lemma_unregister_count_from(pa.0, evs.drop_first());
                let rest = tear_actions_from(pa.0, evs.drop_first());
                lemma_filter_head(pa.1, rest, action_eq(TearAction::CallUnregister));
            },
            Option::None => {},
        }
    }
}

/// Law: one teardown run issues the remote `Unregister` call at most
/// once, and exactly once as soon as the handle-drop signal has been
/// consumed.
pub proof fn lemma_unregister_at_most_once(evs: Seq<TearEvent>)
    ensures
        tear_count(tear_actions(evs), TearAction::CallUnregister) <= 1,
        evs.len() > 0 && evs[0] == TearEvent::HandleDropped ==> tear_count(
            tear_actions(evs),
            TearAction::CallUnregister,
        ) == 1,
{
    reveal(Seq::filter);
    lemma_unregister_count_from(TearPhase::Waiting, evs);
    if evs.len() > 0 && evs[0] == TearEvent::HandleDropped {
        let rest = tear_actions_from(TearPhase::Unregistering, evs.drop_first());
        lemma_unregister_count_from(TearPhase::Unregistering, evs.drop_first());
        lemma_filter_head(TearAction::CallUnregister, rest, action_eq(TearAction::CallUnregister));
    }
}

/// From the removing phase on, a run never emits `RemoveObject`
/// again; from any phase at all it emits it at most once.
proof fn lemma_remove_count_from(p: TearPhase, evs: Seq<TearEvent>)
    ensures
        tear_count(tear_actions_from(p, evs), TearAction::RemoveObject) <= 1,
        (p == TearPhase::Removing || p == TearPhase::Done) ==> tear_count(
            tear_actions_from(p, evs),
            TearAction::RemoveObject,
        ) == 0,
    decreases evs.len(),
{
    reveal(Seq::filter);
    if evs.len() == 0 {
    } else {
        match spec_tear_step(p, evs[0]) {
            Option::Some(pa) => {
                lemma_remove_count_from(pa.0, evs.drop_first());
                let rest = tear_actions_from(pa.0, evs.drop_first());
                lemma_filter_head(pa.1, rest, action_eq(TearAction::RemoveObject));
            },
            Option::None => {},
        }
    }
}

/// Law: one teardown run removes the local object at most once, and
/// exactly once when the run has gone through drop signal, remote
/// answer and removal.
pub proof fn lemma_remove_exactly_once(evs: Seq<TearEvent>)
    ensures
        tear_count(tear_actions(evs), TearAction::RemoveObject) <= 1,
        evs.len() >= 2 && evs[0] == TearEvent::HandleDropped && (evs[1]
            == TearEvent::UnregisterOk || evs[1] == TearEvent::UnregisterFailed) ==> tear_count(
            tear_actions(evs),
            TearAction::RemoveObject,
        ) == 1,
{
    reveal(Seq::filter);
    lemma_remove_count_from(TearPhase::Waiting, evs);
    if evs.len() >= 2 && evs[0] == TearEvent::HandleDropped && (evs[1] == TearEvent::UnregisterOk
        || evs[1] == TearEvent::UnregisterFailed) {
        let evs1 = evs.drop_first();
        let evs2 = evs1.drop_first();
        let rest2 = tear_actions_from(TearPhase::Removing, evs2);
        lemma_remove_count_from(TearPhase::Removing, evs2);
        assert(evs1[0] == evs[1]);
        lemma_filter_head(TearAction::RemoveObject, rest2, action_eq(TearAction::RemoveObject));
        let rest1 = tear_actions_from(TearPhase::Unregistering, evs1);
        assert(rest1 =~= seq![TearAction::RemoveObject] + rest2);
        lemma_filter_head(TearAction::CallUnregister, rest1, action_eq(TearAction::RemoveObject));
    }
}

/// Law: a run that saw the drop signal, the remote answer and the
/// local removal emits exactly one `Unregister` call, one removal and
/// one finish, in that order — whichever way the remote call went.
pub proof fn lemma_complete_teardown_actions(evs: Seq<TearEvent>)
    requires
        evs.len() == 3,
        evs[0] == TearEvent::HandleDropped,
        evs[1] == TearEvent::UnregisterOk || evs[1] == TearEvent::UnregisterFailed,
        evs[2] == TearEvent::ObjectRemoved,
    ensures
        tear_actions(evs) =~= seq![
            TearAction::CallUnregister,
            TearAction::RemoveObject,
            TearAction::Finish,
        ],
{
    let e1 = evs.drop_first();
    let e2 = e1.drop_first();
    let e3 = e2.drop_first();
    assert(e1[0] == evs[1] && e2[0] == evs[2]);
    assert(e3.len() == 0);
    assert(tear_actions_from(TearPhase::Done, e3) =~= Seq::<TearAction>::empty());
    assert(tear_actions_from(TearPhase::Removing, e2) =~= seq![TearAction::Finish]);
    assert(tear_actions_from(TearPhase::Unregistering, e1) =~= seq![
        TearAction::RemoveObject,
        TearAction::Finish,
    ]);
    assert(tear_actions(evs) =~= seq![
        TearAction::CallUnregister,
        TearAction::RemoveObject,
        TearAction::Finish,
    ]);
}

/// Law: in every teardown run, the remote `Unregister` call is issued
/// before the local object is removed.
pub proof fn lemma_unregister_precedes_remove(evs: Seq<TearEvent>, i: int)
    requires
        0 <= i < tear_actions(evs).len(),
        tear_actions(evs)[i] == TearAction::RemoveObject,
    ensures
        exists|j: int| 0 <= j < i && tear_actions(evs)[j] == TearAction::CallUnregister,
{
    let acts = tear_actions(evs);
    assert(evs.len() > 0);
    match spec_tear_step(TearPhase::Waiting, evs[0]) {
        Option::Some(pa) => {
            assert(pa.1 == TearAction::CallUnregister);
            assert(acts[0] == TearAction::CallUnregister);
            assert(i != 0);
            assert(0 <= 0 < i && acts[0] == TearAction::CallUnregister);
        },
        Option::None => {
            assert(acts.len() == 0);
        },
    }
}

} // verus!
