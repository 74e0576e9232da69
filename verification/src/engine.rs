//! The concurrent target-acquisition engine.
//!
//! A round pits `W` workers against `T` targets.  Each worker walks the full
//! target list starting at its own rotation offset ([`rotation_order`]), so
//! that contention does not pile up on index 0 and every target is covered by
//! every worker ([`lemma_rotation_covers`]).  For each target the worker
//! checks the shared [`Registry`] first, issues a claim through a
//! [`Transport`] capability only while the target is unresolved, and applies
//! the classified outcome with [`apply_claim_event`] — the single place where
//! a response becomes a registry transition and a retry decision.
//!
//! The engine is agnostic to what a target is and to how claims travel; the
//! platform supplies the [`Transport`] (and a [`StatusSink`] for reporting)
//! and decides between one bounded round ([`run_round`]) and a continuous
//! mode, which is simply the caller re-running bounded passes while a
//! cancellation flag of its own stays set.

use vstd::prelude::*;

use crate::outcome::{
    classify, spec_classify, retry_decision, spec_retry_decision, Outcome, RetryDecision,
    TRANSPORT_BACKOFF_MS,
};
use crate::registry::{apply_transition, FailReason, Registry, TargetState};
use vstd::arithmetic::div_mod::{lemma_mod_multiples_vanish, lemma_small_mod};

verus! {

/// An acquirable unit, as the remote service needs to see it.
#[derive(Clone, Debug)]
pub struct Target {
    /// Stable identifier; the registry key.
    pub id: String,
    /// For reporting only.
    pub display_name: String,
    /// Opaque kind tag the remote claim endpoint requires.
    pub class_type: String,
    /// Opaque eligibility token the remote claim endpoint requires; may be empty.
    pub capacity_token: String,
}

/// The read-only credentials of one round.
#[derive(Clone, Debug)]
pub struct SessionContext {
    /// Opaque login credential.
    pub token: String,
    /// Opaque scope identifier for the batch being contested.
    pub batch_id: String,
}

/// What one claim call came back with.
#[derive(Clone, Debug)]
pub enum ClaimEvent {
    /// The service answered with an application code and message.
    Response { code: i64, msg: String },
    /// The call itself failed: connection error, timeout, malformed body.
    TransportFailure,
}

/// The registry effect an outcome asks for.
#[derive(Clone, Copy, PartialEq, Eq, Structural, Debug)]
pub enum StateChange {
    /// Mark the target acquired.
    ToDone,
    /// Give the target up for this round.
    ToFailed(FailReason),
    /// Leave the target as it is.
    NoChange,
}

/// Issues claim calls against the remote service, and waits out backoffs.
/// Platform adapters implement this; nothing is assumed about what a claim
/// returns, so everything proved about the engine holds for every transport.
pub trait Transport {
    /// Attempt to claim `target` under `session`, reporting whatever the
    /// service (or the connection) had to say.
    fn claim(&mut self, target: &Target, session: &SessionContext) -> ClaimEvent;

    /// Wait `millis` milliseconds before the next attempt.
    fn backoff(&mut self, millis: u64);
}

/// Receives state-transition notifications for reporting or UI purposes.
/// The engine notifies exactly once per winning transition.
pub trait StatusSink {
    /// The target just moved to `state`.
    fn notify(&mut self, target: &Target, state: TargetState);
}

/// The outcome a claim event classifies to: responses go through the
/// response table, transport failures are their own outcome.
pub open spec fn spec_classify_event(event: ClaimEvent) -> Outcome {
    match event {
        ClaimEvent::Response { code, msg } => spec_classify(code as int, msg@),
        ClaimEvent::TransportFailure => Outcome::TransportError,
    }
}

/// Executable form of [`spec_classify_event`].
pub fn classify_event(event: &ClaimEvent) -> (outcome: Outcome)
    ensures
        outcome == spec_classify_event(*event),
{
    match event {
        ClaimEvent::Response { code, msg } => classify(*code, msg.as_str()),
        ClaimEvent::TransportFailure => Outcome::TransportError,
    }
}

/// The registry effect of an outcome: success and already-held both mean the
/// target is ours; an expired credential always gives the target up; a full
/// target is given up only when the policy says not to keep trying.
pub open spec fn spec_state_change(outcome: Outcome, keep_trying_when_full: bool) -> StateChange {
    match outcome {
        Outcome::Success => StateChange::ToDone,
        Outcome::AlreadyDone => StateChange::ToDone,
        Outcome::Unauthorized => StateChange::ToFailed(FailReason::Unauthorized),
        Outcome::CapacityFull => if keep_trying_when_full {
            StateChange::NoChange
        } else {
            StateChange::ToFailed(FailReason::CapacityFull)
        },
        Outcome::NotStarted => StateChange::NoChange,
        Outcome::ValidationError => StateChange::NoChange,
        Outcome::Unknown => StateChange::NoChange,
        Outcome::TransportError => StateChange::NoChange,
    }
}

/// Executable form of [`spec_state_change`].
pub fn state_change(outcome: &Outcome, keep_trying_when_full: bool) -> (change: StateChange)
    ensures
        change == spec_state_change(*outcome, keep_trying_when_full),
{
    match outcome {
        Outcome::Success => StateChange::ToDone,
        Outcome::AlreadyDone => StateChange::ToDone,
        Outcome::Unauthorized => StateChange::ToFailed(FailReason::Unauthorized),
        Outcome::CapacityFull => if keep_trying_when_full {
            StateChange::NoChange
        } else {
            StateChange::ToFailed(FailReason::CapacityFull)
        },
        Outcome::NotStarted => StateChange::NoChange,
        Outcome::ValidationError => StateChange::NoChange,
        Outcome::Unknown => StateChange::NoChange,
        Outcome::TransportError => StateChange::NoChange,
    }
}

/// The registry states after asking for a state change on target `i`.
pub open spec fn spec_apply_change(
    states: Seq<TargetState>,
    i: int,
    change: StateChange,
) -> Seq<TargetState> {
    match change {
        StateChange::ToDone => apply_transition(states, i, TargetState::Done),
        StateChange::ToFailed(reason) => apply_transition(states, i, TargetState::Failed(reason)),
        StateChange::NoChange => states,
    }
}

/// Apply one classified claim event for the target at `index`: classify the
/// event, let the outcome's state change go through the registry's
/// check-and-set, and say how the worker goes on.
///
/// Returns `(decision, transitioned)`.  `decision` is `Stop` when the target
/// was already terminal (some other worker settled it; skip it without side
/// effects), otherwise the outcome's own retry decision.  `transitioned`
/// says whether this call changed the registry — the caller's licence for
/// one success side effect, fired at most once per target.
pub fn apply_claim_event(
    reg: &mut Registry,
    index: usize,
    event: &ClaimEvent,
    keep_trying_when_full: bool,
) -> (step: (RetryDecision, bool))
    requires
        old(reg).wf(),
        index < old(reg)@.len(),
    ensures
        final(reg).wf(),
        final(reg).ids() == old(reg).ids(),
        final(reg)@.len() == old(reg)@.len(),
        final(reg)@ == spec_apply_change(
            old(reg)@,
            index as int,
            spec_state_change(spec_classify_event(*event), keep_trying_when_full),
        ),
        step.0 == if old(reg)@[index as int].is_terminal() {
            RetryDecision::Stop
        } else {
            spec_retry_decision(spec_classify_event(*event), keep_trying_when_full)
        },
        step.1 == (final(reg)@[index as int] != old(reg)@[index as int]),
        step.1 ==> final(reg)@[index as int].is_terminal(),
{
    let current = reg.get(index);
    if current.terminal() {
        return (RetryDecision::Stop, false);
    }
    let outcome = classify_event(event);
    let change = state_change(&outcome, keep_trying_when_full);
    let transitioned = match change {
        StateChange::ToDone => reg.try_transition(index, TargetState::Done),
        StateChange::ToFailed(reason) => reg.try_transition(index, TargetState::Failed(reason)),
        StateChange::NoChange => false,
    };
    (retry_decision(&outcome, keep_trying_when_full), transitioned)
}

/// The target index a worker with rotation offset `offset` visits at step `k`
/// of its pass over `t` targets.
pub open spec fn rotation_slot(t: int, offset: int, k: int) -> int {
    (offset + k) % t
}

/// The order in which one worker walks the targets: the full list, rotated
/// by `worker_index mod target_count` so distinct workers start at distinct
/// targets.
pub fn rotation_order(target_count: usize, worker_index: usize) -> (order: Vec<usize>)
    requires
        target_count > 0,
    ensures
        order@.len() == target_count,
        forall|k: int|
            0 <= k < target_count ==> (#[trigger] order@[k]) as int == rotation_slot(
                target_count as int,
                (worker_index as int) % (target_count as int),
                k,
            ),
        forall|k: int| 0 <= k < target_count ==> (#[trigger] order@[k]) < target_count,
{
    let t = target_count;
    let offset = worker_index % t;
    let mut order: Vec<usize> = Vec::new();
    let mut k: usize = 0;
    while k < t
        invariant
            0 < t,
            offset < t,
            offset as int == (worker_index as int) % (t as int),
            k <= t,
            order@.len() == k,
            forall|j: int|
                0 <= j < k ==> (#[trigger] order@[j]) as int == rotation_slot(
                    t as int,
                    offset as int,
                    j,
                ) && order@[j] < t,
        decreases t - k,
    {
        let index = if k < t - offset {
            offset + k
        } else {
            k - (t - offset)
        };
        proof {
            if k < t - offset {
                lemma_small_mod((offset + k) as nat, t as nat);
            } else {
                lemma_mod_multiples_vanish(1, offset + k - t, t as int);
                lemma_small_mod((offset + k - t) as nat, t as nat);
            }
            assert(index as int == rotation_slot(t as int, offset as int, k as int));
        }
        order.push(index);
        k = k + 1;
    }
    order
}

/// Round completeness: a rotation of `t` targets visits every target `j` at
/// some step of the pass.  Each worker's pass therefore covers the whole
/// list, whatever its offset, and with any number of workers every target is
/// visited at least once per bounded round.
pub proof fn lemma_rotation_covers(t: int, offset: int, j: int)
    requires
        0 < t,
        0 <= offset < t,
        0 <= j < t,
    ensures
        exists|k: int| 0 <= k < t && #[trigger] rotation_slot(t, offset, k) == j,
{
    let k = if j >= offset {
        j - offset
    } else {
        j + t - offset
    };
    if j >= offset {
        lemma_small_mod(j as nat, t as nat);
    } else {
        lemma_mod_multiples_vanish(1, j, t);
        lemma_small_mod(j as nat, t as nat);
    }
    assert(rotation_slot(t, offset, k) == j);
}

/// One bounded pass of one worker: walk the rotated target list once; for
/// each target, claim and apply outcomes until the target is settled, the
/// outcome says to move on, or `attempt_budget` iterations are spent on it.
/// Unresolved targets simply stay `Waiting` for a later round.
///
/// Whatever the transport answers: targets that were terminal stay exactly
/// as they were, and every change the pass makes is to a terminal state.
pub fn run_worker_pass<T: Transport, S: StatusSink>(
    transport: &mut T,
    sink: &mut S,
    reg: &mut Registry,
    targets: &Vec<Target>,
    session: &SessionContext,
    worker_index: usize,
    keep_trying_when_full: bool,
    attempt_budget: usize,
)
    requires
        old(reg).wf(),
        targets@.len() == old(reg)@.len(),
        targets@.len() > 0,
    ensures
        final(reg).wf(),
        final(reg).ids() == old(reg).ids(),
        final(reg)@.len() == old(reg)@.len(),
        forall|i: int|
            0 <= i < old(reg)@.len() && (#[trigger] old(reg)@[i]).is_terminal()
                ==> final(reg)@[i] == old(reg)@[i],
        forall|i: int|
            0 <= i < old(reg)@.len() && (#[trigger] final(reg)@[i]) != old(reg)@[i]
                ==> final(reg)@[i].is_terminal(),
{
    let t = targets.len();
    let order = rotation_order(t, worker_index);
    let mut k: usize = 0;
    while k < t
        invariant
            reg.wf(),
            reg.ids() == old(reg).ids(),
            reg@.len() == old(reg)@.len(),
            t == targets@.len(),
            t == reg@.len(),
            k <= t,
            order@.len() == t,
            forall|j: int| 0 <= j < t ==> (#[trigger] order@[j]) < t,
            forall|i: int|
                0 <= i < old(reg)@.len() && (#[trigger] old(reg)@[i]).is_terminal() ==> reg@[i]
                    == old(reg)@[i],
            forall|i: int|
                0 <= i < old(reg)@.len() && (#[trigger] reg@[i]) != old(reg)@[i]
                    ==> reg@[i].is_terminal(),
        decreases t - k,
    {
        let index = order[k];
        let mut attempts: usize = 0;
        let mut settled = false;
        while !settled && attempts < attempt_budget
            invariant
                reg.wf(),
                reg.ids() == old(reg).ids(),
                reg@.len() == old(reg)@.len(),
                t == targets@.len(),
                t == reg@.len(),
                index < t,
                attempts <= attempt_budget,
                forall|i: int|
                    0 <= i < old(reg)@.len() && (#[trigger] old(reg)@[i]).is_terminal() ==> reg@[i]
                        == old(reg)@[i],
                forall|i: int|
                    0 <= i < old(reg)@.len() && (#[trigger] reg@[i]) != old(reg)@[i]
                        ==> reg@[i].is_terminal(),
            decreases attempt_budget - attempts,
        {
            attempts = attempts + 1;
            if reg.get(index).terminal() {
                settled = true;
            } else {
                let event = transport.claim(&targets[index], session);
                let step = apply_claim_event(reg, index, &event, keep_trying_when_full);
                if step.1 {
                    sink.notify(&targets[index], reg.get(index));
                }
                match step.0 {
                    RetryDecision::Stop => {
                        settled = true;
                    },
                    RetryDecision::RetryNow => {},
                    RetryDecision::RetryAfterBackoff => {
                        transport.backoff(TRANSPORT_BACKOFF_MS);
                    },
                }
            }
        }
        k = k + 1;
    }
}

/// Run exactly one round: seed a fresh registry with every target `Waiting`,
/// let `worker_count` workers each make one bounded pass at their own
/// rotation offsets, and hand back the `(id, state)` snapshot.  The caller
/// reads the snapshot and decides whether to run another round for targets
/// still `Waiting`.
pub fn run_round<T: Transport, S: StatusSink>(
    transport: &mut T,
    sink: &mut S,
    targets: &Vec<Target>,
    session: &SessionContext,
    worker_count: usize,
    keep_trying_when_full: bool,
    attempt_budget: usize,
) -> (snap: Vec<(String, TargetState)>)
    ensures
        snap@.len() == targets@.len(),
        forall|i: int| 0 <= i < snap@.len() ==> (#[trigger] snap@[i]).0@ == targets@[i].id@,
{
    let t = targets.len();
    if t == 0 {
        return Vec::new();
    }
    let mut ids: Vec<String> = Vec::new();
    let mut j: usize = 0;
    while j < t
        invariant
            t == targets@.len(),
            j <= t,
            ids@.len() == j,
            forall|i: int| 0 <= i < j ==> (#[trigger] ids@[i])@ == targets@[i].id@,
        decreases t - j,
    {
        ids.push(targets[j].id.clone());
        j = j + 1;
    }
    let mut reg = Registry::new(ids);
    let mut w: usize = 0;
    while w < worker_count
        invariant
            reg.wf(),
            t == targets@.len(),
            0 < t,
            reg@.len() == t,
            reg.ids().len() == t,
            forall|i: int| 0 <= i < t ==> (#[trigger] reg.ids()[i]) == targets@[i].id@,
        decreases worker_count - w,
    {
        run_worker_pass(
            transport,
            sink,
            &mut reg,
            targets,
            session,
            w,
            keep_trying_when_full,
            attempt_budget,
        );
        w = w + 1;
    }
    reg.snapshot()
}

} // verus!
