//! The attempt loop of one logical operation, as a step-driven state machine.
//!
//! The embedding program performs each attempt and hands its raw outcome to
//! [`ResilientCaller::on_outcome`]; the machine classifies it, consults the
//! policy against the deadline, and says whether to issue the same attempt
//! again.

use vstd::prelude::*;
use crate::attempt::{CallAttempt, OperationProfile};
use crate::deadline::DeadlineClock;
use crate::outcome::{kind_of, message_of, proves_not_executed, lemma_kind_rules_out_execution, FailureKind, RawOutcome};
use crate::policy::{decide, decision, stopped_by_deadline, Decision};

verus! {

/// Why a logical operation ended without success.
#[derive(Clone, Copy, Debug, PartialEq, Eq, Structural)]
pub enum StopReason {
    /// The failure is reported as it came; no retry could change it.
    GaveUp,
    /// A retry may succeed later, but not in a tight local loop: an outside
    /// scheduler should try again.
    Deferred,
    /// The deadline passed where a retry or a deferral was otherwise due.
    TimedOut,
}

/// The final error handed to the application.
#[derive(Clone, Debug)]
pub struct CallFailure {
    /// The kind of the last failed attempt.
    pub kind: FailureKind,
    pub reason: StopReason,
    /// The text of the last raw outcome.
    pub message: String,
    /// How many attempts were issued.
    pub attempts: u64,
    /// Whether a resource budget attached to the last attempt came back;
    /// only an outcome that proves non-execution returns it.
    pub budget_refunded: bool,
}

/// Where the attempt loop stands.
#[derive(Clone, Debug)]
pub enum CallerState {
    Idle,
    /// An attempt is in flight; its outcome is awaited.
    Executing,
    Succeeded(Vec<u8>),
    Failed(CallFailure),
    TimedOut(CallFailure),
}

/// The abstract state of a [`ResilientCaller`].
pub struct CallerModel {
    pub profile: OperationProfile,
    pub state: CallerState,
    pub attempts: u64,
}

/// The terminal state that a failure of `kind` leads to when it is not retried.
pub open spec fn stopped_state(
    kind: FailureKind,
    idempotent: bool,
    expired: bool,
    message: String,
    attempts: u64,
    budget_refunded: bool,
) -> CallerState {
    if decision(kind, idempotent, expired) == Decision::DeferExternally {
        CallerState::Failed(CallFailure { kind, reason: StopReason::Deferred, message, attempts, budget_refunded })
    } else if stopped_by_deadline(kind, idempotent, expired) {
        CallerState::TimedOut(CallFailure { kind, reason: StopReason::TimedOut, message, attempts, budget_refunded })
    } else {
        CallerState::Failed(CallFailure { kind, reason: StopReason::GaveUp, message, attempts, budget_refunded })
    }
}

impl CallerModel {
    /// The counter is zero exactly before the first attempt, and a terminal
    /// failure records that counter and a reason that matches its state.
    pub open spec fn wf(self) -> bool {
        &&& (self.state is Idle) == (self.attempts == 0)
        &&& match self.state {
            CallerState::Failed(f) => f.attempts == self.attempts && f.reason != StopReason::TimedOut,
            CallerState::TimedOut(f) => f.attempts == self.attempts && f.reason == StopReason::TimedOut,
            _ => true,
        }
    }

    /// The machine after the outcome of the attempt in flight, observed at
    /// `now`. Outside the executing state nothing changes.
    pub open spec fn after(self, o: RawOutcome, now: u64) -> CallerModel {
        if !(self.state is Executing) {
            self
        } else {
            match kind_of(o) {
                None => CallerModel { state: CallerState::Succeeded(o->Delivered_0), ..self },
                Some(kind) => {
                    let expired = now > self.profile.deadline;
                    if decision(kind, self.profile.idempotent, expired) == Decision::RetryNow {
                        CallerModel { attempts: (self.attempts + 1) as u64, ..self }
                    } else {
                        CallerModel {
                            state: stopped_state(
                                kind,
                                self.profile.idempotent,
                                expired,
                                message_of(o),
                                self.attempts,
                                proves_not_executed(o),
                            ),
                            ..self
                        }
                    }
                },
            }
        }
    }

    /// The machine after a sequence of outcomes, each with the time it was
    /// observed at.
    pub open spec fn run(self, events: Seq<(RawOutcome, u64)>) -> CallerModel
        decreases events.len(),
    {
        if events.len() == 0 {
            self
        } else {
            self.after(events[0].0, events[0].1).run(events.drop_first())
        }
    }
}

/// The attempt loop of one logical operation.
pub struct ResilientCaller {
    profile: OperationProfile,
    attempt: CallAttempt,
    state: CallerState,
    attempts: u64,
}

impl View for ResilientCaller {
    type V = CallerModel;

    closed spec fn view(&self) -> CallerModel {
        CallerModel { profile: self.profile, state: self.state, attempts: self.attempts }
    }
}

impl ResilientCaller {
    pub closed spec fn spec_attempt(&self) -> CallAttempt {
        self.attempt
    }

    /// A machine in the idle state for the given operation and attempt.
    pub fn new(profile: OperationProfile, attempt: CallAttempt) -> (r: ResilientCaller)
        ensures
            r@.profile == profile,
            r@.state is Idle,
            r@.attempts == 0,
            r@.wf(),
            r.spec_attempt() == attempt,
    {
        ResilientCaller { profile, attempt, state: CallerState::Idle, attempts: 0 }
    }

    /// Leaves the idle state by issuing the first attempt; returns whether it
    /// did. Outside the idle state nothing changes.
    pub fn start(&mut self) -> (r: bool)
        ensures
            r == (old(self)@.state is Idle),
            r ==> final(self)@ == (CallerModel { state: CallerState::Executing, attempts: 1, ..old(self)@ }),
            !r ==> final(self)@ == old(self)@,
            old(self)@.wf() ==> final(self)@.wf(),
            final(self).spec_attempt() == old(self).spec_attempt(),
    {
        match self.state {
            CallerState::Idle => {
                self.state = CallerState::Executing;
                self.attempts = 1;
                true
            },
            _ => false,
        }
    }

    /// Feeds the outcome of the attempt in flight, observed at `now`.
    /// Returns whether the same attempt is to be issued again.
    pub fn on_outcome(&mut self, outcome: RawOutcome, now: u64) -> (r: bool)
        requires
            old(self)@.attempts < u64::MAX,
        ensures
            final(self)@ == old(self)@.after(outcome, now),
            old(self)@.wf() ==> final(self)@.wf(),
            final(self).spec_attempt() == old(self).spec_attempt(),
            r == (final(self)@.state is Executing),
    {
        proof {
            if self@.wf() {
                lemma_after_preserves_wf(self@, outcome, now);
            }
        }
        match self.state {
            CallerState::Executing => {},
            _ => {
                return false;
            },
        }
        let kind = outcome.classify();
        let refunded = outcome.refunds_budget();
        match outcome {
            RawOutcome::Delivered(bytes) => {
                self.state = CallerState::Succeeded(bytes);
                false
            },
            RawOutcome::Rejected { message, .. }
            | RawOutcome::DecodeFailed(message)
            | RawOutcome::CalleeFaulted(message)
            | RawOutcome::ExecutionUnknown(message) => match kind {
                Some(k) => self.settle_failure(k, message, refunded, now),
                None => false,
            },
        }
    }

    fn settle_failure(&mut self, kind: FailureKind, message: String, refunded: bool, now: u64) -> (r: bool)
        requires
            old(self)@.state is Executing,
            old(self)@.attempts < u64::MAX,
        ensures
            ({
                let expired = now > old(self)@.profile.deadline;
                let idempotent = old(self)@.profile.idempotent;
                if decision(kind, idempotent, expired) == Decision::RetryNow {
                    final(self)@ == CallerModel { attempts: (old(self)@.attempts + 1) as u64, ..old(self)@ }
                } else {
                    final(self)@ == CallerModel {
                        state: stopped_state(kind, idempotent, expired, message, old(self)@.attempts, refunded),
                        ..old(self)@
                    }
                }
            }),
            final(self).spec_attempt() == old(self).spec_attempt(),
            r == (final(self)@.state is Executing),
    {
        let expired = DeadlineClock::at(self.profile.deadline).expired(now);
        let idempotent = self.profile.idempotent;
        let attempts = self.attempts;
        match decide(kind, idempotent, expired) {
            Decision::RetryNow => {
                self.attempts = attempts + 1;
                true
            },
            Decision::DeferExternally => {
                self.state = CallerState::Failed(
                    CallFailure { kind, reason: StopReason::Deferred, message, attempts, budget_refunded: refunded },
                );
                false
            },
            Decision::GiveUp => {
                let due = decide(kind, idempotent, false);
                if expired && due != Decision::GiveUp {
                    self.state = CallerState::TimedOut(
                        CallFailure { kind, reason: StopReason::TimedOut, message, attempts, budget_refunded: refunded },
                    );
                } else {
                    self.state = CallerState::Failed(
                        CallFailure { kind, reason: StopReason::GaveUp, message, attempts, budget_refunded: refunded },
                    );
                }
                false
            },
        }
    }

    /// Where the loop stands.
    pub fn state(&self) -> (r: &CallerState)
        ensures
            *r == self@.state,
    {
        &self.state
    }

    /// How many attempts have been issued.
    pub fn attempts(&self) -> (r: u64)
        ensures
            r == self@.attempts,
    {
        self.attempts
    }

    pub fn profile(&self) -> (r: OperationProfile)
        ensures
            r == self@.profile,
    {
        self.profile
    }

    /// The attempt to issue, the same for every retry.
    pub fn attempt(&self) -> (r: &CallAttempt)
        ensures
            *r == self.spec_attempt(),
    {
        &self.attempt
    }

    /// The final result once a terminal state is reached, `None` before.
    pub fn into_result(self) -> (r: Option<Result<Vec<u8>, CallFailure>>)
        ensures
            match self@.state {
                CallerState::Succeeded(bytes) => r == Some(Ok::<Vec<u8>, CallFailure>(bytes)),
                CallerState::Failed(f) => r == Some(Err::<Vec<u8>, CallFailure>(f)),
                CallerState::TimedOut(f) => r == Some(Err::<Vec<u8>, CallFailure>(f)),
                _ => r is None,
            },
    {
        match self.state {
            CallerState::Succeeded(bytes) => Some(Ok(bytes)),
            CallerState::Failed(f) => Some(Err(f)),
            CallerState::TimedOut(f) => Some(Err(f)),
            _ => None,
        }
    }
}

/// An outcome that the machine answers with an immediate retry: an
/// asynchronous transient rejection, or an execution-unknown failure of an
/// idempotent operation.
pub open spec fn retried_failure(o: RawOutcome, idempotent: bool) -> bool {
    ||| kind_of(o) == Some(FailureKind::AsyncTransient)
    ||| idempotent && kind_of(o) == Some(FailureKind::ExecutionUnknown)
}

/// Outside the executing state the machine ignores every outcome.
pub proof fn lemma_terminal_states_absorb(m: CallerModel, events: Seq<(RawOutcome, u64)>)
    requires
        !(m.state is Executing),
    ensures
        m.run(events) == m,
    decreases events.len(),
{
    if events.len() > 0 {
        lemma_terminal_states_absorb(m, events.drop_first());
    }
}

/// Every step keeps the machine well formed.
pub proof fn lemma_after_preserves_wf(m: CallerModel, o: RawOutcome, now: u64)
    requires
        m.wf(),
        m.attempts < u64::MAX,
    ensures
        m.after(o, now).wf(),
{
}

/// No attempt is issued once the deadline has passed at decision time.
pub proof fn lemma_no_attempt_after_deadline(m: CallerModel, o: RawOutcome, now: u64)
    requires
        m.state is Executing,
        now > m.profile.deadline,
    ensures
        !(m.after(o, now).state is Executing),
{
}

/// The retry loop ends: a run of immediately retried failures observed
/// before the deadline, followed by a delivered response, ends in success
/// with one attempt counted for each outcome.
pub proof fn lemma_retries_then_success(m: CallerModel, events: Seq<(RawOutcome, u64)>, bytes: Vec<u8>)
    requires
        m.state is Executing,
        events.len() >= 1,
        m.attempts + events.len() <= u64::MAX,
        forall|i: int|
            0 <= i < events.len() - 1 ==> retried_failure(#[trigger] events[i].0, m.profile.idempotent)
                && events[i].1 <= m.profile.deadline,
        events.last().0 == RawOutcome::Delivered(bytes),
    ensures
        m.run(events).state == CallerState::Succeeded(bytes),
        m.run(events).attempts == m.attempts + events.len() - 1,
    decreases events.len(),
{
    let next = m.after(events[0].0, events[0].1);
    if events.len() == 1 {
        lemma_terminal_states_absorb(next, events.drop_first());
    } else {
        assert(retried_failure(events[0].0, m.profile.idempotent));
        assert(next.profile == m.profile && next.state is Executing);
        let rest = events.drop_first();
        assert forall|i: int| 0 <= i < rest.len() - 1 implies retried_failure(#[trigger] rest[i].0, next.profile.idempotent)
            && rest[i].1 <= next.profile.deadline by {
            assert(rest[i] == events[i + 1]);
            assert(retried_failure(events[i + 1].0, m.profile.idempotent));
        }
        assert(rest.last() == events.last());
        lemma_retries_then_success(next, rest, bytes);
    }
}

/// Retrying never duplicates the effect of a non-idempotent operation: while
/// its machine keeps issuing attempts, every outcome it was fed proves that
/// the remote side did not execute, so at most the attempt in flight can
/// take effect.
pub proof fn lemma_non_idempotent_retries_never_duplicate(m: CallerModel, events: Seq<(RawOutcome, u64)>)
    requires
        m.state is Executing,
        !m.profile.idempotent,
        m.run(events).state is Executing,
    ensures
        forall|i: int| 0 <= i < events.len() ==> proves_not_executed(#[trigger] events[i].0),
    decreases events.len(),
{
    if events.len() > 0 {
        let next = m.after(events[0].0, events[0].1);
        let rest = events.drop_first();
        if !(next.state is Executing) {
            lemma_terminal_states_absorb(next, rest);
        }
        lemma_kind_rules_out_execution(events[0].0);
        lemma_non_idempotent_retries_never_duplicate(next, rest);
        assert forall|i: int| 0 <= i < events.len() implies proves_not_executed(#[trigger] events[i].0) by {
            if i > 0 {
                assert(events[i] == rest[i - 1]);
            }
        }
    }
}

} // verus!
