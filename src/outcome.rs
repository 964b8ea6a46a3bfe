//! Raw outcomes of one call attempt and their classification.

use vstd::prelude::*;

verus! {

/// Why the calling system or the remote side refused a call.
#[derive(Clone, Copy, Debug, PartialEq, Eq, Structural)]
pub enum RejectCode {
    /// The target is malformed or the facility is permanently broken.
    Fatal,
    /// The local system lacks the resources to even accept the call.
    ResourceExhausted,
    /// A transient condition prevented the call from running.
    Transient,
    /// The remote side explicitly refused the call before any effect.
    RemoteRefusal,
}

/// What one call attempt produced.
#[derive(Clone, Debug)]
pub enum RawOutcome {
    /// The remote side produced a response.
    Delivered(Vec<u8>),
    /// The call was refused; `synchronous` tells whether it never left the
    /// local boundary.
    Rejected { code: RejectCode, synchronous: bool, message: String },
    /// A response arrived but could not be interpreted.
    DecodeFailed(String),
    /// The remote side trapped while handling the request.
    CalleeFaulted(String),
    /// The local system stopped waiting; whether the call ran is unknown.
    /// The text is the facility's own note on why it stopped.
    ExecutionUnknown(String),
}

/// Classification of a failed attempt.
#[derive(Clone, Copy, Debug, PartialEq, Eq, Structural)]
pub enum FailureKind {
    Fatal,
    SyncTransient,
    AsyncTransient,
    CalleeError,
    DecodeFailure,
    ExecutionUnknown,
}

/// The failure kind of an outcome; `None` for a delivered response, which
/// is not a failure.
pub open spec fn kind_of(o: RawOutcome) -> Option<FailureKind> {
    match o {
        RawOutcome::Delivered(_) => None,
        RawOutcome::Rejected { code, synchronous, .. } => Some(
            match code {
                RejectCode::Fatal => FailureKind::Fatal,
                RejectCode::RemoteRefusal => FailureKind::CalleeError,
                RejectCode::ResourceExhausted | RejectCode::Transient => {
                    if synchronous {
                        FailureKind::SyncTransient
                    } else {
                        FailureKind::AsyncTransient
                    }
                },
            },
        ),
        RawOutcome::DecodeFailed(_) => Some(FailureKind::DecodeFailure),
        RawOutcome::CalleeFaulted(_) => Some(FailureKind::CalleeError),
        RawOutcome::ExecutionUnknown(_) => Some(FailureKind::ExecutionUnknown),
    }
}

/// The outcome proves that the remote side did not perform the call.
pub open spec fn proves_not_executed(o: RawOutcome) -> bool {
    o is Rejected
}

/// The diagnostic text that a failed outcome carries.
pub open spec fn message_of(o: RawOutcome) -> String
    recommends
        !(o is Delivered),
{
    match o {
        RawOutcome::Rejected { message, .. } => message,
        RawOutcome::DecodeFailed(m) => m,
        RawOutcome::CalleeFaulted(m) => m,
        RawOutcome::ExecutionUnknown(m) => m,
        RawOutcome::Delivered(_) => arbitrary(),
    }
}

impl FailureKind {
    /// Kinds whose very classification shows that nothing ran remotely.
    pub open spec fn spec_rules_out_execution(self) -> bool {
        self is Fatal || self is SyncTransient || self is AsyncTransient
    }

    /// Kinds for which another attempt may plausibly give another result.
    pub open spec fn spec_transient(self) -> bool {
        self is SyncTransient || self is AsyncTransient || self is ExecutionUnknown
    }

    /// Whether this kind alone shows that the remote side did not execute.
    pub fn rules_out_execution(&self) -> (r: bool)
        ensures
            r == self.spec_rules_out_execution(),
    {
        match self {
            FailureKind::Fatal | FailureKind::SyncTransient | FailureKind::AsyncTransient => true,
            _ => false,
        }
    }

    /// Whether a later attempt may succeed where this one failed.
    pub fn is_transient(&self) -> (r: bool)
        ensures
            r == self.spec_transient(),
    {
        match self {
            FailureKind::SyncTransient | FailureKind::AsyncTransient
            | FailureKind::ExecutionUnknown => true,
            _ => false,
        }
    }
}

impl RawOutcome {
    /// Maps an outcome to its failure kind; a delivered response gives `None`.
    pub fn classify(&self) -> (r: Option<FailureKind>)
        ensures
            r == kind_of(*self),
    {
        match self {
            RawOutcome::Delivered(_) => None,
            RawOutcome::Rejected { code, synchronous, .. } => Some(
                match code {
                    RejectCode::Fatal => FailureKind::Fatal,
                    RejectCode::RemoteRefusal => FailureKind::CalleeError,
                    RejectCode::ResourceExhausted | RejectCode::Transient => {
                        if *synchronous {
                            FailureKind::SyncTransient
                        } else {
                            FailureKind::AsyncTransient
                        }
                    },
                },
            ),
            RawOutcome::DecodeFailed(_) => Some(FailureKind::DecodeFailure),
            RawOutcome::CalleeFaulted(_) => Some(FailureKind::CalleeError),
            RawOutcome::ExecutionUnknown(_) => Some(FailureKind::ExecutionUnknown),
        }
    }

    /// Whether an attached resource budget comes back: only where the
    /// outcome proves that the call did not run.
    pub fn refunds_budget(&self) -> (r: bool)
        ensures
            r == proves_not_executed(*self),
    {
        match self {
            RawOutcome::Rejected { .. } => true,
            _ => false,
        }
    }
}

/// Classification is a function of the outcome alone: equal outcomes get the
/// same kind, and every outcome but a delivered response gets one.
pub proof fn lemma_classify_total_deterministic(a: RawOutcome, b: RawOutcome)
    requires
        a == b,
    ensures
        kind_of(a) == kind_of(b),
        kind_of(a) is Some <==> !(a is Delivered),
{
}

/// A kind that rules out execution is only ever given to an outcome that
/// proves non-execution; in particular an asynchronous transient rejection
/// never ran remotely.
pub proof fn lemma_kind_rules_out_execution(o: RawOutcome)
    requires
        kind_of(o) is Some,
        kind_of(o)->0.spec_rules_out_execution(),
    ensures
        proves_not_executed(o),
{
}

} // verus!
