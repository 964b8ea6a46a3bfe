//! The description of one call and of the logical operation it serves.

use vstd::prelude::*;

verus! {

/// How long the calling facility waits for a definitive outcome.
#[derive(Clone, Copy, Debug, PartialEq, Eq, Structural)]
pub enum WaitDiscipline {
    /// A response is guaranteed within the timeout, at the price of a
    /// possible execution-unknown outcome.
    Bounded { timeout_seconds: u32 },
    /// Waits for a definitive outcome, however long it takes.
    Unbounded,
}

impl WaitDiscipline {
    /// Whether an execution-unknown outcome can come under this discipline.
    pub fn may_leave_outcome_unknown(&self) -> (r: bool)
        ensures
            r == (*self is Bounded),
    {
        match self {
            WaitDiscipline::Bounded { .. } => true,
            WaitDiscipline::Unbounded => false,
        }
    }
}

/// One call as issued to the remote-call facility. It is never changed once
/// built: each retry issues this same attempt again, payload included.
#[derive(Clone, Debug)]
pub struct CallAttempt {
    target: Vec<u8>,
    operation: String,
    payload: Vec<u8>,
    wait: WaitDiscipline,
    budget: Option<u128>,
}

impl CallAttempt {
    pub closed spec fn spec_target(&self) -> Seq<u8> {
        self.target@
    }

    pub closed spec fn spec_operation(&self) -> Seq<char> {
        self.operation@
    }

    pub closed spec fn spec_payload(&self) -> Seq<u8> {
        self.payload@
    }

    pub closed spec fn spec_wait(&self) -> WaitDiscipline {
        self.wait
    }

    pub closed spec fn spec_budget(&self) -> Option<u128> {
        self.budget
    }

    pub fn new(
        target: Vec<u8>,
        operation: String,
        payload: Vec<u8>,
        wait: WaitDiscipline,
        budget: Option<u128>,
    ) -> (r: CallAttempt)
        ensures
            r.spec_target() == target@,
            r.spec_operation() == operation@,
            r.spec_payload() == payload@,
            r.spec_wait() == wait,
            r.spec_budget() == budget,
    {
        CallAttempt { target, operation, payload, wait, budget }
    }

    /// The identity of the called service.
    pub fn target(&self) -> (r: &Vec<u8>)
        ensures
            r@ == self.spec_target(),
    {
        &self.target
    }

    pub fn operation(&self) -> (r: &String)
        ensures
            r@ == self.spec_operation(),
    {
        &self.operation
    }

    /// The encoded argument, passed on unread.
    pub fn payload(&self) -> (r: &Vec<u8>)
        ensures
            r@ == self.spec_payload(),
    {
        &self.payload
    }

    pub fn wait(&self) -> (r: WaitDiscipline)
        ensures
            r == self.spec_wait(),
    {
        self.wait
    }

    /// The resource budget attached to each attempt, if any.
    pub fn budget(&self) -> (r: Option<u128>)
        ensures
            r == self.spec_budget(),
    {
        self.budget
    }
}

/// What the caller declares of one logical operation, shared by all its
/// attempts.
#[derive(Clone, Copy, Debug, PartialEq, Eq, Structural)]
pub struct OperationProfile {
    /// Running the operation twice leaves the same state as running it once.
    pub idempotent: bool,
    /// The instant, in nanoseconds, after which no attempt is issued.
    pub deadline: u64,
}

impl OperationProfile {
    pub fn new(idempotent: bool, deadline: u64) -> (r: OperationProfile)
        ensures
            r.idempotent == idempotent,
            r.deadline == deadline,
    {
        OperationProfile { idempotent, deadline }
    }
}

} // verus!
