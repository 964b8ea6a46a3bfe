//! A decision layer for remote calls that may fail ambiguously.
//!
//! Every failed attempt is classified into a closed set of failure kinds,
//! a pure policy decides whether to retry now, defer to a background
//! scheduler, or give up, and a step-driven state machine strings the
//! attempts of one logical operation together until a terminal result.
//! Performing the call itself is left to the embedding program, which feeds
//! each raw outcome back into the machine.

pub mod outcome;
pub mod policy;
pub mod deadline;
pub mod attempt;
pub mod caller;
pub mod signing;
