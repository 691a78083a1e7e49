//! Outcomes of commands that entities apply at most once.
use vstd::prelude::*;

verus! {

/// A command either ran, with its result, or had already been applied and
/// changed nothing.
#[derive(Debug, Clone, Copy, PartialEq, Eq)]
pub enum Idempotent<T> {
    Executed(T),
    AlreadyApplied,
}

impl<T> Idempotent<T> {
    /// Whether the command ran.
    pub fn did_execute(&self) -> (r: bool)
        ensures
            r == (self is Executed),
    {
        match self {
            Idempotent::Executed(_) => true,
            Idempotent::AlreadyApplied => false,
        }
    }

    /// Whether the command had already been applied.
    pub fn was_already_applied(&self) -> (r: bool)
        ensures
            r == (self is AlreadyApplied),
    {
        match self {
            Idempotent::Executed(_) => false,
            Idempotent::AlreadyApplied => true,
        }
    }

    /// The result of a command that ran.
    pub fn unwrap(self) -> (r: T)
        requires
            self is Executed,
        ensures
            self == Idempotent::Executed(r),
    {
        match self {
            Idempotent::Executed(t) => t,
            Idempotent::AlreadyApplied => vstd::pervasive::unreached(),
        }
    }
}

/// An entity could not be rebuilt from its events: the event that creates
/// it is missing.
#[derive(Debug, Clone, Copy, PartialEq, Eq)]
pub enum HydrationError {
    MissingInitializedEvent,
}

} // verus!
