use vstd::prelude::*;

verus! {

/// The positions of a circuit breaker.
#[derive(Debug, Clone, Copy, PartialEq, Eq, Structural)]
pub enum CircuitBreakerState {
    Closed,
    Open,
    HalfOpen,
}

/// A circuit breaker that guards calls to a remote service. The service
/// ships no breaker of its own; implementors keep their state behind `&self`.
pub trait CircuitBreaker {
    fn get_state(&self) -> CircuitBreakerState;

    fn open(&self);

    fn close(&self);

    fn is_open(&self) -> bool;

    fn is_closed(&self) -> bool;

    fn is_half_open(&self) -> bool;

    /// Runs `f` under the breaker; a plain `fn() -> Result<T, E>` is one such `f`.
    fn execute<T, E, F: Fn() -> Result<T, E>>(&self, f: F) -> Result<T, E>;
}

} // verus!
