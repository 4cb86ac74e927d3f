//! Handles of what all connections of a server share.
use async_speed_limit::Limiter;
use std::sync::{Arc, Mutex};
use vstd::prelude::*;

use crate::stats::{Response, Stats};

verus! {

/// A handle of a limiter, `async_speed_limit::Limiter`, at its standard clock.
/// Two handles are equal when they draw on one limiter; the bytes that it has
/// let through so far are no part of that.
#[verifier::external_body]
#[derive(Debug)]
pub struct SharedLimiter(pub Limiter);

impl Clone for SharedLimiter {
    /// `<Limiter as Clone>::clone` returns a handle of the same limiter: what one
    /// consumes, the other cannot.
    #[verifier::external_body]
    fn clone(&self) -> (handle: SharedLimiter)
        ensures
            handle == *self,
    {
        SharedLimiter(self.0.clone())
    }
}

/// `std::sync::Mutex`. As a value it stands for the one mutex that it is; what it
/// holds changes as its handles are used, and is no part of that.
#[verifier::external_type_specification]
#[verifier::external_body]
#[verifier::reject_recursive_types(T)]
pub struct ExMutex<T: ?Sized>(Mutex<T>);

/// The responses that a mutex around statistics held when it was made. It is a
/// fact about that one mutex, and stays as it is whatever is recorded later.
pub uninterp spec fn first_records(mutex: Mutex<Stats>) -> Seq<Response>;

/// `std::sync::Mutex::new` makes a mutex that holds `stats`. That it is another
/// mutex than every one before is left unsaid.
#[verifier::external_body]
pub(crate) fn new_mutex(stats: Stats) -> (mutex: Mutex<Stats>)
    ensures
        first_records(mutex) == stats@,
{
    Mutex::new(stats)
}

/// A handle of the statistics of a server.
pub type SharedStats = Arc<Mutex<Stats>>;

} // verus!
