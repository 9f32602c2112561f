use vstd::prelude::*;

verus! {

/// The failure classes the client distinguishes.
///
/// `Invalid` is a fatal configuration error surfaced before the loop starts.
/// `FailedScrape` is a transient transport failure, `Parse` a transient
/// decode failure; both are retried or skipped by the loop, never fatal.
/// `Shutdown` is not an error: it marks an operation abandoned because
/// cancellation was observed, and forces the outer loop to terminate.
#[derive(Debug)]
pub enum Error {
    Invalid(String),
    FailedScrape(String),
    Parse(String),
    Shutdown,
}

impl Error {
    /// True exactly for the cooperative-shutdown outcome.
    pub fn is_shutdown(&self) -> (r: bool)
        ensures
            r <==> self is Shutdown,
    {
        matches!(self, Error::Shutdown)
    }
}

} // verus!
