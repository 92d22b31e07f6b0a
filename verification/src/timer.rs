use vstd::prelude::*;

use crate::timestamp::Timestamp;

verus! {

/// Decides whether a fixed duration has passed between two instants of one
/// clock domain.
pub trait ElapsedTimer {
    /// The clock domain whose instants this timer compares.
    type Timestamp: Timestamp;

    /// Model of the threshold the timer checks elapsed time against.
    ///
    /// The default leaves the model unspecified; a verified implementation
    /// overrides it with its own.
    open spec fn threshold(&self) -> int {
        arbitrary()
    }

    /// Returns `true` exactly when at least the timer's threshold has elapsed
    /// from `from` to `to`; an elapsed time equal to the threshold counts as
    /// timed out. Fails exactly when the elapsed time from `from` to `to`
    /// would be negative, that is when `to` is earlier than `from`.
    fn timeout(
        &self,
        from: &Self::Timestamp,
        to: &Self::Timestamp,
    ) -> (r: Result<bool, <Self::Timestamp as Timestamp>::Error>)
        ensures
            to.time() >= from.time() ==> (r is Ok && (r->Ok_0 == (to.time() - from.time()
                >= self.threshold()))),
            to.time() < from.time() ==> r is Err,
    ;
}

/// An [`ElapsedTimer`] that stores its threshold as a plain duration of the
/// clock domain `T`.
///
/// The timer keeps no other state: each [`timeout`](ElapsedTimer::timeout)
/// check depends only on the two instants passed in and the stored threshold.
pub struct Timer<T: Timestamp> {
    duration: T::Duration,
}

impl<T: Timestamp> Timer<T> {
    /// The stored threshold duration.
    pub closed spec fn duration_spec(&self) -> T::Duration {
        self.duration
    }

    /// Creates a timer that checks elapsed time against `duration`.
    pub fn new(duration: T::Duration) -> (r: Self)
        ensures
            r.duration_spec() == duration,
    {
        Timer { duration }
    }

    /// Read-only access to the stored threshold duration.
    pub fn borrow_duration(&self) -> (d: &T::Duration)
        ensures
            *d == self.duration_spec(),
    {
        &self.duration
    }

    /// Exclusive mutable access to the stored threshold duration; the only
    /// way to change it after construction.
    pub fn borrow_mut_duration(&mut self) -> (d: &mut T::Duration)
        ensures
            *d == old(self).duration_spec(),
            final(self).duration_spec() == *final(d),
    {
        &mut self.duration
    }

    /// The timeout decision applied to an already computed elapsed duration:
    /// `Ok(true)` exactly when `since` holds a duration of at least the
    /// stored threshold, `Ok(false)` when it holds a smaller one, and, when
    /// the elapsed-duration computation failed, that computation's own error
    /// unchanged.
    pub fn timeout_since(
        &self,
        since: Result<T::Duration, T::Error>,
    ) -> (r: Result<bool, T::Error>)
        ensures
            since is Ok ==> (r is Ok && (r->Ok_0 == (T::dur(&since->Ok_0)
                >= self.threshold()))),
            since is Err ==> (r is Err && r->Err_0 == since->Err_0),
    {
        match since {
            Ok(d) => Ok(T::duration_ge(&d, &self.duration)),
            Err(e) => Err(e),
        }
    }
}

impl<T: Timestamp> ElapsedTimer for Timer<T> {
    type Timestamp = T;

    /// The model of the stored threshold duration.
    open spec fn threshold(&self) -> int {
        T::dur(&self.duration_spec())
    }

    fn timeout(&self, from: &T, to: &T) -> (r: Result<bool, T::Error>) {
        self.timeout_since(to.duration_since(from))
    }
}

} // verus!
