use core::marker::PhantomData;
use vstd::prelude::*;

use crate::relax::Relax;
use crate::timestamp::Timestamp;

verus! {

/// Outcome of one busy-wait iteration of a [`Delay`].
pub enum Poll<E> {
    /// Less than the wait length has elapsed: keep spinning.
    Pending,
    /// At least the wait length has elapsed: the wait is over.
    Elapsed,
    /// The clock reported an invalid elapsed-duration computation: abort
    /// the wait with this error.
    Failed(E),
}

/// A wait for a fixed duration over the clock domain `T`, performed by
/// busy-waiting: each spin iteration reads the clock and either ends the
/// wait or invokes the relax strategy `R` once, until at least the wait
/// length has elapsed since the start. Everything one iteration does is
/// [`spin_once`](Delay::spin_once); a thin driver repeats it.
///
/// The strategy is chosen at the type level and occupies no space; by
/// default it is spin's `Spin`, a plain CPU spin-loop hint. The delay keeps
/// no other state: no memory of prior runs, and nothing shared between
/// instances.
pub struct Delay<T: Timestamp, R: Relax = spin::relax::Spin> {
    duration: T::Duration,
    relax: PhantomData<R>,
}

impl<T: Timestamp, R: Relax> Delay<T, R> {
    /// The stored wait length.
    pub closed spec fn duration_spec(&self) -> T::Duration {
        self.duration
    }

    /// Creates a delay that waits for `duration`.
    pub fn new(duration: T::Duration) -> (r: Self)
        ensures
            r.duration_spec() == duration,
    {
        Delay { duration, relax: PhantomData::<R> }
    }

    /// Read-only access to the stored wait length.
    pub fn borrow_duration(&self) -> (d: &T::Duration)
        ensures
            *d == self.duration_spec(),
    {
        &self.duration
    }

    /// Exclusive mutable access to the stored wait length; the only way to
    /// change it after construction.
    pub fn borrow_mut_duration(&mut self) -> (d: &mut T::Duration)
        ensures
            *d == old(self).duration_spec(),
            final(self).duration_spec() == *final(d),
    {
        &mut self.duration
    }

    /// The decision one spin iteration takes, applied to an already computed
    /// elapsed duration since the start of the wait: pending while strictly
    /// less than the wait length has elapsed, over once at least the wait
    /// length has elapsed, and aborted with the elapsed-duration
    /// computation's own error, unchanged, when that computation failed.
    pub fn poll(&self, since: Result<T::Duration, T::Error>) -> (r: Poll<T::Error>)
        ensures
            since is Ok && T::dur(&since->Ok_0) < T::dur(&self.duration_spec())
                ==> r is Pending,
            since is Ok && T::dur(&since->Ok_0) >= T::dur(&self.duration_spec())
                ==> r is Elapsed,
            since is Err ==> (r is Failed && r->Failed_0 == since->Err_0),
    {
        match since {
            Ok(d) => {
                if T::duration_ge(&d, &self.duration) {
                    Poll::Elapsed
                } else {
                    Poll::Pending
                }
            },
            Err(e) => Poll::Failed(e),
        }
    }

    /// One busy-wait iteration of a wait that began at the instant `start`:
    /// read the clock, compute the elapsed time since `start`, and decide
    /// through [`poll`](Delay::poll). A pending outcome additionally invokes
    /// `R`'s idle action once before returning, so that a driver loop has
    /// nothing to do between iterations but call this again.
    ///
    /// The outcome is the instant read from the clock, the contract of
    /// [`duration_since`](Timestamp::duration_since), and the decision of
    /// [`poll`](Delay::poll) on it; which instant the read returns is the
    /// clock's alone. One thing holds whatever came back: a wait length of
    /// nothing is never pending — a successful read is never an elapsed
    /// time below it, and a failed read aborts — so such a wait never
    /// invokes the relax strategy. A driver that repeats this until the
    /// outcome is no longer pending performs the whole wait; with a clock
    /// that neither advances nor fails it legitimately spins forever, which
    /// is why the repetition itself cannot be a verified loop and stays
    /// with the driver.
    pub fn spin_once(&self, start: &T) -> (r: Poll<T::Error>)
        ensures
            T::dur(&self.duration_spec()) <= 0 ==> !(r is Pending),
    {
        let since = T::now().duration_since(start);
        let r = self.poll(since);
        if let Poll::Pending = r {
            R::relax();
        }
        r
    }
}

} // verus!
