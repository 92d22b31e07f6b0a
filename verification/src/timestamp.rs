use vstd::prelude::*;

verus! {

/// Capability implemented by a concrete clock type.
///
/// A value of an implementing type is an instant of that clock's domain; the
/// spec function `time` models it as a point on the domain's timeline, and
/// `dur` models a duration as a mathematical quantity. Instants of different
/// implementing types cannot be mixed: every operation is stated over a
/// single `Self`.
pub trait Timestamp: Sized {
    /// Elapsed time between two instants of this domain.
    type Duration;
    /// Signals an invalid duration computation (a negative elapsed time).
    type Error;

    /// Model of an instant: its position on the domain's timeline.
    ///
    /// The default leaves the model unspecified; a verified implementation
    /// overrides it with its own.
    open spec fn time(&self) -> int {
        arbitrary()
    }

    /// Model of a duration: the quantity of elapsed time it stands for.
    ///
    /// The default leaves the model unspecified; a verified implementation
    /// overrides it with its own.
    open spec fn dur(d: &Self::Duration) -> int {
        arbitrary()
    }

    /// Model of the domain's fixed epoch, from which
    /// [`duration_since_epoch`](Timestamp::duration_since_epoch) counts.
    ///
    /// The default leaves the model unspecified; a verified implementation
    /// overrides it with its own.
    open spec fn epoch() -> int {
        arbitrary()
    }

    /// Read the current instant from the clock. Which instant comes back is
    /// the clock's alone, so nothing is promised of it; a clock may even
    /// move backward between reads, which
    /// [`duration_since`](Timestamp::duration_since) then reports cleanly.
    fn now() -> Self;

    /// Elapsed time from the domain's fixed epoch to this instant.
    fn duration_since_epoch(self) -> (d: Self::Duration)
        ensures
            Self::dur(&d) == self.time() - Self::epoch(),
    ;

    /// Elapsed time from `other` to `self`.
    ///
    /// Fails exactly when that elapsed time would be negative, that is when
    /// `other` is a later instant than `self`; it is never reported as a
    /// wrapped or otherwise nonsensical duration.
    fn duration_since(&self, other: &Self) -> (r: Result<Self::Duration, Self::Error>)
        ensures
            self.time() >= other.time() ==> r is Ok,
            r is Ok ==> Self::dur(&r->Ok_0) == self.time() - other.time(),
            self.time() < other.time() ==> r is Err,
    ;

    /// Compare two durations of this domain: `a` is at least `b`. The
    /// ordering of durations is part of the domain's contract, so that the
    /// verifier can hold every consumer to it.
    fn duration_ge(a: &Self::Duration, b: &Self::Duration) -> (r: bool)
        ensures
            r == (Self::dur(a) >= Self::dur(b)),
    ;
}

} // verus!
