use timestamp_source::ElapsedTimer;
use timestamp_source::Timer;
use timestamp_source::Timestamp;

/// An instant of a manually driven clock domain: a plain tick count.
#[derive(Clone, Copy, Debug, PartialEq, Eq)]
struct FakeInstant(u64);

#[derive(Clone, Copy, Debug, PartialEq, Eq)]
struct FakeError(u64);

impl Timestamp for FakeInstant {
    type Duration = u64;
    type Error = FakeError;

    fn now() -> Self {
        FakeInstant(0)
    }

    fn duration_since_epoch(self) -> u64 {
        self.0
    }

    fn duration_since(&self, other: &Self) -> Result<u64, FakeError> {
        if self.0 >= other.0 {
            Ok(self.0 - other.0)
        } else {
            Err(FakeError(other.0 - self.0))
        }
    }

    fn duration_ge(a: &u64, b: &u64) -> bool {
        a >= b
    }
}

#[test]
fn duration_since_ordered_succeeds() {
    let a = FakeInstant(3);
    let b = FakeInstant(10);
    assert_eq!(b.duration_since(&a), Ok(7));
    assert_eq!(a.duration_since(&a), Ok(0));
}

#[test]
fn duration_since_reversed_fails() {
    let a = FakeInstant(3);
    let b = FakeInstant(10);
    assert_eq!(a.duration_since(&b), Err(FakeError(7)));
}

#[test]
fn duration_since_epoch_counts_from_zero() {
    assert_eq!(FakeInstant(42).duration_since_epoch(), 42);
}

#[test]
fn timeout_scenario() {
    let timer: Timer<FakeInstant> = Timer::new(10);
    assert_eq!(timer.timeout(&FakeInstant(0), &FakeInstant(10)), Ok(true));
    assert_eq!(timer.timeout(&FakeInstant(0), &FakeInstant(9)), Ok(false));
    assert!(timer.timeout(&FakeInstant(10), &FakeInstant(0)).is_err());
}

#[test]
fn timeout_boundary_is_inclusive() {
    let timer: Timer<FakeInstant> = Timer::new(5);
    assert_eq!(timer.timeout(&FakeInstant(2), &FakeInstant(7)), Ok(true));
    assert_eq!(timer.timeout(&FakeInstant(2), &FakeInstant(6)), Ok(false));
    assert_eq!(timer.timeout(&FakeInstant(2), &FakeInstant(8)), Ok(true));
}

#[test]
fn timeout_zero_threshold() {
    let timer: Timer<FakeInstant> = Timer::new(0);
    assert_eq!(timer.timeout(&FakeInstant(4), &FakeInstant(4)), Ok(true));
    assert_eq!(timer.timeout(&FakeInstant(4), &FakeInstant(5)), Ok(true));
}

#[test]
fn timeout_propagates_the_clock_error_unchanged() {
    let timer: Timer<FakeInstant> = Timer::new(1);
    let from = FakeInstant(9);
    let to = FakeInstant(2);
    let direct = to.duration_since(&from);
    assert_eq!(direct, Err(FakeError(7)));
    assert_eq!(timer.timeout(&from, &to), Err(FakeError(7)));
}

#[test]
fn timeout_since_decides_from_a_given_result() {
    let timer: Timer<FakeInstant> = Timer::new(5);
    assert_eq!(timer.timeout_since(Ok(4)), Ok(false));
    assert_eq!(timer.timeout_since(Ok(5)), Ok(true));
    assert_eq!(timer.timeout_since(Ok(6)), Ok(true));
    assert_eq!(timer.timeout_since(Err(FakeError(3))), Err(FakeError(3)));
}

#[test]
fn borrow_duration_reads_the_threshold() {
    let timer: Timer<FakeInstant> = Timer::new(10);
    assert_eq!(*timer.borrow_duration(), 10);
}

#[test]
fn borrow_mut_duration_changes_the_threshold() {
    let mut timer: Timer<FakeInstant> = Timer::new(10);
    *timer.borrow_mut_duration() = 3;
    assert_eq!(*timer.borrow_duration(), 3);
    assert_eq!(timer.timeout(&FakeInstant(0), &FakeInstant(3)), Ok(true));
    assert_eq!(timer.timeout(&FakeInstant(0), &FakeInstant(2)), Ok(false));
}
