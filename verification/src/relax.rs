use vstd::prelude::*;

verus! {

/// Strategy invoked once per busy-wait iteration while a
/// [`Delay`](crate::Delay) is still pending.
///
/// What the idle action does (a spin hint, a yield, checking a cancellation
/// flag) is entirely the strategy's choice and invisible to the waiting code;
/// nothing is promised of it.
pub trait Relax {
    /// Perform the idle action for one spin iteration.
    fn relax();
}

#[verifier::external_type_specification]
#[verifier::external_body]
pub struct ExSpin(spin::relax::Spin);

/// Relies on spin's `Spin::relax`: emits a CPU spin-loop hint and returns.
#[verifier::external_body]
fn spin_relax() {
    <spin::relax::Spin as spin::relax::RelaxStrategy>::relax()
}

impl Relax for spin::relax::Spin {
    fn relax() {
        spin_relax()
    }
}

} // verus!
