//! Monotonic-timestamp abstractions for environments without an operating
//! system scheduler: a clock capability, an elapsed timer, and a busy-wait
//! delay with a pluggable relax strategy.

mod delay;
mod relax;
mod timer;
mod timestamp;

pub use delay::Delay;
pub use delay::Poll;
pub use relax::Relax;
pub use timer::ElapsedTimer;
pub use timer::Timer;
pub use timestamp::Timestamp;
