//! The providers that come with the generator: a clock, the system load
//! and the battery.

pub mod battery;
pub mod clock;
pub mod load;

pub use battery::Battery;
pub use clock::Clock;
pub use load::Load;
