//! Wall-clock instants counted in whole milliseconds from the Unix epoch.
//!
//! [`SystemTime`] is a signed count of milliseconds; it can be compared, shifted by a
//! [`Duration`] or a `core::time::Duration`, measured against another instant, and carried to
//! and from the host's `std::time::SystemTime`.

pub mod duration;
pub mod host;
pub mod laws;
pub mod model;
pub mod system_time;

pub use duration::Duration;
pub use system_time::{SystemTime, SystemTimeError};
