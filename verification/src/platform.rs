//! Platform-specific raw readings, as plain data.
//!
//! Collecting these readings is operating-system work done outside the
//! library; the records and the pure parsing rules live here.

pub mod linux;
pub mod macos;
pub mod windows;
