//! What the console reads from the operating system's own reports.
pub mod linux;
pub mod macos;
