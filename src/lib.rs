//! Mounts newly attached host volumes inside a running WSL instance.
//!
//! The library decides what happens: which mount point a volume gets, which
//! process to launch next, what a finished attempt reports, and when the
//! watch loop stops. The program around it performs the launches and reads
//! the volume notifications.
pub mod mount;
pub mod watch;
