//! Debounce-time configuration for a family of USB HID gaming mice.
//!
//! The library holds the decisions: which values are accepted, how the
//! vendor feature reports are laid out, which attached device is used, and
//! in which order the exchanges with the device happen. Talking to the
//! device itself is left to the caller.

pub mod debounce;
pub mod report;
pub mod device;
pub mod session;
