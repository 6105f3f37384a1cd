//! Orchestration of device-management exchanges: enabling just-in-time
//! execution for an installed application, staging a package on the
//! device, and installing a staged package.
//!
//! Each operation is a state machine that says which exchange comes next
//! and how each reply moves it on; the code that talks to the device feeds
//! the replies back in.

pub mod error;
pub mod paths;
pub mod locate;
pub mod jit;
pub mod staging;
pub mod install;
