//! Verified core of an in-process prompt-rendering library.
//!
//! The library decodes the prompt request that a shell hands over, decides
//! which calls on the one prompt-rendering session of a process are accepted,
//! and turns every outcome into the message that the shell receives.

pub mod convert;
pub mod ffi;
pub mod laws;
