//! A live screen-capture video source, as a set of verified components.
//!
//! The capture backend and the host media graph stay outside this crate: the
//! components here take what the backend produced as plain values and decide
//! what the element does next (which handle to stop, which format to propose,
//! which timestamp a frame carries).
pub mod error;
pub mod format;
pub mod frame;
pub mod laws;
pub mod lifecycle;
pub mod settings;
