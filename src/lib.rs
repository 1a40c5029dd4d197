//! Verified core of a cross-platform audio I/O abstraction: the host, device
//! and stream traits, the pull-based capture and render passes, buffer-period
//! negotiation, and the decision logic of a blocking bridge over an
//! asynchronous device-activation call.
pub mod activation;
pub mod event;
pub mod pass;
pub mod period;
pub mod run;
pub mod select;
pub mod traits;
pub mod types;
