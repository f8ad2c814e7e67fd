//! Supervision of one long-lived, failure-prone resource, and the relay
//! client that is its first consumer.
//!
//! The supervisor keeps a resource "always eventually available": it
//! regenerates the resource when its background task ends or a caller asks,
//! backs off exponentially between failed attempts, resolves every waiting
//! caller with the outcome of the attempt that concludes next, and stops for
//! good on disposal or on a failure that is marked as final.
//!
//! Nothing in this crate waits, sleeps, spawns or touches a socket. The
//! supervisor and the relay client are state machines: whoever drives them
//! reports what happened and carries out what they answer.
//!
//! - [`model`] is the supervisor as mathematics, and [`laws`] is what is
//!   proved of it.
//! - [`manager`] is the executable supervisor, proved to follow the model.
//! - [`backoff`] gives the delays between attempts, [`health`] what callers
//!   see, [`boundary`] the conversion of an internal fault into a failure,
//!   and [`error`] the errors.
//! - [`relay`] holds the relay protocol, [`config`] what is kept between
//!   runs, [`nac`] and [`encoding`] what the validation-data request needs,
//!   and [`text`] numbers as text.

pub mod backoff;
pub mod boundary;
pub mod config;
pub mod encoding;
pub mod error;
pub mod health;
pub mod laws;
pub mod manager;
pub mod model;
pub mod nac;
pub mod relay;
pub mod text;
