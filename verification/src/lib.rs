//! Building blocks for high-availability Kubernetes controllers.
//!
//! Of the replicas of a controller only one should reconcile at a time. The [`leader`] module
//! holds the rules by which they agree on that one, with a Lease object on the Kubernetes API
//! server as their lock.

pub mod basics;
pub mod duration;
pub mod error;
pub mod leader;
pub mod outside;
pub mod timestamp;

pub use duration::{Duration, Instant};
pub use error::{Error, InvalidConfig};
pub use leader::LeaderState;
