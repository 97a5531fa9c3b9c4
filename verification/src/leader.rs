//! Lease-based leader election for Kubernetes controllers.
//!
//! The replicas share one Lease object. Whoever is named in it as the holder leads, for as
//! long as it keeps the lease renewed; the others try again and again to acquire it.
//!
//! Nothing here sends a request, sleeps or spawns a task. Each part of the protocol takes what
//! came in (the answer to a request, the time, the end of a turn) and says what to do next:
//!
//! - [`election`]: the configuration, and the wait until the lease is acquired;
//! - [`attempt`]: one attempt to acquire the lease;
//! - [`renewal`]: keeping the lease, and stepping down when it is lost;
//! - [`release`]: giving the lease up;
//! - [`guard`]: what a leader holds, and how leadership ends;
//! - [`operations`]: what each operation does, field by field;
//! - [`laws`]: what holds of all these together.
//!
//! # Timing model
//!
//! - `lease_duration`: how long a leader that stops renewing is still safe from being
//!   replaced. Default 15s.
//! - `renew_deadline`: a leader whose renewals fail for longer than this steps down.
//!   Default 10s.
//! - `retry_period`: how often the leader renews, and the others try. Default 2s.
//!
//! The gap between `lease_duration` and `renew_deadline` gives a departing leader time to
//! notice the loss before anybody else can claim the lease. So that it does, no turn of the
//! renewal loop goes on beyond [`renewal::RenewLoop::deadline`], whether it waits for the next
//! renewal or for an answer.

pub mod attempt;
pub mod election;
pub mod guard;
pub mod identity;
pub mod laws;
pub mod lease;
pub mod operations;
pub mod release;
pub mod renewal;
pub mod request;

pub use election::{LeaderElection, LeaderElectionBuilder};
pub use guard::{LeaderGuard, LeaderState};
pub use identity::Identity;
pub use renewal::StepDownReason;
