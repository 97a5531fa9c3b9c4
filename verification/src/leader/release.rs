//! Giving the lease up: read it, and clear its holder if that is still us.
use crate::error::{outcome, seen, Error, ErrorView, KubeError, KubeErrorView};
use crate::leader::lease::{Lease, LeaseView};
use crate::leader::request::{replace_lease, write_outcome, Step, StepView, Write, WriteView};
use vstd::prelude::*;

verus! {

/// A release whose write is under way.
#[derive(Debug)]
pub struct ReleaseSent {}

/// What `identity`, who gives the lease `name` up, makes of the answer to its read: it
/// clears its own name, and leaves any other holder alone.
pub open spec fn release_step(
    name: Seq<char>,
    identity: Seq<char>,
    reply: Result<LeaseView, KubeErrorView>,
) -> StepView<()> {
    match reply {
        Ok(lease) => if lease.record().holder_identity == Some(identity) {
            StepView::Send(
                WriteView::Replace { name, lease: lease.with(lease.record().released()) },
            )
        } else {
            StepView::Finished(Ok(()))
        },
        Err(error) => StepView::Finished(Err(ErrorView::Kube(error))),
    }
}

/// What the answer to the write that clears the holder means. A conflict is no failure:
/// then the lease is not as it was read, and no longer ours to clear.
pub open spec fn release_outcome(reply: Result<(), KubeErrorView>) -> Result<(), ErrorView> {
    match write_outcome(reply) {
        Ok(_) => Ok(()),
        Err(error) => Err(error),
    }
}

/// What comes after the answer to the read of the lease `name`, which `identity` gives up.
pub fn clear_holder(name: &str, identity: &str, reply: Result<Lease, KubeError>) -> (step: Step<
    (),
    ReleaseSent,
>)
    ensures
        step@ == release_step(name@, identity@, seen(reply)),
{
    match reply {
        Ok(lease) => if lease.is_held_by(identity) {
            Step::Send(
                Write::Replace { name: name.to_owned(), lease: lease.released() },
                ReleaseSent {  },
            )
        } else {
            Step::Finished(Ok(()))
        },
        Err(error) => Step::Finished(Err(Error::Kube(error))),
    }
}

impl ReleaseSent {
    /// The outcome of giving the lease up, once the write is answered.
    pub fn written(self, reply: Result<(), KubeError>) -> (cleared: Result<(), Error>)
        ensures
            outcome(cleared) == release_outcome(outcome(reply)),
    {
        match replace_lease(reply) {
            Ok(_) => Ok(()),
            Err(error) => Err(error),
        }
    }
}

} // verus!
