//! The requests that the protocol sends to the API server, and what their answers mean.
//!
//! There are three: reading the lease, creating it and replacing it. Each part of the
//! protocol starts by reading the lease; a [`Step`] says what comes next.
use crate::error::{outcome, Error, ErrorView, KubeError, KubeErrorView};
use crate::leader::lease::{Lease, LeaseRecord, LeaseSpec, LeaseView};
use vstd::prelude::*;

verus! {

/// The answer to a read of an object that does not exist.
pub const NOT_FOUND: u16 = 404;

/// The answer to a write that came too late: another one was first.
pub const CONFLICT: u16 = 409;

/// A write to send to the API server.
#[derive(Debug)]
pub enum Write {
    /// Create the lease `name`, which does not exist yet.
    Create {
        /// The name of the lease, all of its metadata.
        name: String,
        /// What the lease says of its holder.
        spec: LeaseSpec,
    },
    /// Replace the lease `name`.
    Replace {
        /// The name of the lease.
        name: String,
        /// The lease that takes the place of the stored one.
        lease: Lease,
    },
}

/// What comes after the answer to a read. `P` reads the answer to the write, if there is one.
#[derive(Debug)]
pub enum Step<T, P> {
    /// Nothing more is sent: this is the outcome.
    Finished(Result<T, Error>),
    /// Send this, and hand on the answer: it decides the outcome.
    Send(Write, P),
}

/// The view of a [`Write`].
#[verifier::ext_equal]
pub ghost enum WriteView {
    Create { name: Seq<char>, record: LeaseRecord },
    Replace { name: Seq<char>, lease: LeaseView },
}

/// The view of a [`Step`].
#[verifier::ext_equal]
pub ghost enum StepView<T> {
    Finished(Result<T, ErrorView>),
    Send(WriteView),
}

impl View for Write {
    type V = WriteView;

    open spec fn view(&self) -> WriteView {
        match *self {
            Write::Create { name, spec } => WriteView::Create { name: name@, record: spec@ },
            Write::Replace { name, lease } => WriteView::Replace { name: name@, lease: lease@ },
        }
    }
}

impl<T, P> View for Step<T, P> {
    type V = StepView<T>;

    open spec fn view(&self) -> StepView<T> {
        match *self {
            Step::Finished(result) => StepView::Finished(outcome(result)),
            Step::Send(write, _) => StepView::Send(write@),
        }
    }
}

/// What the answer to a write means to a replica that wants the lease: it has it, another
/// replica was faster, or the request failed.
pub open spec fn write_outcome(reply: Result<(), KubeErrorView>) -> Result<bool, ErrorView> {
    match reply {
        Ok(()) => Ok(true),
        Err(error) => if error.has_code(CONFLICT) {
            Ok(false)
        } else {
            Err(ErrorView::Kube(error))
        },
    }
}

/// Whether a write took effect. A conflict means that another replica was faster, which is
/// no failure.
pub fn replace_lease(reply: Result<(), KubeError>) -> (replaced: Result<bool, Error>)
    ensures
        outcome(replaced) == write_outcome(outcome(reply)),
{
    match reply {
        Ok(()) => Ok(true),
        Err(error) => if error.has_code(CONFLICT) {
            Ok(false)
        } else {
            Err(Error::Kube(error))
        },
    }
}

} // verus!
