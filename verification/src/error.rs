//! Error types returned by leader-election operations.
//!
//! [`Error`] is what every fallible operation of this crate returns. A configuration
//! that fails validation is an [`InvalidConfig`] nested in [`Error::InvalidConfig`],
//! so that a caller can match on the invariant that was broken.
use crate::duration::Duration;
use vstd::prelude::*;

verus! {

/// What the Kubernetes API server says of a request that it refused.
#[derive(Debug)]
pub struct Status {
    /// The HTTP status code, such as 404 or 409.
    pub code: u16,
    /// A short machine-readable reason.
    pub reason: String,
    /// A human-readable description.
    pub message: String,
}

/// Why a request to the Kubernetes API failed.
#[derive(Debug)]
pub enum KubeError {
    /// The API server answered with a failure status.
    Api(Status),
    /// No answer of the API server could be had or read; the text says why.
    Other(String),
}

/// Error returned by leader-election operations.
#[derive(Debug)]
#[non_exhaustive]
pub enum Error {
    /// A request to the Kubernetes API failed.
    ///
    /// While a lease is being acquired such failures are retried, and surface only
    /// inside [`Error::ObserveTimeout`], if they persist. While a lease is being
    /// renewed they are retried within `renew_deadline`.
    Kube(KubeError),
    /// The wall clock shows a time that a lease cannot hold.
    Timestamp(String),
    /// Attempts to acquire the lease kept failing for `observe_timeout`, the first
    /// field. The second is the most recent failure.
    ObserveTimeout(Duration, Box<Error>),
    /// The configuration breaks an invariant of the algorithm. Found before any
    /// request is sent.
    InvalidConfig(InvalidConfig),
}

/// The invariant that a configuration breaks, with the values that break it.
#[derive(Debug)]
#[non_exhaustive]
pub enum InvalidConfig {
    /// `renew_deadline` is not strictly less than `lease_duration`. Without this gap
    /// a brief renewal hiccup can race a takeover and produce two leaders.
    RenewDeadlineNotLess {
        /// Configured `renew_deadline`.
        renew: Duration,
        /// Configured `lease_duration`.
        lease: Duration,
    },
    /// `retry_period` is greater than `renew_deadline`.
    RetryPeriodTooLong {
        /// Configured `retry_period`.
        retry: Duration,
        /// Configured `renew_deadline`.
        renew: Duration,
    },
    /// `retry_period` is zero, which would busy-loop against the API server.
    RetryPeriodZero,
    /// The resolved identity is empty.
    IdentityEmpty,
    /// The name of the lease is empty.
    NameEmpty,
    /// The namespace is empty.
    NamespaceEmpty,
}

/// The view of a [`KubeError`].
pub ghost enum KubeErrorView {
    Api { code: u16, reason: Seq<char>, message: Seq<char> },
    Other(Seq<char>),
}

/// The view of an [`InvalidConfig`].
pub ghost enum InvalidConfigView {
    RenewDeadlineNotLess { renew: nat, lease: nat },
    RetryPeriodTooLong { retry: nat, renew: nat },
    RetryPeriodZero,
    IdentityEmpty,
    NameEmpty,
    NamespaceEmpty,
}

/// The view of an [`Error`].
pub ghost enum ErrorView {
    Kube(KubeErrorView),
    Timestamp(Seq<char>),
    ObserveTimeout(nat, Box<ErrorView>),
    InvalidConfig(InvalidConfigView),
}

impl View for KubeError {
    type V = KubeErrorView;

    open spec fn view(&self) -> KubeErrorView {
        match *self {
            KubeError::Api(status) => KubeErrorView::Api {
                code: status.code,
                reason: status.reason@,
                message: status.message@,
            },
            KubeError::Other(text) => KubeErrorView::Other(text@),
        }
    }
}

impl View for InvalidConfig {
    type V = InvalidConfigView;

    open spec fn view(&self) -> InvalidConfigView {
        match *self {
            InvalidConfig::RenewDeadlineNotLess { renew, lease } =>
                InvalidConfigView::RenewDeadlineNotLess { renew: renew@, lease: lease@ },
            InvalidConfig::RetryPeriodTooLong { retry, renew } =>
                InvalidConfigView::RetryPeriodTooLong { retry: retry@, renew: renew@ },
            InvalidConfig::RetryPeriodZero => InvalidConfigView::RetryPeriodZero,
            InvalidConfig::IdentityEmpty => InvalidConfigView::IdentityEmpty,
            InvalidConfig::NameEmpty => InvalidConfigView::NameEmpty,
            InvalidConfig::NamespaceEmpty => InvalidConfigView::NamespaceEmpty,
        }
    }
}

/// The view of `error`, the nested one included.
pub open spec fn error_view(error: Error) -> ErrorView
    decreases error,
{
    match error {
        Error::Kube(failure) => ErrorView::Kube(failure@),
        Error::Timestamp(text) => ErrorView::Timestamp(text@),
        Error::ObserveTimeout(window, last) =>
            ErrorView::ObserveTimeout(window@, Box::new(error_view(*last))),
        Error::InvalidConfig(broken) => ErrorView::InvalidConfig(broken@),
    }
}

impl View for Error {
    type V = ErrorView;

    open spec fn view(&self) -> ErrorView {
        error_view(*self)
    }
}

/// The view of a result whose value is its own view.
pub open spec fn outcome<T, E: View>(result: Result<T, E>) -> Result<T, E::V> {
    match result {
        Ok(value) => Ok(value),
        Err(error) => Err(error@),
    }
}

/// The view of a result.
pub open spec fn seen<T: View, E: View>(result: Result<T, E>) -> Result<T::V, E::V> {
    match result {
        Ok(value) => Ok(value@),
        Err(error) => Err(error@),
    }
}

impl KubeError {
    /// Whether the API server answered with the status code `code`.
    pub fn has_code(&self, code: u16) -> (found: bool)
        ensures
            found == self@.has_code(code),
    {
        match self {
            KubeError::Api(status) => status.code == code,
            KubeError::Other(_) => false,
        }
    }
}

impl KubeErrorView {
    /// Whether the API server answered with the status code `code`.
    pub open spec fn has_code(self, code: u16) -> bool {
        self matches KubeErrorView::Api { code: answered, .. } && answered == code
    }
}

} // verus!
