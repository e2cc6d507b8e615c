//! What can go wrong, and where.

use vstd::prelude::*;
use crate::origin::Origin;

verus! {

/// A fault in the compiled configuration, found while it is loaded.
#[derive(Clone, Copy, Debug, PartialEq, Eq)]
pub enum ConfigError {
    /// A priority list names the same origin twice.
    DuplicateOrigin,
    /// Signing is enabled and the host of this origin does not follow the
    /// naming convention of regional endpoints, so no region can be
    /// derived for it.
    NonConformingHost(Origin),
}

/// The serving location cannot be determined.
#[derive(Clone, Copy, Debug, PartialEq, Eq)]
pub enum LocationError {
    /// The host environment does not say on which host the service runs.
    MissingHostName,
    /// The service runs in production and the host environment does not
    /// name the serving location.
    MissingLocation,
}

/// An event was reported that does not answer what the router asked for.
#[derive(Clone, Copy, Debug, PartialEq, Eq)]
pub enum ProtocolError {
    /// The router waits for another kind of event, or has finished.
    UnexpectedEvent,
}

} // verus!
