//! Failover routing of edge requests to geographically distinct
//! object-storage origins.
//!
//! The crate holds the decisions of an edge router and leaves every
//! outside effect to its caller: which origins a location is served from
//! and in which order, which location a request counts for, whether an
//! attempt may be signed, and what follows from each answer of an origin.
//! The caller performs the lookups, the signing and the network calls that
//! the router asks for, and reports what came of them.
//!
//! - [`origin`] and [`registry`]: the origins, and the lists of origins
//!   that serve each location.
//! - [`location`]: the location that a request counts for.
//! - [`region`]: the storage region that a bucket host names.
//! - [`auth`]: the gates that an attempt passes before it is signed.
//! - [`config`]: a registry and an authenticator, checked to fit together.
//! - [`router`]: the routing of one request, step by step.
//! - [`simulation`]: the routing of one request against given answers.
//! - [`laws`]: what holds of all of the above.

pub mod auth;
pub mod config;
pub mod error;
pub mod laws;
pub mod location;
pub mod origin;
pub mod region;
pub mod registry;
pub mod router;
pub mod simulation;
pub mod text;
