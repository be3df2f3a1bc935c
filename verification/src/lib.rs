//! Verified core of an asynchronous handle to an exclusive, non-shareable
//! resource (a SQLite connection owned by a dedicated worker thread).
//!
//! Callers submit units of work through a cheaply cloneable front-end handle;
//! a single worker owns the resource, executes the units strictly in arrival
//! order, and answers each one through its own one-shot completion channel.
//! A distinguished close request shuts the worker down; a failed close hands
//! the still-open resource back so the caller can retry.
//!
//! This crate verifies the protocol itself: the error taxonomy, the decisions
//! the front end makes when a channel settles ([`outcome`]), the worker's
//! processing of a message queue ([`protocol`]), and the observable state
//! machine of one opened connection ([`connection`]). The threads and
//! channels that carry the messages at run time live outside the verified
//! core and follow these contracts.

pub mod error;
pub mod outcome;
pub mod protocol;
pub mod resource;
pub mod connection;

pub use error::Error;
pub use resource::{Fault, Reply, Resource, Work};
pub use connection::Connection;
