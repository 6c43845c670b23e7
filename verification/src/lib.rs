//! Transient, single-writer object storage.
//!
//! A payload is stored under a composite key, `"{namespace}:::{slot}"`, and
//! lives until its time to live elapses; a wake-up timer then purges it. One
//! entity, [`FileShare`], holds one payload. The host serialises the
//! operations on an entity, keeps its durable fields, runs its timer and owns
//! the connections of its observers.
//!
//! The library decides and the host acts. Each operation takes the entity as
//! the host holds it and the time, in whole seconds since the epoch; it
//! changes the entity, appends the commands that the host is to carry out, and
//! returns the reply. The caller-facing tier claims a slot in the same way:
//! it mints a candidate from a draw, has the host probe it, and is told
//! whether to store under it or to try another.
//!
//! - [`share`]: the entity and its elementary operations.
//! - [`actor`]: requests, replies, and the dispatch of a request.
//! - [`effect`]: the commands for the host.
//! - [`model`]: the entity as the contracts see it.
//! - [`event`], [`laws`], [`host`]: what holds over any course of events.
//! - [`ident`], [`claim`], [`route`]: identifiers, the claim protocol and the
//!   caller-facing routes.
//! - [`text`]: decimal numerals.

pub mod actor;
pub mod claim;
pub mod effect;
pub mod event;
pub mod host;
pub mod ident;
pub mod laws;
pub mod model;
pub mod route;
pub mod share;
pub mod text;

pub use share::FileShare;
