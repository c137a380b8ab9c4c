//! Hand-built concurrency and memory-management primitives.
//!
//! The centre of the crate is [`channel`]: a blocking, unbounded, strictly
//! first-in-first-out channel with any number of senders. Its rules are
//! written down once, as a mathematical model with its laws in [`model`],
//! and the executable code in [`channel`] is proved against that model.
//! What the channel takes on trust from `std::sync` is gathered in
//! [`sync`].
//!
//! Around it stand smaller tools: a heap box ([`box_m`]), a cell
//! ([`cell`]), a spinning lock ([`mutex`]), the count behind a
//! reference-counted pointer ([`rc`]), the rule of borrowing that is
//! checked at run time ([`refcell`]), and flattening of nested
//! collections ([`iter`]).

pub mod model;
pub mod sync;
pub mod channel;
pub mod box_m;
pub mod cell;
pub mod iter;
pub mod mutex;
pub mod rc;
pub mod refcell;
