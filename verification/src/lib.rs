//! Verified core of a reaction-driven poll kept in a single chat message.
//!
//! A poll is a message whose three tracked emoji reactions encode each
//! participant's choice among accept, decline and tentative.  This crate holds
//! the logic that decides what to do with a reaction-change notification:
//! filtering events that are out of scope, resolving participants who hold
//! more than one tracked reaction, rendering the message body from the
//! current reaction sets, routing an audit line to a companion thread, and
//! building the textual reports of the read-only queries.  All network and
//! gateway work stays with the caller, which hands in plain values (ids,
//! names, thread listings) and carries out the returned plans.

pub mod audit;
pub mod classify;
pub mod commands;
pub mod digits;
pub mod locate;
pub mod markup;
pub mod model;
pub mod queries;
pub mod reconcile;
pub mod render;
pub mod resolve;
