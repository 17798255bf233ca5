//! Firmware-update orchestration core for devices built from independently
//! updatable components.
//!
//! The crate provides the pieces that keep a multi-step update protocol
//! (offer, content transfer, finalize, attach) honest:
//!
//! * [`component`] — the component data model: states, requests, responses,
//!   errors, and the per-component device record.
//! * [`channel`] — a request/response rendezvous that correlates each
//!   submitted request with exactly one response by id.
//! * [`action`] — the state tags of the per-component update state machine.
//! * [`device`] — the typed state machine itself: a device in state `S`
//!   exposes only the transitions legal in `S`.
//! * [`service`] — the registry of components, the client context, and the
//!   single-owner access token.
//!
//! Everything that suspends in a running system (waiting on a driver, on a
//! queue, on a scheduler) is expressed here as a plain value handed in or
//! out, so every decision the core makes is stated in a contract and proved.

pub mod action;
pub mod channel;
pub mod component;
pub mod device;
pub mod protocol;
pub mod service;
