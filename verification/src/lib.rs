//! Control-plane bridge between an asynchronous device session and a
//! frame-driven user interface.
//!
//! The bridge is three pieces: the message types that cross the two
//! channels ([`msg`]), the session worker's state machine with its
//! emission discipline ([`worker`]), and the per-frame interface state
//! that folds responses and turns widget events into commands ([`ui`]).
//! The channels themselves and the redraw trigger belong to outside
//! crates and are reached through the trusted declarations in
//! [`channel`].

pub mod channel;
pub mod msg;
pub mod ui;
pub mod worker;
