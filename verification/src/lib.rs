//! Account logic of a Matrix client.
//!
//! An [`account::Account`] is logged in, syncs in the background, lists its rooms, reads their
//! history, makes requests of them and verifies its session. The library decides and computes; the
//! network, the store and the background tasks are its caller's.

pub mod account;
pub mod encryption;
pub mod error;
pub mod event;
pub mod identifiers;
pub mod media;
pub mod requests;
pub mod rooms;
pub mod sync;
pub mod text;
pub mod timeline;
pub mod verification;
