//! Delta synchronisation of a torrent backend's state.
//!
//! The backend publishes its state as a stream of revision frames: a full
//! snapshot, then sparse deltas, each tagged with a revision id. This crate
//! holds the frame types, the reconciler that folds a stream of frames into
//! one observable state, and the decision logic of the polling loop, of a
//! transport session and of the connection lifecycle. All of it is plain
//! data in, plain data out: the caller performs the network and timer work
//! and reports back what happened.

pub mod assets;
pub mod auth;
pub mod client;
pub mod connection;
pub mod keyed;
pub mod poll;
pub mod proto;
pub mod reconciler;
pub mod scalar;
pub mod signal;
pub mod sync_client;
pub mod syncstate;
pub mod transport;
