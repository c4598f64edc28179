//! A sans-I/O core for a single Bluetooth Low Energy session.
//!
//! The crate owns the rules of the session: which hardware request comes
//! next, how each reply is judged, what the session remembers. It performs
//! no I/O itself. A driver performs every [`protocol::Request`] against the
//! radio and hands the [`protocol::Reply`] back.
//!
//! An operation reads the session when it opens and writes to it only when
//! its result is installed; in between it holds no reference to the
//! session, so a driver never has to keep the session locked while the
//! radio works, and an operation that fails leaves the session as it was.

pub mod connect;
pub mod device;
pub mod disconnect;
pub mod error;
pub mod gatt;
pub mod init;
pub mod laws;
pub mod protocol;
pub mod scan;
pub mod session;
pub mod status;
pub mod transfer;
pub mod uuid_text;
