//! Profile bookkeeping and sleep coordination for a hardware-control daemon.
//!
//! The crate keeps named fan, keyboard and global profiles consistent under
//! rename and removal, and decides how control loops react to the operating
//! system's sleep transitions.

pub mod connection;
pub mod connection_state;
pub mod model;
pub mod profile;
pub mod store;
pub mod suspend;
