//! Verified decision logic of a daemon that keeps the `awdl0` network
//! interface down while it runs and brings it back up when it exits.

pub mod error;
pub mod awdl_controller;
pub mod event;
pub mod daemon;
pub mod os_log;
pub mod laws;
