//! Surface Dial volume controller: the verified core.

pub mod cli;
pub mod clock;
pub mod config;
pub mod daemon;
pub mod hid;
pub mod input;
pub mod logging;
pub mod pidfile;
pub mod platform;
pub mod text;
