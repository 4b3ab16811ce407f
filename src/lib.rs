//! A verified core for a command-line remote-playback controller: argument
//! parsing, volume arithmetic, the device reconciliation cache, the
//! authorization life cycle and the credential store.
pub mod args;
pub mod auth;
pub mod device;
pub mod model;
pub mod playback;
pub mod store;
pub mod text;
