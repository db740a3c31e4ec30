//! The Lumi browser's state and its decisions.
pub mod extension;
pub mod state;
pub mod response;
pub mod navigation;
pub mod network;
pub mod session;
