//! The Lumi protocol: URIs, name resolution, LMP frames and site packages.
pub mod error;
pub mod lns;
pub mod uri;
pub mod frame;
pub mod package;
pub mod certs;
