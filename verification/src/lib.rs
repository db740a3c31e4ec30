//! LumiML documents, the LMP wire protocol, LNS name resolution and the
//! browser's page state, with contracts checked by Verus.
pub mod text;
pub mod lumiml;
pub mod protocol;
pub mod render;
pub mod browser;
pub mod server;
pub mod site;
