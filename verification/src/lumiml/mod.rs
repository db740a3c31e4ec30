//! LumiML, the markup language of Lumi pages.
pub mod model;
pub mod node;
pub mod parser;
