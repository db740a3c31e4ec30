//! Lumi site packages (`.lpkg`).
use std::collections::HashMap;
use vstd::prelude::*;

verus! {

/// A site package: its name, version, root LumiML document and assets.
#[derive(Debug, Clone)]
pub struct LumiPackage {
    pub name: String,
    pub version: String,
    pub index_lml: String,
    pub assets: HashMap<String, Vec<u8>>,
}

impl LumiPackage {
    /// A package at version `0.1.0` with the given name and root document
    /// and no assets.
    pub fn new(name: &str, index_lml: &str) -> (p: LumiPackage)
        ensures
            p.name@ == name@,
            p.version@ == "0.1.0"@,
            p.index_lml@ == index_lml@,
            p.assets@ == Map::<String, Vec<u8>>::empty(),
    {
        LumiPackage {
            name: String::from_str(name),
            version: String::from_str("0.1.0"),
            index_lml: String::from_str(index_lml),
            assets: HashMap::new(),
        }
    }
}

} // verus!
