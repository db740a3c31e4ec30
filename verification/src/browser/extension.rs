//! Browser extensions (`.lpx`).
use vstd::prelude::*;

verus! {

/// What an extension declares about itself.
#[derive(Debug)]
pub struct ExtensionManifest {
    pub name: String,
    pub version: String,
    pub description: String,
    pub custom_css_theme: Option<String>,
}

/// The extensions installed in the browser.
#[derive(Debug)]
pub struct ExtensionRegistry {
    pub extensions: Vec<ExtensionManifest>,
}

impl ExtensionRegistry {
    /// The registry with the bundled CyberDark theme.
    pub fn new() -> (r: ExtensionRegistry)
        ensures
            r.extensions@.len() == 1,
            r.extensions@[0].name@ == "CyberDark Theme (.lpx)"@,
            r.extensions@[0].version@ == "1.0.0"@,
            r.extensions@[0].description@
                == "Applies high-contrast neon accents to LumiML containers."@,
            r.extensions@[0].custom_css_theme matches Some(t) && t@ == "cyberdark"@,
    {
        let mut extensions: Vec<ExtensionManifest> = Vec::new();
        extensions.push(
            ExtensionManifest {
                name: String::from_str("CyberDark Theme (.lpx)"),
                version: String::from_str("1.0.0"),
                description: String::from_str(
                    "Applies high-contrast neon accents to LumiML containers.",
                ),
                custom_css_theme: Some(String::from_str("cyberdark")),
            },
        );
        ExtensionRegistry { extensions }
    }
}

impl Default for ExtensionRegistry {
    /// The same registry as `new`.
    fn default() -> (r: Self)
        ensures
            r.extensions@.len() == 1,
            r.extensions@[0].name@ == "CyberDark Theme (.lpx)"@,
            r.extensions@[0].version@ == "1.0.0"@,
            r.extensions@[0].description@
                == "Applies high-contrast neon accents to LumiML containers."@,
            r.extensions@[0].custom_css_theme matches Some(t) && t@ == "cyberdark"@,
    {
        Self::new()
    }
}

} // verus!
