//! The files of a new Lumi site, as `lumi new` writes them.
use vstd::prelude::*;

verus! {

/// The manifest of a new site called `name`.
pub open spec fn manifest_text(name: Seq<char>) -> Seq<char> {
    "[package]\nname = \""@ + name + "\"\nversion = \"0.1.0\"\nentry = \"index.lml\"\n"@
}

/// The root document of a new site called `name`: a page titled with the
/// name, a badge, a welcome heading, a paragraph, a divider and a button
/// to the docs.
pub open spec fn index_text(name: Seq<char>) -> Seq<char> {
    "page {\n    title \""@ + name
        + "\"\n\n    badge {\n        text \"Powered by Lumi Ecosystem v0.2\"\n    }\n\n    heading {\n        text \"Welcome to "@
        + name
        + "\"\n    }\n\n    paragraph {\n        text \"This is your brand new privacy-first website built with LumiML.\"\n    }\n\n    divider {}\n\n    button {\n        text \"Explore Docs\"\n        goto \"lumi://docs.lumi\"\n    }\n}\n"@
}

/// The manifest of a new site called `name`.
pub fn site_manifest(name: &str) -> (r: String)
    ensures
        r@ == manifest_text(name@),
{
    let mut r = String::from_str("[package]\nname = \"");
    r.append(name);
    r.append("\"\nversion = \"0.1.0\"\nentry = \"index.lml\"\n");
    r
}

/// The root document of a new site called `name`.
pub fn site_index(name: &str) -> (r: String)
    ensures
        r@ == index_text(name@),
{
    let mut r = String::from_str("page {\n    title \"");
    r.append(name);
    r.append(
        "\"\n\n    badge {\n        text \"Powered by Lumi Ecosystem v0.2\"\n    }\n\n    heading {\n        text \"Welcome to ",
    );
    r.append(name);
    r.append(
        "\"\n    }\n\n    paragraph {\n        text \"This is your brand new privacy-first website built with LumiML.\"\n    }\n\n    divider {}\n\n    button {\n        text \"Explore Docs\"\n        goto \"lumi://docs.lumi\"\n    }\n}\n",
    );
    r
}

} // verus!
