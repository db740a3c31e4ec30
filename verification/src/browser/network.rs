//! The decisions of the browser's network worker: where a URL is fetched
//! from, whether a new connection is needed, and what a response shows.
use super::response::{lossy_utf8, utf8_lossy};
use super::state::PageContent;
use crate::lumiml::model::parse_doc;
use crate::lumiml::parser::{parse, ParseError};
use crate::protocol::error::LmpError;
use crate::protocol::lns::{resolve_in, LnsResolver};
use crate::protocol::package::LumiPackage;
use crate::protocol::uri::{parse_uri, LumiUri, UriParts};
use crate::text::same_text;
use vstd::prelude::*;

verus! {

/// Where a URL is fetched from: the parsed URI and the address of its
/// host; or the message shown when it cannot be fetched.
pub open spec fn plan_for(records: Map<Seq<char>, Seq<char>>, url: Seq<char>) -> Result<
    (UriParts, Seq<char>),
    Seq<char>,
> {
    match parse_uri(url) {
        None => Err("Invalid URI format: "@ + LmpError::InvalidScheme.spec_message()),
        Some(u) => match resolve_in(records, u.host) {
            None => Err("LNS Resolution Error: "@ + "LNS resolution failed for host: "@ + u.host),
            Some(a) => Ok((u, a)),
        },
    }
}

/// Parses `url` and resolves its host.
pub fn plan_request(lns: &LnsResolver, url: &str) -> (r: Result<(LumiUri, String), String>)
    ensures
        match r {
            Ok((u, a)) => plan_for(lns@, url@) == Ok::<(UriParts, Seq<char>), Seq<char>>((u@, a@)),
            Err(m) => plan_for(lns@, url@) == Err::<(UriParts, Seq<char>), Seq<char>>(m@),
        },
{
    match LumiUri::parse(url) {
        Err(e) => {
            let mut m = String::from_str("Invalid URI format: ");
            m.append(e.message().as_str());
            Err(m)
        },
        Ok(u) => match lns.resolve(u.host.as_str()) {
            Err(e) => {
                let mut m = String::from_str("LNS Resolution Error: ");
                m.append(e.message().as_str());
                assert(m@ =~= "LNS Resolution Error: "@ + "LNS resolution failed for host: "@
                    + u@.host);
                Err(m)
            },
            Ok(a) => Ok((u, a)),
        },
    }
}

/// Whether a request for `resolved` needs a new connection: there is none,
/// or the one there is goes to another address.
pub fn needs_new_connection(current: Option<&String>, resolved: &str) -> (r: bool)
    ensures
        r == match current {
            Some(a) => a@ != resolved@,
            None => true,
        },
{
    match current {
        Some(a) => !same_text(a.as_str(), resolved),
        None => true,
    }
}

/// How a response's payload is shown, by its content type.
#[derive(Debug, Clone, Copy, PartialEq, Eq, Structural)]
pub enum PayloadKind {
    Markdown,
    Package,
    LumiMl,
}

/// `text/markdown` is Markdown, `application/lpkg` a site package, and
/// anything else LumiML.
pub open spec fn kind_of_content_type(t: Seq<char>) -> PayloadKind {
    if t == "text/markdown"@ {
        PayloadKind::Markdown
    } else if t == "application/lpkg"@ {
        PayloadKind::Package
    } else {
        PayloadKind::LumiMl
    }
}

/// How a response with the given content type is shown.
pub fn payload_kind(content_type: &str) -> (k: PayloadKind)
    ensures
        k == kind_of_content_type(content_type@),
{
    if same_text(content_type, "text/markdown") {
        PayloadKind::Markdown
    } else if same_text(content_type, "application/lpkg") {
        PayloadKind::Package
    } else {
        PayloadKind::LumiMl
    }
}

/// A Markdown page from a payload, decoded as UTF-8.
pub fn markdown_content(payload: &[u8]) -> (c: PageContent)
    ensures
        c matches PageContent::Markdown(s) && s@ == lossy_utf8(payload@),
{
    PageContent::Markdown(utf8_lossy(payload))
}

/// What a LumiML document shows: the page, or the message of its parse
/// error.
pub open spec fn lumiml_outcome(src: Seq<char>, r: Result<PageContent, String>) -> bool {
    match r {
        Ok(c) => c matches PageContent::LumiMl(n) && parse_doc(src) == Ok::<
            crate::lumiml::model::Tree,
            crate::lumiml::model::Failure,
        >(n@),
        Err(m) => parse_doc(src) is Err && exists|e: ParseError|
            e@ == parse_doc(src)->Err_0 && m@ == "LumiML Parse Error: "@ + #[trigger] e.spec_message(),
    }
}

/// Parses a LumiML document for display.
pub fn lumiml_content(src: &str) -> (r: Result<PageContent, String>)
    requires
        src@.len() < usize::MAX,
    ensures
        lumiml_outcome(src@, r),
{
    match parse(src) {
        Ok(n) => Ok(PageContent::LumiMl(n)),
        Err(e) => {
            let mut m = String::from_str("LumiML Parse Error: ");
            m.append(e.message().as_str());
            Err(m)
        },
    }
}

/// Parses a LumiML payload, decoded as UTF-8, for display; `None` when the
/// decoded text has more characters than the parser can count.
pub fn lumiml_payload_content(payload: &[u8]) -> (r: Option<Result<PageContent, String>>)
    ensures
        match r {
            Some(c) => lumiml_outcome(lossy_utf8(payload@), c),
            None => lossy_utf8(payload@).len() >= usize::MAX,
        },
{
    let text = utf8_lossy(payload);
    if text.as_str().unicode_len() < usize::MAX {
        Some(lumiml_content(text.as_str()))
    } else {
        None
    }
}

/// What a site package shows: its root LumiML document; or, when the
/// package could not be unpacked, the message that says why.
pub fn package_content(pkg: Result<LumiPackage, LmpError>) -> (r: Result<PageContent, String>)
    requires
        pkg matches Ok(p) ==> p.index_lml@.len() < usize::MAX,
    ensures
        match pkg {
            Ok(p) => lumiml_outcome(p.index_lml@, r),
            Err(e) => r matches Err(m) && m@ == "Error unpacking .lpkg: "@ + e.spec_message(),
        },
{
    match pkg {
        Ok(p) => lumiml_content(p.index_lml.as_str()),
        Err(e) => {
            let mut m = String::from_str("Error unpacking .lpkg: ");
            m.append(e.message().as_str());
            Err(m)
        },
    }
}

} // verus!
