//! The decisions of the `lumid` server: which page answers a request.
use crate::protocol::uri::{parse_uri, LumiUri, UriParts};
use crate::text::same_text;
use vstd::prelude::*;

verus! {

/// The pages that the server holds.
#[derive(Debug, Clone, Copy, PartialEq, Eq, Structural)]
pub enum DefaultPage {
    Welcome,
    Search,
    Docs,
    Chat,
    Gallery,
    Games,
    Wiki,
}

/// The page that answers for a host; unknown hosts get the welcome page.
pub open spec fn page_for_host(host: Seq<char>) -> DefaultPage {
    if host == "welcome.lumi"@ || host == "welcome.home"@ {
        DefaultPage::Welcome
    } else if host == "search.lumi"@ || host == "search.home"@ {
        DefaultPage::Search
    } else if host == "docs.lumi"@ || host == "docs.home"@ {
        DefaultPage::Docs
    } else if host == "chat.lumi"@ || host == "chat.home"@ {
        DefaultPage::Chat
    } else if host == "gallery.lumi"@ || host == "gallery.home"@ {
        DefaultPage::Gallery
    } else if host == "games.lumi"@ {
        DefaultPage::Games
    } else if host == "wiki.lumi"@ {
        DefaultPage::Wiki
    } else {
        DefaultPage::Welcome
    }
}

/// The page that answers for `host`.
pub fn route_default_page(host: &str) -> (p: DefaultPage)
    ensures
        p == page_for_host(host@),
{
    if same_text(host, "welcome.lumi") || same_text(host, "welcome.home") {
        DefaultPage::Welcome
    } else if same_text(host, "search.lumi") || same_text(host, "search.home") {
        DefaultPage::Search
    } else if same_text(host, "docs.lumi") || same_text(host, "docs.home") {
        DefaultPage::Docs
    } else if same_text(host, "chat.lumi") || same_text(host, "chat.home") {
        DefaultPage::Chat
    } else if same_text(host, "gallery.lumi") || same_text(host, "gallery.home") {
        DefaultPage::Gallery
    } else if same_text(host, "games.lumi") {
        DefaultPage::Games
    } else if same_text(host, "wiki.lumi") {
        DefaultPage::Wiki
    } else {
        DefaultPage::Welcome
    }
}

/// Whether a page is written in Markdown; the others are LumiML.
pub open spec fn page_is_markdown(p: DefaultPage) -> bool {
    match p {
        DefaultPage::Chat | DefaultPage::Gallery | DefaultPage::Games => false,
        _ => true,
    }
}

/// The title of a page's package.
pub open spec fn page_title(p: DefaultPage) -> Seq<char> {
    match p {
        DefaultPage::Welcome => "Welcome Portal"@,
        DefaultPage::Search => "Lumi Search"@,
        DefaultPage::Docs => "Docs"@,
        DefaultPage::Chat => "Encrypted Chat"@,
        DefaultPage::Gallery => "Gallery"@,
        DefaultPage::Games => "Lumi Arcade"@,
        DefaultPage::Wiki => "Lumi Wiki"@,
    }
}

impl DefaultPage {
    /// Whether the page is written in Markdown.
    pub fn is_markdown(&self) -> (b: bool)
        ensures
            b == page_is_markdown(*self),
    {
        match self {
            DefaultPage::Chat | DefaultPage::Gallery | DefaultPage::Games => false,
            _ => true,
        }
    }

    /// The title of the page's package.
    pub fn title(&self) -> (t: String)
        ensures
            t@ == page_title(*self),
    {
        match self {
            DefaultPage::Welcome => String::from_str("Welcome Portal"),
            DefaultPage::Search => String::from_str("Lumi Search"),
            DefaultPage::Docs => String::from_str("Docs"),
            DefaultPage::Chat => String::from_str("Encrypted Chat"),
            DefaultPage::Gallery => String::from_str("Gallery"),
            DefaultPage::Games => String::from_str("Lumi Arcade"),
            DefaultPage::Wiki => String::from_str("Lumi Wiki"),
        }
    }
}

/// The URI that a request names; a request whose URI cannot be read is
/// taken for the welcome page at `/`, on port 7878.
pub open spec fn request_target(uri: Seq<char>) -> UriParts {
    match parse_uri(uri) {
        Some(u) => u,
        None => UriParts { host: "welcome.lumi"@, port: 7878, path: "/"@ },
    }
}

/// The URI that a request names.
pub fn request_uri(uri: &str) -> (u: LumiUri)
    ensures
        u@ == request_target(uri@),
{
    match LumiUri::parse(uri) {
        Ok(u) => u,
        Err(_) => LumiUri {
            host: String::from_str("welcome.lumi"),
            port: 7878,
            path: String::from_str("/"),
        },
    }
}

/// What answers a request: the custom site, or one of the server's pages.
#[derive(Debug, Clone, Copy, PartialEq, Eq, Structural)]
pub enum Route {
    Custom,
    Default(DefaultPage),
}

/// A request for the custom site's domain gets the custom site; any other
/// gets the server's page for its host.
pub open spec fn route_for(host: Seq<char>, custom_domain: Option<Seq<char>>) -> Route {
    match custom_domain {
        Some(d) => if host == d {
            Route::Custom
        } else {
            Route::Default(page_for_host(host))
        },
        None => Route::Default(page_for_host(host)),
    }
}

/// What answers a request for `host`.
pub fn route_request(host: &str, custom_domain: Option<&String>) -> (r: Route)
    ensures
        r == route_for(
            host@,
            match custom_domain {
                Some(d) => Some(d@),
                None => None,
            },
        ),
{
    match custom_domain {
        Some(d) => if same_text(host, d.as_str()) {
            Route::Custom
        } else {
            Route::Default(route_default_page(host))
        },
        None => Route::Default(route_default_page(host)),
    }
}

/// The hosts that the server holds a page for.
pub open spec fn served_hosts() -> Seq<Seq<char>> {
    seq![
        "welcome.lumi"@,
        "welcome.home"@,
        "search.lumi"@,
        "search.home"@,
        "docs.lumi"@,
        "docs.home"@,
        "chat.lumi"@,
        "chat.home"@,
        "gallery.lumi"@,
        "gallery.home"@,
        "games.lumi"@,
        "wiki.lumi"@
    ]
}

proof fn lemma_served_hosts_distinct()
    ensures
        "welcome.home"@ != "welcome.lumi"@,
        "search.lumi"@ != "welcome.lumi"@,
        "search.lumi"@ != "welcome.home"@,
        "search.home"@ != "welcome.lumi"@,
        "search.home"@ != "welcome.home"@,
        "search.home"@ != "search.lumi"@,
        "docs.lumi"@ != "welcome.lumi"@,
        "docs.lumi"@ != "welcome.home"@,
        "docs.lumi"@ != "search.lumi"@,
        "docs.lumi"@ != "search.home"@,
        "docs.home"@ != "welcome.lumi"@,
        "docs.home"@ != "welcome.home"@,
        "docs.home"@ != "search.lumi"@,
        "docs.home"@ != "search.home"@,
        "docs.home"@ != "docs.lumi"@,
        "chat.lumi"@ != "welcome.lumi"@,
        "chat.lumi"@ != "welcome.home"@,
        "chat.lumi"@ != "search.lumi"@,
        "chat.lumi"@ != "search.home"@,
        "chat.lumi"@ != "docs.lumi"@,
        "chat.lumi"@ != "docs.home"@,
        "chat.home"@ != "welcome.lumi"@,
        "chat.home"@ != "welcome.home"@,
        "chat.home"@ != "search.lumi"@,
        "chat.home"@ != "search.home"@,
        "chat.home"@ != "docs.lumi"@,
        "chat.home"@ != "docs.home"@,
        "chat.home"@ != "chat.lumi"@,
        "gallery.lumi"@ != "welcome.lumi"@,
        "gallery.lumi"@ != "welcome.home"@,
        "gallery.lumi"@ != "search.lumi"@,
        "gallery.lumi"@ != "search.home"@,
        "gallery.lumi"@ != "docs.lumi"@,
        "gallery.lumi"@ != "docs.home"@,
        "gallery.lumi"@ != "chat.lumi"@,
        "gallery.lumi"@ != "chat.home"@,
        "gallery.home"@ != "welcome.lumi"@,
        "gallery.home"@ != "welcome.home"@,
        "gallery.home"@ != "search.lumi"@,
        "gallery.home"@ != "search.home"@,
        "gallery.home"@ != "docs.lumi"@,
        "gallery.home"@ != "docs.home"@,
        "gallery.home"@ != "chat.lumi"@,
        "gallery.home"@ != "chat.home"@,
        "gallery.home"@ != "gallery.lumi"@,
        "games.lumi"@ != "welcome.lumi"@,
        "games.lumi"@ != "welcome.home"@,
        "games.lumi"@ != "search.lumi"@,
        "games.lumi"@ != "search.home"@,
        "games.lumi"@ != "docs.lumi"@,
        "games.lumi"@ != "docs.home"@,
        "games.lumi"@ != "chat.lumi"@,
        "games.lumi"@ != "chat.home"@,
        "games.lumi"@ != "gallery.lumi"@,
        "games.lumi"@ != "gallery.home"@,
        "wiki.lumi"@ != "welcome.lumi"@,
        "wiki.lumi"@ != "welcome.home"@,
        "wiki.lumi"@ != "search.lumi"@,
        "wiki.lumi"@ != "search.home"@,
        "wiki.lumi"@ != "docs.lumi"@,
        "wiki.lumi"@ != "docs.home"@,
        "wiki.lumi"@ != "chat.lumi"@,
        "wiki.lumi"@ != "chat.home"@,
        "wiki.lumi"@ != "gallery.lumi"@,
        "wiki.lumi"@ != "gallery.home"@,
        "wiki.lumi"@ != "games.lumi"@,
{
    reveal_strlit("welcome.lumi");
    reveal_strlit("welcome.home");
    reveal_strlit("search.lumi");
    reveal_strlit("search.home");
    reveal_strlit("docs.lumi");
    reveal_strlit("docs.home");
    reveal_strlit("chat.lumi");
    reveal_strlit("chat.home");
    reveal_strlit("gallery.lumi");
    reveal_strlit("gallery.home");
    reveal_strlit("games.lumi");
    reveal_strlit("wiki.lumi");
    assert("welcome.home"@[8] != "welcome.lumi"@[8]);
    assert("search.lumi"@.len() != "welcome.lumi"@.len());
    assert("search.lumi"@.len() != "welcome.home"@.len());
    assert("search.home"@.len() != "welcome.lumi"@.len());
    assert("search.home"@.len() != "welcome.home"@.len());
    assert("search.home"@[7] != "search.lumi"@[7]);
    assert("docs.lumi"@.len() != "welcome.lumi"@.len());
    assert("docs.lumi"@.len() != "welcome.home"@.len());
    assert("docs.lumi"@.len() != "search.lumi"@.len());
    assert("docs.lumi"@.len() != "search.home"@.len());
    assert("docs.home"@.len() != "welcome.lumi"@.len());
    assert("docs.home"@.len() != "welcome.home"@.len());
    assert("docs.home"@.len() != "search.lumi"@.len());
    assert("docs.home"@.len() != "search.home"@.len());
    assert("docs.home"@[5] != "docs.lumi"@[5]);
    assert("chat.lumi"@.len() != "welcome.lumi"@.len());
    assert("chat.lumi"@.len() != "welcome.home"@.len());
    assert("chat.lumi"@.len() != "search.lumi"@.len());
    assert("chat.lumi"@.len() != "search.home"@.len());
    assert("chat.lumi"@[0] != "docs.lumi"@[0]);
    assert("chat.lumi"@[0] != "docs.home"@[0]);
    assert("chat.home"@.len() != "welcome.lumi"@.len());
    assert("chat.home"@.len() != "welcome.home"@.len());
    assert("chat.home"@.len() != "search.lumi"@.len());
    assert("chat.home"@.len() != "search.home"@.len());
    assert("chat.home"@[0] != "docs.lumi"@[0]);
    assert("chat.home"@[0] != "docs.home"@[0]);
    assert("chat.home"@[5] != "chat.lumi"@[5]);
    assert("gallery.lumi"@[0] != "welcome.lumi"@[0]);
    assert("gallery.lumi"@[0] != "welcome.home"@[0]);
    assert("gallery.lumi"@.len() != "search.lumi"@.len());
    assert("gallery.lumi"@.len() != "search.home"@.len());
    assert("gallery.lumi"@.len() != "docs.lumi"@.len());
    assert("gallery.lumi"@.len() != "docs.home"@.len());
    assert("gallery.lumi"@.len() != "chat.lumi"@.len());
    assert("gallery.lumi"@.len() != "chat.home"@.len());
    assert("gallery.home"@[0] != "welcome.lumi"@[0]);
    assert("gallery.home"@[0] != "welcome.home"@[0]);
    assert("gallery.home"@.len() != "search.lumi"@.len());
    assert("gallery.home"@.len() != "search.home"@.len());
    assert("gallery.home"@.len() != "docs.lumi"@.len());
    assert("gallery.home"@.len() != "docs.home"@.len());
    assert("gallery.home"@.len() != "chat.lumi"@.len());
    assert("gallery.home"@.len() != "chat.home"@.len());
    assert("gallery.home"@[8] != "gallery.lumi"@[8]);
    assert("games.lumi"@.len() != "welcome.lumi"@.len());
    assert("games.lumi"@.len() != "welcome.home"@.len());
    assert("games.lumi"@.len() != "search.lumi"@.len());
    assert("games.lumi"@.len() != "search.home"@.len());
    assert("games.lumi"@.len() != "docs.lumi"@.len());
    assert("games.lumi"@.len() != "docs.home"@.len());
    assert("games.lumi"@.len() != "chat.lumi"@.len());
    assert("games.lumi"@.len() != "chat.home"@.len());
    assert("games.lumi"@.len() != "gallery.lumi"@.len());
    assert("games.lumi"@.len() != "gallery.home"@.len());
    assert("wiki.lumi"@.len() != "welcome.lumi"@.len());
    assert("wiki.lumi"@.len() != "welcome.home"@.len());
    assert("wiki.lumi"@.len() != "search.lumi"@.len());
    assert("wiki.lumi"@.len() != "search.home"@.len());
    assert("wiki.lumi"@[0] != "docs.lumi"@[0]);
    assert("wiki.lumi"@[0] != "docs.home"@[0]);
    assert("wiki.lumi"@[0] != "chat.lumi"@[0]);
    assert("wiki.lumi"@[0] != "chat.home"@[0]);
    assert("wiki.lumi"@.len() != "gallery.lumi"@.len());
    assert("wiki.lumi"@.len() != "gallery.home"@.len());
    assert("wiki.lumi"@.len() != "games.lumi"@.len());
}

/// Every host that the server holds a page for is answered with that
/// page, without a custom site and with one for another domain.
pub proof fn law_hosts_get_their_pages(other: Seq<char>)
    requires
        !served_hosts().contains(other),
    ensures
        page_for_host("welcome.lumi"@) == DefaultPage::Welcome,
        route_for("welcome.lumi"@, None) == Route::Default(DefaultPage::Welcome),
        route_for("welcome.lumi"@, Some(other)) == Route::Default(DefaultPage::Welcome),
        page_for_host("welcome.home"@) == DefaultPage::Welcome,
        route_for("welcome.home"@, None) == Route::Default(DefaultPage::Welcome),
        route_for("welcome.home"@, Some(other)) == Route::Default(DefaultPage::Welcome),
        page_for_host("search.lumi"@) == DefaultPage::Search,
        route_for("search.lumi"@, None) == Route::Default(DefaultPage::Search),
        route_for("search.lumi"@, Some(other)) == Route::Default(DefaultPage::Search),
        page_for_host("search.home"@) == DefaultPage::Search,
        route_for("search.home"@, None) == Route::Default(DefaultPage::Search),
        route_for("search.home"@, Some(other)) == Route::Default(DefaultPage::Search),
        page_for_host("docs.lumi"@) == DefaultPage::Docs,
        route_for("docs.lumi"@, None) == Route::Default(DefaultPage::Docs),
        route_for("docs.lumi"@, Some(other)) == Route::Default(DefaultPage::Docs),
        page_for_host("docs.home"@) == DefaultPage::Docs,
        route_for("docs.home"@, None) == Route::Default(DefaultPage::Docs),
        route_for("docs.home"@, Some(other)) == Route::Default(DefaultPage::Docs),
        page_for_host("chat.lumi"@) == DefaultPage::Chat,
        route_for("chat.lumi"@, None) == Route::Default(DefaultPage::Chat),
        route_for("chat.lumi"@, Some(other)) == Route::Default(DefaultPage::Chat),
        page_for_host("chat.home"@) == DefaultPage::Chat,
        route_for("chat.home"@, None) == Route::Default(DefaultPage::Chat),
        route_for("chat.home"@, Some(other)) == Route::Default(DefaultPage::Chat),
        page_for_host("gallery.lumi"@) == DefaultPage::Gallery,
        route_for("gallery.lumi"@, None) == Route::Default(DefaultPage::Gallery),
        route_for("gallery.lumi"@, Some(other)) == Route::Default(DefaultPage::Gallery),
        page_for_host("gallery.home"@) == DefaultPage::Gallery,
        route_for("gallery.home"@, None) == Route::Default(DefaultPage::Gallery),
        route_for("gallery.home"@, Some(other)) == Route::Default(DefaultPage::Gallery),
        page_for_host("games.lumi"@) == DefaultPage::Games,
        route_for("games.lumi"@, None) == Route::Default(DefaultPage::Games),
        route_for("games.lumi"@, Some(other)) == Route::Default(DefaultPage::Games),
        page_for_host("wiki.lumi"@) == DefaultPage::Wiki,
        route_for("wiki.lumi"@, None) == Route::Default(DefaultPage::Wiki),
        route_for("wiki.lumi"@, Some(other)) == Route::Default(DefaultPage::Wiki),
{
    reveal_strlit("welcome.lumi");
    reveal_strlit("welcome.home");
    reveal_strlit("search.lumi");
    reveal_strlit("search.home");
    reveal_strlit("docs.lumi");
    reveal_strlit("docs.home");
    reveal_strlit("chat.lumi");
    reveal_strlit("chat.home");
    reveal_strlit("gallery.lumi");
    reveal_strlit("gallery.home");
    reveal_strlit("games.lumi");
    reveal_strlit("wiki.lumi");
    lemma_served_hosts_distinct();
    law_unknown_hosts_get_welcome(other);
    assert("welcome.lumi"@ != other) by { assert(served_hosts()[0] == "welcome.lumi"@); }
    assert("welcome.home"@ != other) by { assert(served_hosts()[1] == "welcome.home"@); }
    assert("search.lumi"@ != other) by { assert(served_hosts()[2] == "search.lumi"@); }
    assert("search.home"@ != other) by { assert(served_hosts()[3] == "search.home"@); }
    assert("docs.lumi"@ != other) by { assert(served_hosts()[4] == "docs.lumi"@); }
    assert("docs.home"@ != other) by { assert(served_hosts()[5] == "docs.home"@); }
    assert("chat.lumi"@ != other) by { assert(served_hosts()[6] == "chat.lumi"@); }
    assert("chat.home"@ != other) by { assert(served_hosts()[7] == "chat.home"@); }
    assert("gallery.lumi"@ != other) by { assert(served_hosts()[8] == "gallery.lumi"@); }
    assert("gallery.home"@ != other) by { assert(served_hosts()[9] == "gallery.home"@); }
    assert("games.lumi"@ != other) by { assert(served_hosts()[10] == "games.lumi"@); }
    assert("wiki.lumi"@ != other) by { assert(served_hosts()[11] == "wiki.lumi"@); }
}

/// A host that the server holds no page for gets the welcome page.
pub proof fn law_unknown_hosts_get_welcome(host: Seq<char>)
    requires
        !served_hosts().contains(host),
    ensures
        page_for_host(host) == DefaultPage::Welcome,
        route_for(host, None) == Route::Default(DefaultPage::Welcome),
{
    reveal_strlit("welcome.lumi");
    reveal_strlit("welcome.home");
    reveal_strlit("search.lumi");
    reveal_strlit("search.home");
    reveal_strlit("docs.lumi");
    reveal_strlit("docs.home");
    reveal_strlit("chat.lumi");
    reveal_strlit("chat.home");
    reveal_strlit("gallery.lumi");
    reveal_strlit("gallery.home");
    reveal_strlit("games.lumi");
    reveal_strlit("wiki.lumi");
    assert(served_hosts()[0] == "welcome.lumi"@);
    assert(served_hosts()[1] == "welcome.home"@);
    assert(served_hosts()[2] == "search.lumi"@);
    assert(served_hosts()[3] == "search.home"@);
    assert(served_hosts()[4] == "docs.lumi"@);
    assert(served_hosts()[5] == "docs.home"@);
    assert(served_hosts()[6] == "chat.lumi"@);
    assert(served_hosts()[7] == "chat.home"@);
    assert(served_hosts()[8] == "gallery.lumi"@);
    assert(served_hosts()[9] == "gallery.home"@);
    assert(served_hosts()[10] == "games.lumi"@);
    assert(served_hosts()[11] == "wiki.lumi"@);
}

/// A request for the custom site's domain gets the custom site, and any
/// other request gets what it would get without one.
pub proof fn law_custom_domain(host: Seq<char>, domain: Seq<char>)
    ensures
        route_for(host, Some(domain)) == if host == domain {
            Route::Custom
        } else {
            route_for(host, None)
        },
{
}

} // verus!
