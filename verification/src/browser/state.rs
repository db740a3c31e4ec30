//! The browser's state: tabs, navigation history, bookmarks and the log,
//! and how navigation changes them. The window and the network live
//! outside; they receive the requests these functions return and hand back
//! the responses.
use super::extension::ExtensionRegistry;
use crate::lumiml::model::Tree;
use crate::lumiml::node::LumiNode;
use crate::text::same_text;
use vstd::prelude::*;

verus! {

/// What a tab shows.
#[derive(Debug)]
pub enum PageContent {
    LumiMl(LumiNode),
    Markdown(String),
}

/// The model of a page's content.
pub enum ContentView {
    LumiMl(Tree),
    Markdown(Seq<char>),
}

impl View for PageContent {
    type V = ContentView;

    open spec fn view(&self) -> ContentView {
        match self {
            PageContent::LumiMl(n) => ContentView::LumiMl(n@),
            PageContent::Markdown(s) => ContentView::Markdown(s@),
        }
    }
}

pub open spec fn opt_content(c: Option<PageContent>) -> Option<ContentView> {
    match c {
        Some(x) => Some(x@),
        None => None,
    }
}

pub open spec fn opt_chars(s: Option<String>) -> Option<Seq<char>> {
    match s {
        Some(x) => Some(x@),
        None => None,
    }
}

pub open spec fn texts(v: Seq<String>) -> Seq<Seq<char>> {
    Seq::new(v.len(), |i: int| v[i]@)
}

/// A browser tab.
#[derive(Debug)]
pub struct Tab {
    pub title: String,
    pub url: String,
    pub content: Option<PageContent>,
    pub raw_payload: String,
    pub error: Option<String>,
    pub history_back: Vec<String>,
    pub history_forward: Vec<String>,
}

/// The model of a tab.
pub struct TabView {
    pub title: Seq<char>,
    pub url: Seq<char>,
    pub content: Option<ContentView>,
    pub raw_payload: Seq<char>,
    pub error: Option<Seq<char>>,
    pub back: Seq<Seq<char>>,
    pub forward: Seq<Seq<char>>,
}

impl View for Tab {
    type V = TabView;

    open spec fn view(&self) -> TabView {
        TabView {
            title: self.title@,
            url: self.url@,
            content: opt_content(self.content),
            raw_payload: self.raw_payload@,
            error: opt_chars(self.error),
            back: texts(self.history_back@),
            forward: texts(self.history_forward@),
        }
    }
}

/// A fresh tab: titled `New Tab`, at `url`, with nothing loaded and no
/// history.
pub open spec fn fresh_tab(url: Seq<char>) -> TabView {
    TabView {
        title: "New Tab"@,
        url,
        content: None,
        raw_payload: Seq::empty(),
        error: None,
        back: Seq::empty(),
        forward: Seq::empty(),
    }
}

impl Tab {
    /// A tab at `url` with nothing loaded yet.
    pub fn new(url: &str) -> (t: Tab)
        ensures
            t@ == fresh_tab(url@),
    {
        let t = Tab {
            title: String::from_str("New Tab"),
            url: String::from_str(url),
            content: None,
            raw_payload: String::new(),
            error: None,
            history_back: Vec::new(),
            history_forward: Vec::new(),
        };
        assert(t@.back =~= Seq::<Seq<char>>::empty());
        assert(t@.forward =~= Seq::<Seq<char>>::empty());
        t
    }
}

/// A line of the browser's log.
#[derive(Debug)]
pub struct LogEntry {
    pub time: String,
    pub msg: String,
}

/// A request for the network: load `url` into the tab at the index.
pub type NavRequest = (usize, String);

/// The model of the browser.
pub struct AppView {
    pub tabs: Seq<TabView>,
    pub active_tab: int,
    pub url_input: Seq<char>,
    pub bookmarks: Seq<Seq<char>>,
    pub history: Seq<Seq<char>>,
    pub logs: Seq<Seq<char>>,
}

/// The browser: its tabs, bookmarks, history, log and panels.
pub struct LumiApp {
    pub tabs: Vec<Tab>,
    pub active_tab: usize,
    pub url_input: String,
    pub show_dev_console: bool,
    pub show_settings: bool,
    pub show_bookmarks: bool,
    pub show_history: bool,
    pub show_extensions: bool,
    pub bookmarks: Vec<String>,
    pub history: Vec<String>,
    pub logs: Vec<LogEntry>,
    pub extensions: ExtensionRegistry,
}

/// The most lines the log keeps before it drops its oldest.
pub const LOG_LIMIT: usize = 100;

/// The time that every log line is stamped with.
pub open spec fn log_time() -> Seq<char> {
    "14:02"@
}

/// Every line of the log is stamped with `log_time`.
pub open spec fn log_times_fixed(v: Seq<LogEntry>) -> bool {
    forall|i: int| 0 <= i < v.len() ==> #[trigger] v[i].time@ == log_time()
}

pub open spec fn log_msgs(v: Seq<LogEntry>) -> Seq<Seq<char>> {
    Seq::new(v.len(), |i: int| v[i].msg@)
}

pub open spec fn tab_views(v: Seq<Tab>) -> Seq<TabView> {
    Seq::new(v.len(), |i: int| v[i]@)
}

impl View for LumiApp {
    type V = AppView;

    open spec fn view(&self) -> AppView {
        AppView {
            tabs: tab_views(self.tabs@),
            active_tab: self.active_tab as int,
            url_input: self.url_input@,
            bookmarks: texts(self.bookmarks@),
            history: texts(self.history@),
            logs: log_msgs(self.logs@),
        }
    }
}

/// The log after one more message: when it already holds more than
/// `LOG_LIMIT` lines, its oldest line goes.
pub open spec fn logged(logs: Seq<Seq<char>>, msg: Seq<char>) -> Seq<Seq<char>> {
    if logs.len() > LOG_LIMIT {
        logs.drop_first().push(msg)
    } else {
        logs.push(msg)
    }
}

/// The history after visiting `url`: each URL is recorded once, in the
/// order first visited.
pub open spec fn visited(history: Seq<Seq<char>>, url: Seq<char>) -> Seq<Seq<char>> {
    if history.contains(url) {
        history
    } else {
        history.push(url)
    }
}

/// A tab after navigating to `url`: the URL it leaves goes on its back
/// history, which clears its forward history, unless it had no URL or
/// stays at the same one.
pub open spec fn tab_navigated(t: TabView, url: Seq<char>) -> TabView {
    if t.url.len() > 0 && t.url != url {
        TabView { back: t.back.push(t.url), forward: Seq::empty(), url, ..t }
    } else {
        TabView { url, ..t }
    }
}

pub open spec fn navigating_msg(url: Seq<char>) -> Seq<char> {
    "Navigating to "@ + url
}

/// The browser after navigating its active tab to `url`; a browser with
/// no tabs is left as it is.
pub open spec fn navigated(a: AppView, url: Seq<char>) -> AppView {
    if a.tabs.len() == 0 {
        a
    } else {
        AppView {
            tabs: a.tabs.update(a.active_tab, tab_navigated(a.tabs[a.active_tab], url)),
            url_input: url,
            history: visited(a.history, url),
            logs: logged(a.logs, navigating_msg(url)),
            ..a
        }
    }
}

pub open spec fn welcome_url() -> Seq<char> {
    "lumi://welcome.lumi"@
}

/// The bookmarks that the browser starts with.
pub open spec fn default_bookmarks() -> Seq<Seq<char>> {
    seq![
        "lumi://welcome.lumi"@,
        "lumi://search.lumi"@,
        "lumi://docs.lumi"@,
        "lumi://games.lumi"@,
        "lumi://wiki.lumi"@
    ]
}

pub open spec fn startup_msg() -> Seq<char> {
    "Lumi Browser v0.3 active (First Public Network + Search + RFC System)"@
}

fn push_text(v: &mut Vec<String>, s: &str)
    ensures
        texts(final(v)@) == texts(old(v)@).push(s@),
{
    v.push(String::from_str(s));
    assert(texts(final(v)@) =~= texts(old(v)@).push(s@));
}

impl LumiApp {
    /// Whether the two browsers show the same panels and extensions.
    pub open spec fn same_panels(&self, other: &LumiApp) -> bool {
        &&& self.show_dev_console == other.show_dev_console
        &&& self.show_settings == other.show_settings
        &&& self.show_bookmarks == other.show_bookmarks
        &&& self.show_history == other.show_history
        &&& self.show_extensions == other.show_extensions
        &&& self.extensions == other.extensions
    }

    /// Whether the active tab is one of the tabs, or there are none.
    pub open spec fn wf(&self) -> bool {
        self.tabs@.len() == 0 || self.active_tab < self.tabs@.len()
    }

    /// A browser with one tab, which navigates to the welcome page; the
    /// request for that page comes with it.
    pub fn new() -> (r: (LumiApp, Option<NavRequest>))
        ensures
            r.0.wf(),
            r.0@ == navigated(
                AppView {
                    tabs: seq![fresh_tab(welcome_url())],
                    active_tab: 0,
                    url_input: welcome_url(),
                    bookmarks: default_bookmarks(),
                    history: Seq::empty(),
                    logs: seq![startup_msg()],
                },
                welcome_url(),
            ),
            r.1 matches Some(req) && req.0 == 0 && req.1@ == welcome_url(),
            !r.0.show_dev_console && !r.0.show_settings && !r.0.show_bookmarks
                && !r.0.show_history && !r.0.show_extensions,
            log_times_fixed(r.0.logs@),
    {
        let mut tabs: Vec<Tab> = Vec::new();
        tabs.push(Tab::new("lumi://welcome.lumi"));
        let mut bookmarks: Vec<String> = Vec::new();
        push_text(&mut bookmarks, "lumi://welcome.lumi");
        push_text(&mut bookmarks, "lumi://search.lumi");
        push_text(&mut bookmarks, "lumi://docs.lumi");
        push_text(&mut bookmarks, "lumi://games.lumi");
        push_text(&mut bookmarks, "lumi://wiki.lumi");
        let mut app = LumiApp {
            tabs,
            active_tab: 0,
            url_input: String::from_str("lumi://welcome.lumi"),
            show_dev_console: false,
            show_settings: false,
            show_bookmarks: false,
            show_history: false,
            show_extensions: false,
            bookmarks,
            history: Vec::new(),
            logs: Vec::new(),
            extensions: ExtensionRegistry::new(),
        };
        assert(app@.tabs =~= seq![fresh_tab(welcome_url())]);
        assert(app@.bookmarks =~= default_bookmarks());
        assert(app@.history =~= Seq::<Seq<char>>::empty());
        assert(app@.logs =~= Seq::<Seq<char>>::empty());
        app.log("Lumi Browser v0.3 active (First Public Network + Search + RFC System)");
        assert(app@.logs =~= seq![startup_msg()]);
        let req = app.navigate_current("lumi://welcome.lumi");
        (app, req)
    }

    /// Adds `msg` to the log, dropping the oldest line when the log already
    /// holds more than `LOG_LIMIT` lines.
    pub fn log(&mut self, msg: &str)
        ensures
            final(self)@ == (AppView { logs: logged(old(self)@.logs, msg@), ..old(self)@ }),
            final(self).logs@.last().time@ == log_time(),
            log_times_fixed(old(self).logs@) ==> log_times_fixed(final(self).logs@),
            final(self).tabs == old(self).tabs,
            final(self).active_tab == old(self).active_tab,
            final(self).same_panels(old(self)),
    {
        let ghost before = log_msgs(self.logs@);
        if self.logs.len() > LOG_LIMIT {
            self.logs.remove(0);
            assert(log_msgs(self.logs@) =~= before.drop_first());
        }
        let ghost mid = log_msgs(self.logs@);
        let ghost l0 = self.logs@;
        self.logs.push(LogEntry { time: String::from_str("14:02"), msg: String::from_str(msg) });
        assert(log_msgs(self.logs@) =~= mid.push(msg@));
        assert(self.logs@.drop_last() =~= l0);
    }

    fn history_contains(&self, url: &str) -> (r: bool)
        ensures
            r == self@.history.contains(url@),
    {
        let mut i: usize = 0;
        while i < self.history.len()
            invariant
                i <= self.history@.len(),
                forall|j: int| 0 <= j < i ==> self.history@[j]@ != url@,
            decreases self.history.len() - i,
        {
            if same_text(self.history[i].as_str(), url) {
                assert(self@.history[i as int] == url@);
                return true;
            }
            i = i + 1;
        }
        assert forall|j: int| 0 <= j < self@.history.len() implies self@.history[j] != url@ by {
            assert(self@.history[j] == self.history@[j]@);
        }
        false
    }

    /// Navigates the active tab to `url`, and returns the request that
    /// loads it; with no tabs nothing happens.
    pub fn navigate_current(&mut self, url: &str) -> (req: Option<NavRequest>)
        requires
            old(self).wf(),
        ensures
            final(self).wf(),
            final(self)@ == navigated(old(self)@, url@),
            final(self).tabs@.len() == old(self).tabs@.len(),
            final(self).same_panels(old(self)),
            match req {
                Some(r) => old(self).tabs@.len() > 0 && r.0 == old(self).active_tab && r.1@ == url@,
                None => old(self).tabs@.len() == 0,
            },
            old(self).tabs@.len() > 0 ==> final(self).logs@.last().time@ == log_time(),
            log_times_fixed(old(self).logs@) ==> log_times_fixed(final(self).logs@),
    {
        if self.tabs.len() == 0 {
            return None;
        }
        let i = self.active_tab;
        let ghost tabs0 = tab_views(self.tabs@);
        let mut tab = self.tabs.remove(i);
        if !tab.url.as_str().is_empty() && !same_text(tab.url.as_str(), url) {
            let ghost back0 = texts(tab.history_back@);
            let previous = tab.url.clone();
            tab.history_back.push(previous);
            assert(texts(tab.history_back@) =~= back0.push(tab@.url));
            tab.history_forward.clear();
            assert(texts(tab.history_forward@) =~= Seq::<Seq<char>>::empty());
        }
        tab.url = String::from_str(url);
        self.tabs.insert(i, tab);
        assert(tab_views(self.tabs@) =~= tabs0.update(i as int, tab_navigated(tabs0[i as int], url@)));
        self.url_input = String::from_str(url);
        if !self.history_contains(url) {
            let ghost h0 = self@.history;
            push_text(&mut self.history, url);
        }
        let mut msg = String::from_str("Navigating to ");
        msg.append(url);
        self.log(msg.as_str());
        Some((i, String::from_str(url)))
    }
}

} // verus!
