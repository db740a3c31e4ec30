//! Tabs and history: what the browser's buttons and address bar do.
use super::state::{
    fresh_tab, navigated, tab_views, texts, welcome_url, AppView, LumiApp, NavRequest, Tab,
    TabView,
};
use crate::text::chars_of;
use vstd::prelude::*;

verus! {

/// The browser after making the tab at `idx` the active one.
pub open spec fn selected(a: AppView, idx: int) -> AppView {
    AppView { active_tab: idx, url_input: a.tabs[idx].url, ..a }
}

/// The browser after closing the tab at `idx`; the last tab is never
/// closed. The active index stays where it was unless it has fallen off
/// the end, in which case the last tab becomes active.
pub open spec fn closed(a: AppView, idx: int) -> AppView {
    if a.tabs.len() > 1 && 0 <= idx < a.tabs.len() {
        let tabs = a.tabs.remove(idx);
        let act = if a.active_tab >= tabs.len() {
            tabs.len() - 1
        } else {
            a.active_tab
        };
        AppView { tabs, active_tab: act, url_input: tabs[act].url, ..a }
    } else {
        a
    }
}

/// The browser after opening a new tab on the welcome page.
pub open spec fn opened(a: AppView) -> AppView {
    navigated(
        AppView {
            tabs: a.tabs.push(fresh_tab(welcome_url())),
            active_tab: a.tabs.len() as int,
            ..a
        },
        welcome_url(),
    )
}

/// The browser after going back in the active tab: the URL it leaves goes
/// on its forward history.
pub open spec fn went_back(a: AppView) -> AppView {
    if 0 <= a.active_tab < a.tabs.len() && a.tabs[a.active_tab].back.len() > 0 {
        let t = a.tabs[a.active_tab];
        let prev = t.back.last();
        AppView {
            tabs: a.tabs.update(
                a.active_tab,
                TabView { back: t.back.drop_last(), forward: t.forward.push(t.url), url: prev, ..t },
            ),
            url_input: prev,
            ..a
        }
    } else {
        a
    }
}

/// The browser after going forward in the active tab: the URL it leaves
/// goes on its back history.
pub open spec fn went_forward(a: AppView) -> AppView {
    if 0 <= a.active_tab < a.tabs.len() && a.tabs[a.active_tab].forward.len() > 0 {
        let t = a.tabs[a.active_tab];
        let next = t.forward.last();
        AppView {
            tabs: a.tabs.update(
                a.active_tab,
                TabView { forward: t.forward.drop_last(), back: t.back.push(t.url), url: next, ..t },
            ),
            url_input: next,
            ..a
        }
    } else {
        a
    }
}

/// What the address bar navigates to: its text, with `lumi://` put in
/// front when it does not start with it.
pub open spec fn address_of(input: Seq<char>) -> Seq<char> {
    if input.len() >= 7 && input.take(7) == "lumi://"@ {
        input
    } else {
        "lumi://"@ + input
    }
}

impl LumiApp {
    /// Makes the tab at `idx` the active one.
    pub fn select_tab(&mut self, idx: usize)
        requires
            idx < old(self).tabs@.len(),
        ensures
            final(self).wf(),
            final(self)@ == selected(old(self)@, idx as int),
            final(self).same_panels(old(self)),
    {
        self.active_tab = idx;
        self.url_input = self.tabs[idx].url.clone();
    }

    /// Closes the tab at `idx`, unless it is the last tab.
    pub fn close_tab(&mut self, idx: usize)
        requires
            old(self).wf(),
        ensures
            final(self).wf(),
            final(self)@ == closed(old(self)@, idx as int),
            final(self).same_panels(old(self)),
    {
        if self.tabs.len() > 1 && idx < self.tabs.len() {
            let ghost tabs0 = tab_views(self.tabs@);
            self.tabs.remove(idx);
            assert(tab_views(self.tabs@) =~= tabs0.remove(idx as int));
            if self.active_tab >= self.tabs.len() {
                self.active_tab = self.tabs.len() - 1;
            }
            self.url_input = self.tabs[self.active_tab].url.clone();
        }
    }

    /// Opens a new tab on the welcome page, makes it active, and returns
    /// the request that loads it.
    pub fn new_tab(&mut self) -> (req: Option<NavRequest>)
        requires
            old(self).wf(),
            old(self).tabs@.len() < usize::MAX,
        ensures
            final(self).wf(),
            final(self)@ == opened(old(self)@),
            final(self).same_panels(old(self)),
            req matches Some(r) && r.0 == old(self).tabs@.len() && r.1@ == welcome_url(),
    {
        let ghost tabs0 = tab_views(self.tabs@);
        self.tabs.push(Tab::new("lumi://welcome.lumi"));
        assert(tab_views(self.tabs@) =~= tabs0.push(fresh_tab(welcome_url())));
        self.active_tab = self.tabs.len() - 1;
        self.navigate_current("lumi://welcome.lumi")
    }

    /// Goes back in the active tab, and returns the request that loads the
    /// page it goes back to; with no back history nothing happens.
    pub fn go_back(&mut self) -> (req: Option<NavRequest>)
        requires
            old(self).wf(),
        ensures
            final(self).wf(),
            final(self)@ == went_back(old(self)@),
            final(self).same_panels(old(self)),
            match req {
                Some(r) => r.0 == old(self).active_tab && r.1@ == final(self)@.url_input
                    && went_back(old(self)@) != old(self)@,
                None => went_back(old(self)@) == old(self)@,
            },
    {
        if self.active_tab >= self.tabs.len() || self.tabs[self.active_tab].history_back.len() == 0 {
            return None;
        }
        let i = self.active_tab;
        let ghost tabs0 = tab_views(self.tabs@);
        let mut tab = self.tabs.remove(i);
        let ghost t0 = tab@;
        let prev = tab.history_back.pop().unwrap();
        assert(texts(tab.history_back@) =~= t0.back.drop_last());
        let here = tab.url.clone();
        tab.history_forward.push(here);
        assert(texts(tab.history_forward@) =~= t0.forward.push(t0.url));
        tab.url = prev.clone();
        self.tabs.insert(i, tab);
        assert(tab_views(self.tabs@) =~= went_back(old(self)@).tabs);
        self.url_input = prev.clone();
        proof {
            if went_back(old(self)@) == old(self)@ {
                assert(went_back(old(self)@).tabs[i as int].back.len() == t0.back.len() - 1);
            }
        }
        Some((i, prev))
    }

    /// Goes forward in the active tab, and returns the request that loads
    /// the page it goes forward to; with no forward history nothing
    /// happens.
    pub fn go_forward(&mut self) -> (req: Option<NavRequest>)
        requires
            old(self).wf(),
        ensures
            final(self).wf(),
            final(self)@ == went_forward(old(self)@),
            final(self).same_panels(old(self)),
            match req {
                Some(r) => r.0 == old(self).active_tab && r.1@ == final(self)@.url_input
                    && went_forward(old(self)@) != old(self)@,
                None => went_forward(old(self)@) == old(self)@,
            },
    {
        if self.active_tab >= self.tabs.len() || self.tabs[self.active_tab].history_forward.len()
            == 0 {
            return None;
        }
        let i = self.active_tab;
        let ghost tabs0 = tab_views(self.tabs@);
        let mut tab = self.tabs.remove(i);
        let ghost t0 = tab@;
        let next = tab.history_forward.pop().unwrap();
        assert(texts(tab.history_forward@) =~= t0.forward.drop_last());
        let here = tab.url.clone();
        tab.history_back.push(here);
        assert(texts(tab.history_back@) =~= t0.back.push(t0.url));
        tab.url = next.clone();
        self.tabs.insert(i, tab);
        assert(tab_views(self.tabs@) =~= went_forward(old(self)@).tabs);
        self.url_input = next.clone();
        proof {
            if went_forward(old(self)@) == old(self)@ {
                assert(went_forward(old(self)@).tabs[i as int].forward.len() == t0.forward.len() - 1);
            }
        }
        Some((i, next))
    }

    /// Loads the active tab's page again, and returns the request.
    pub fn reload(&mut self) -> (req: Option<NavRequest>)
        requires
            old(self).wf(),
            old(self).tabs@.len() > 0,
        ensures
            final(self).wf(),
            final(self)@ == navigated(old(self)@, old(self)@.tabs[old(self).active_tab as int].url),
            final(self).same_panels(old(self)),
            req matches Some(r) && r.0 == old(self).active_tab && r.1@ == old(
                self,
            )@.tabs[old(self).active_tab as int].url,
    {
        let url = self.tabs[self.active_tab].url.clone();
        self.navigate_current(url.as_str())
    }

    /// Navigates to what the address bar holds, and returns the request.
    pub fn submit_address(&mut self) -> (req: Option<NavRequest>)
        requires
            old(self).wf(),
        ensures
            final(self).wf(),
            final(self)@ == navigated(old(self)@, address_of(old(self)@.url_input)),
            final(self).same_panels(old(self)),
            match req {
                Some(r) => old(self).tabs@.len() > 0 && r.0 == old(self).active_tab && r.1@
                    == address_of(old(self)@.url_input),
                None => old(self).tabs@.len() == 0,
            },
    {
        let v = chars_of(self.url_input.as_str());
        let has_scheme = v.len() >= 7 && v[0] == 'l' && v[1] == 'u' && v[2] == 'm' && v[3] == 'i'
            && v[4] == ':' && v[5] == '/' && v[6] == '/';
        proof {
            reveal_strlit("lumi://");
            if v@.len() >= 7 {
                if has_scheme {
                    assert(v@.take(7) =~= "lumi://"@);
                } else if v@.take(7) == "lumi://"@ {
                    assert(v@.take(7)[0] == 'l');
                    assert(v@.take(7)[1] == 'u');
                    assert(v@.take(7)[2] == 'm');
                    assert(v@.take(7)[3] == 'i');
                    assert(v@.take(7)[4] == ':');
                    assert(v@.take(7)[5] == '/');
                    assert(v@.take(7)[6] == '/');
                }
            }
        }
        let mut url = String::from_str("lumi://");
        if has_scheme {
            url = self.url_input.clone();
        } else {
            url.append(self.url_input.as_str());
        }
        self.navigate_current(url.as_str())
    }
}

/// What the user does in the browser window: clicks a tab, its close
/// button, the new-tab, back, forward or reload button, presses Enter in
/// the address bar, or follows a bookmark, a history entry or a link.
#[derive(Debug)]
pub enum UiEvent {
    SelectTab(usize),
    CloseTab(usize),
    NewTab,
    Back,
    Forward,
    Reload,
    SubmitAddress,
    Navigate(String),
}

/// The browser after one event. A click on a tab that is not there, a new
/// tab when no more can be counted, or a reload with no tab, does nothing.
pub open spec fn on_event(a: AppView, ev: UiEvent) -> AppView {
    match ev {
        UiEvent::SelectTab(i) => if i < a.tabs.len() {
            selected(a, i as int)
        } else {
            a
        },
        UiEvent::CloseTab(i) => closed(a, i as int),
        UiEvent::NewTab => if a.tabs.len() < usize::MAX {
            opened(a)
        } else {
            a
        },
        UiEvent::Back => went_back(a),
        UiEvent::Forward => went_forward(a),
        UiEvent::Reload => if a.tabs.len() > 0 {
            navigated(a, a.tabs[a.active_tab].url)
        } else {
            a
        },
        UiEvent::SubmitAddress => navigated(a, address_of(a.url_input)),
        UiEvent::Navigate(u) => navigated(a, u@),
    }
}

/// A request as the tab index and URL it loads.
pub open spec fn request_view(req: Option<NavRequest>) -> Option<(int, Seq<char>)> {
    match req {
        Some(r) => Some((r.0 as int, r.1@)),
        None => None,
    }
}

/// The request that one event sends: back and forward load the page they
/// move to when there is one; a new tab loads the welcome page; reload,
/// the address bar and a followed link load their URL into the active
/// tab when there is a tab; selecting or closing a tab loads nothing.
pub open spec fn event_request(a: AppView, ev: UiEvent) -> Option<(int, Seq<char>)> {
    match ev {
        UiEvent::SelectTab(_) => None,
        UiEvent::CloseTab(_) => None,
        UiEvent::NewTab => if a.tabs.len() < usize::MAX {
            Some((a.tabs.len() as int, welcome_url()))
        } else {
            None
        },
        UiEvent::Back => if went_back(a) != a {
            Some((a.active_tab, went_back(a).url_input))
        } else {
            None
        },
        UiEvent::Forward => if went_forward(a) != a {
            Some((a.active_tab, went_forward(a).url_input))
        } else {
            None
        },
        UiEvent::Reload => if a.tabs.len() > 0 {
            Some((a.active_tab, a.tabs[a.active_tab].url))
        } else {
            None
        },
        UiEvent::SubmitAddress => if a.tabs.len() > 0 {
            Some((a.active_tab, address_of(a.url_input)))
        } else {
            None
        },
        UiEvent::Navigate(u) => if a.tabs.len() > 0 {
            Some((a.active_tab, u@))
        } else {
            None
        },
    }
}

/// The browser after the events of one frame, in order.
pub open spec fn after_events(a: AppView, evs: Seq<UiEvent>) -> AppView
    decreases evs.len(),
{
    if evs.len() == 0 {
        a
    } else {
        on_event(after_events(a, evs.drop_last()), evs.last())
    }
}

/// The browser has a tab, and its active tab is one of its tabs.
pub open spec fn has_active_tab(a: AppView) -> bool {
    a.tabs.len() >= 1 && 0 <= a.active_tab < a.tabs.len()
}

impl LumiApp {
    /// Whether a request, if there is one, loads the URL that the active
    /// tab now shows into that tab.
    pub open spec fn loads_shown_page(&self, req: Option<NavRequest>) -> bool {
        req matches Some(r) ==> r.0 == self.active_tab && r.0 < self.tabs@.len() && r.1@
            == self@.tabs[r.0 as int].url
    }

    /// Does what one event asks, and returns the request that loads the
    /// page it leads to, if any: that request is for the active tab and
    /// the URL it now shows.
    pub fn handle_event(&mut self, ev: UiEvent) -> (req: Option<NavRequest>)
        requires
            old(self).wf(),
        ensures
            final(self).wf(),
            final(self)@ == on_event(old(self)@, ev),
            final(self).same_panels(old(self)),
            has_active_tab(old(self)@) ==> has_active_tab(final(self)@),
            request_view(req) == event_request(old(self)@, ev),
            final(self).loads_shown_page(req),
    {
        match ev {
            UiEvent::SelectTab(i) => {
                if i < self.tabs.len() {
                    self.select_tab(i);
                }
                None
            },
            UiEvent::CloseTab(i) => {
                self.close_tab(i);
                None
            },
            UiEvent::NewTab => {
                if self.tabs.len() < usize::MAX {
                    let r = self.new_tab();
                    assert(self.active_tab == old(self).tabs@.len());
                    assert(self@.tabs[self.active_tab as int].url == welcome_url());
                    assert(self.tabs@.len() == self@.tabs.len());
                    assert(self.loads_shown_page(r));
                    r
                } else {
                    None
                }
            },
            UiEvent::Back => {
                let r = self.go_back();
                assert(r is Some ==> self@.url_input == self@.tabs[self.active_tab as int].url);
                assert(self.tabs@.len() == self@.tabs.len());
                assert(self.active_tab == old(self).active_tab);
                assert(self.loads_shown_page(r));
                r
            },
            UiEvent::Forward => {
                let r = self.go_forward();
                assert(r is Some ==> self@.url_input == self@.tabs[self.active_tab as int].url);
                assert(self.tabs@.len() == self@.tabs.len());
                assert(self.active_tab == old(self).active_tab);
                assert(self.loads_shown_page(r));
                r
            },
            UiEvent::Reload => {
                if self.tabs.len() > 0 {
                    let r = self.reload();
                    assert(self@.tabs[self.active_tab as int].url == old(self)@.tabs[old(
                        self,
                    ).active_tab as int].url);
                    assert(self.tabs@.len() == self@.tabs.len());
                    assert(self.active_tab == old(self).active_tab);
                    assert(self.loads_shown_page(r));
                    r
                } else {
                    None
                }
            },
            UiEvent::SubmitAddress => {
                let r = self.submit_address();
                assert(r is Some ==> self@.tabs[self.active_tab as int].url == address_of(
                    old(self)@.url_input,
                ));
                assert(self.tabs@.len() == self@.tabs.len());
                assert(self.active_tab == old(self).active_tab);
                assert(self.loads_shown_page(r));
                r
            },
            UiEvent::Navigate(url) => {
                let r = self.navigate_current(url.as_str());
                assert(r is Some ==> self@.tabs[self.active_tab as int].url == url@);
                assert(self.tabs@.len() == self@.tabs.len());
                assert(self.active_tab == old(self).active_tab);
                assert(self.loads_shown_page(r));
                r
            },
        }
    }
}

/// Whatever the user does in a frame, a browser that has an active tab
/// still has one afterwards: the last tab is never closed, and every
/// event leaves the active index on one of the tabs.
pub proof fn law_events_keep_active_tab(a: AppView, evs: Seq<UiEvent>)
    requires
        has_active_tab(a),
    ensures
        has_active_tab(after_events(a, evs)),
    decreases evs.len(),
{
    if evs.len() > 0 {
        law_events_keep_active_tab(a, evs.drop_last());
        let b = after_events(a, evs.drop_last());
        assert(has_active_tab(on_event(b, evs.last())));
    }
}

// ---------------------------------------------------------------------
// Laws of navigation.
// ---------------------------------------------------------------------
/// Going back and then forward returns the active tab to the page, back
/// history and forward history it had, and the address bar shows that
/// page.
pub proof fn law_back_then_forward(a: AppView)
    requires
        0 <= a.active_tab < a.tabs.len(),
        a.tabs[a.active_tab].back.len() > 0,
    ensures
        went_forward(went_back(a)).tabs == a.tabs,
        went_forward(went_back(a)).url_input == a.tabs[a.active_tab].url,
{
    let t = a.tabs[a.active_tab];
    let b = went_back(a);
    let t1 = b.tabs[a.active_tab];
    assert(t1.forward.last() == t.url);
    assert(t1.forward.drop_last() =~= t.forward);
    assert(t1.back.push(t1.url) =~= t.back);
    assert(went_forward(b).tabs =~= a.tabs);
}

/// Clicking back and then forward sends two requests for the active tab:
/// first for the page it goes back to, then for the page it started on.
pub proof fn law_back_then_forward_requests(a: AppView)
    requires
        0 <= a.active_tab < a.tabs.len(),
        a.tabs[a.active_tab].back.len() > 0,
    ensures
        event_request(a, UiEvent::Back) == Some((a.active_tab, a.tabs[a.active_tab].back.last())),
        event_request(on_event(a, UiEvent::Back), UiEvent::Forward) == Some(
            (a.active_tab, a.tabs[a.active_tab].url),
        ),
{
    let t = a.tabs[a.active_tab];
    let b = went_back(a);
    assert(b.tabs[a.active_tab].back.len() == t.back.len() - 1);
    assert(b != a);
    let t1 = b.tabs[a.active_tab];
    assert(t1.forward.last() == t.url);
    assert(went_forward(b).tabs[a.active_tab].forward.len() == t1.forward.len() - 1);
    assert(went_forward(b) != b);
}

/// Closing a tab other than the last one removes exactly that tab and
/// keeps the order of the others; the active index stays as it was while
/// it still names a tab, and otherwise moves to the new last tab; the
/// address bar shows the active tab's URL. Closing the only tab, or a tab
/// that is not there, changes nothing.
pub proof fn law_close_tab(a: AppView, idx: int)
    requires
        0 <= a.active_tab < a.tabs.len(),
    ensures
        ({
            let b = closed(a, idx);
            &&& (a.tabs.len() > 1 && 0 <= idx < a.tabs.len()) ==> {
                &&& b.tabs.len() == a.tabs.len() - 1
                &&& forall|j: int| 0 <= j < idx ==> b.tabs[j] == a.tabs[j]
                &&& forall|j: int| idx <= j < b.tabs.len() ==> b.tabs[j] == a.tabs[j + 1]
                &&& a.active_tab < a.tabs.len() - 1 ==> b.active_tab == a.active_tab
                &&& a.active_tab == a.tabs.len() - 1 ==> b.active_tab == a.tabs.len() - 2
                &&& b.url_input == b.tabs[b.active_tab].url
                &&& b.history == a.history && b.bookmarks == a.bookmarks && b.logs == a.logs
            }
            &&& !(a.tabs.len() > 1 && 0 <= idx < a.tabs.len()) ==> b == a
        }),
{
}

/// Going forward and then back returns the active tab to the page and
/// histories it had.
pub proof fn law_forward_then_back(a: AppView)
    requires
        0 <= a.active_tab < a.tabs.len(),
        a.tabs[a.active_tab].forward.len() > 0,
    ensures
        went_back(went_forward(a)).tabs == a.tabs,
        went_back(went_forward(a)).url_input == a.tabs[a.active_tab].url,
{
    let t = a.tabs[a.active_tab];
    let f = went_forward(a);
    let t1 = f.tabs[a.active_tab];
    assert(t1.back.last() == t.url);
    assert(t1.back.drop_last() =~= t.back);
    assert(t1.forward.push(t1.url) =~= t.forward);
    assert(went_back(f).tabs =~= a.tabs);
}

/// After navigating the active tab away from a page to another one, going
/// back returns to the page it left, and the page it came from is the only
/// way forward.
pub proof fn law_navigate_then_back(a: AppView, url: Seq<char>)
    requires
        0 <= a.active_tab < a.tabs.len(),
        a.tabs[a.active_tab].url.len() > 0,
        a.tabs[a.active_tab].url != url,
    ensures
        went_back(navigated(a, url)).tabs[a.active_tab].url == a.tabs[a.active_tab].url,
        went_back(navigated(a, url)).tabs[a.active_tab].back == a.tabs[a.active_tab].back,
        went_back(navigated(a, url)).tabs[a.active_tab].forward == seq![url],
{
    let n = navigated(a, url);
    assert(n.tabs[a.active_tab].back.drop_last() =~= a.tabs[a.active_tab].back);
    assert(Seq::<Seq<char>>::empty().push(url) =~= seq![url]);
}

/// Every URL that the browser navigates to is in its history afterwards,
/// and navigating never removes anything from the history.
pub proof fn law_history_records(a: AppView, url: Seq<char>)
    requires
        a.tabs.len() > 0,
    ensures
        navigated(a, url).history.contains(url),
        forall|u: Seq<char>| a.history.contains(u) ==> navigated(a, url).history.contains(u),
{
    if !a.history.contains(url) {
        assert(a.history.push(url)[a.history.len() as int] == url);
        assert forall|u: Seq<char>| a.history.contains(u) implies a.history.push(url).contains(u) by {
            let k = choose|k: int| 0 <= k < a.history.len() && a.history[k] == u;
            assert(a.history.push(url)[k] == u);
        }
    }
}

} // verus!
