//! What the browser does with the network's answers.
use super::state::{
    log_time, log_times_fixed, logged, opt_chars, tab_views, texts, AppView, ContentView, LumiApp, PageContent, Tab, TabView,
};
use crate::lumiml::model::{ElementKind, Tree};
use crate::lumiml::node::{ElementType, LumiNode};
use crate::protocol::error::{decimal, push_decimal};
use crate::text::{chars_of, string_of_range};
use vstd::prelude::*;
use vstd::utf8::{decode_utf8, valid_utf8};

verus! {

/// The text that a byte sequence decodes to as UTF-8, with each invalid
/// sequence replaced by U+FFFD.
pub uninterp spec fn lossy_utf8(b: Seq<u8>) -> Seq<char>;

/// Calls `String::from_utf8_lossy`, which decodes `b` as UTF-8 and replaces
/// each invalid sequence with U+FFFD; its result is named `lossy_utf8`, and
/// on valid UTF-8 it is the decoded text.
#[verifier::external_body]
pub(crate) fn utf8_lossy(b: &[u8]) -> (s: String)
    ensures
        s@ == lossy_utf8(b@),
        valid_utf8(b@) ==> s@ == decode_utf8(b@),
{
    String::from_utf8_lossy(b).into_owned()
}

/// An answer from the network for a tab.
#[derive(Debug)]
pub enum NetworkResponse {
    Success {
        tab_index: usize,
        url: String,
        payload: Vec<u8>,
        page_content: Result<PageContent, String>,
    },
    Error { tab_index: usize, url: String, error: String },
}

/// The end of the line that starts at `i`: the index of its newline, or
/// the end of the text.
pub open spec fn line_end(s: Seq<char>, i: int) -> int
    decreases s.len() - i,
{
    if 0 <= i < s.len() && s[i] != '\n' {
        line_end(s, i + 1)
    } else {
        i
    }
}

/// The line that starts at `i`, without its line ending; a carriage return
/// is part of the ending only before a newline.
pub open spec fn line_text(s: Seq<char>, i: int) -> Seq<char> {
    let e = line_end(s, i);
    let l = s.subrange(i, e);
    if e < s.len() && l.len() > 0 && l.last() == '\r' {
        l.drop_last()
    } else {
        l
    }
}

pub open spec fn is_heading_line(l: Seq<char>) -> bool {
    l.len() >= 2 && l[0] == '#' && l[1] == ' '
}

/// A line ends at its first newline, or at the end of the text.
pub proof fn lemma_line_end_bounds(s: Seq<char>, i: int)
    requires
        0 <= i <= s.len(),
    ensures
        i <= line_end(s, i) <= s.len(),
        line_end(s, i) < s.len() ==> s[line_end(s, i)] == '\n',
        forall|j: int| i <= j < line_end(s, i) ==> s[j] != '\n',
    decreases s.len() - i,
{
    if 0 <= i < s.len() && s[i] != '\n' {
        lemma_line_end_bounds(s, i + 1);
    }
}

/// The first line, from the one that starts at `i` on, that starts with
/// `# `.
pub open spec fn heading_from(s: Seq<char>, i: int) -> Option<Seq<char>>
    decreases s.len() - i,
{
    if 0 <= i < s.len() {
        let l = line_text(s, i);
        if is_heading_line(l) {
            Some(l)
        } else {
            proof {
                lemma_line_end_bounds(s, i);
            }
            if line_end(s, i) < s.len() {
                heading_from(s, line_end(s, i) + 1)
            } else {
                None
            }
        }
    } else {
        None
    }
}

/// `l` without the `# ` markers at its start.
pub open spec fn strip_hashes(l: Seq<char>) -> Seq<char>
    decreases l.len(),
{
    if is_heading_line(l) {
        strip_hashes(l.skip(2))
    } else {
        l
    }
}

/// Taking the heading marks off a line drops only whole `# ` marks from
/// its front: what is left is the end of the line, an even number of
/// characters shorter, with `# ` pairs before it, and it does not start
/// with another mark.
pub proof fn law_strip_hashes_suffix(l: Seq<char>)
    ensures
        ({
            let t = strip_hashes(l);
            let k = l.len() - t.len();
            &&& 0 <= k <= l.len()
            &&& k % 2 == 0
            &&& l.skip(k) == t
            &&& forall|j: int| 0 <= j < k ==> #[trigger] l[j] == if j % 2 == 0 {
                '#'
            } else {
                ' '
            }
            &&& !is_heading_line(t)
        }),
    decreases l.len(),
{
    if is_heading_line(l) {
        let r = l.skip(2);
        law_strip_hashes_suffix(r);
        let t = strip_hashes(r);
        let k = l.len() - t.len();
        assert(l.skip(k) =~= r.skip(k - 2));
        assert forall|j: int| 0 <= j < k implies #[trigger] l[j] == if j % 2 == 0 {
            '#'
        } else {
            ' '
        } by {
            if j >= 2 {
                assert(l[j] == r[j - 2]);
            }
        }
    } else {
        assert(l.skip(0) =~= l);
    }
}

/// A Markdown text whose first line is `# ` and a text `t` is titled `t`,
/// every character of it, when `t` does not itself start with `# `, holds
/// no line break and does not end in a carriage return.
pub proof fn law_first_line_title(t: Seq<char>, rest: Seq<char>)
    requires
        !is_heading_line(t),
        forall|j: int| 0 <= j < t.len() ==> #[trigger] t[j] != '\n',
        t.len() > 0 ==> t.last() != '\r',
        rest.len() == 0 || rest[0] == '\n',
    ensures
        heading_from(seq!['#', ' '] + t + rest, 0) == Some(seq!['#', ' '] + t),
        strip_hashes(seq!['#', ' '] + t) == t,
{
    let l = seq!['#', ' '] + t;
    let s = l + rest;
    lemma_line_end_bounds(s, 0);
    assert forall|j: int| 0 <= j < l.len() implies s[j] != '\n' by {
        if j >= 2 {
            assert(s[j] == t[j - 2]);
        }
    }
    if line_end(s, 0) < l.len() {
        assert(s[line_end(s, 0)] == '\n');
    }
    if line_end(s, 0) > l.len() {
        assert(s[l.len() as int] == rest[0]);
    }
    assert(line_end(s, 0) == l.len());
    assert(s.subrange(0, l.len() as int) =~= l);
    if l.len() > 2 {
        assert(l.last() == t.last());
    }
    assert(line_text(s, 0) == l);
    assert(l.skip(2) =~= t);
    assert(is_heading_line(l));
    assert(strip_hashes(t) == t);
    assert(strip_hashes(l) == strip_hashes(l.skip(2)));
}

proof fn lemma_line_end_shift(p: Seq<char>, r: Seq<char>, i: int)
    requires
        0 <= i <= r.len(),
    ensures
        line_end(p + r, p.len() + i) == p.len() + line_end(r, i),
    decreases r.len() - i,
{
    let s = p + r;
    if i < r.len() {
        assert(s[p.len() + i] == r[i]);
        if r[i] != '\n' {
            lemma_line_end_shift(p, r, i + 1);
        }
    }
}

proof fn lemma_heading_from_shift(p: Seq<char>, r: Seq<char>, i: int)
    requires
        0 <= i <= r.len(),
    ensures
        heading_from(p + r, p.len() + i) == heading_from(r, i),
    decreases r.len() - i,
{
    let s = p + r;
    if i < r.len() {
        lemma_line_end_shift(p, r, i);
        lemma_line_end_bounds(r, i);
        let e = line_end(r, i);
        assert(s.subrange(p.len() + i, p.len() + e) =~= r.subrange(i, e));
        assert(line_text(s, p.len() + i) == line_text(r, i));
        if e < r.len() {
            lemma_heading_from_shift(p, r, e + 1);
        }
    }
}

/// A first line that is not a heading is passed over: the title comes
/// from the lines after it.
pub proof fn law_title_skips_plain_line(a: Seq<char>, rest: Seq<char>)
    requires
        forall|j: int| 0 <= j < a.len() ==> #[trigger] a[j] != '\n',
        a.len() == 0 || a[0] != '#',
    ensures
        heading_from(a + seq!['\n'] + rest, 0) == heading_from(rest, 0),
{
    let p = a + seq!['\n'];
    let s = p + rest;
    assert(a + seq!['\n'] + rest == s);
    lemma_line_end_bounds(s, 0);
    assert forall|j: int| 0 <= j < a.len() implies s[j] != '\n' by {
        assert(s[j] == a[j]);
    }
    assert(s[a.len() as int] == '\n');
    if line_end(s, 0) > a.len() {
        assert(s[a.len() as int] != '\n');
    }
    assert(line_end(s, 0) == a.len());
    assert(s.subrange(0, a.len() as int) =~= a);
    let l = line_text(s, 0);
    if l.len() >= 1 {
        assert(l[0] == a[0]);
    }
    assert(!is_heading_line(l));
    lemma_heading_from_shift(p, rest, 0);
}

/// The index of the first `title` element among `kids[i..]`, or the
/// number of kids.
pub open spec fn first_title_index(kids: Seq<Tree>, i: int) -> int
    decreases kids.len() - i,
{
    if 0 <= i < kids.len() {
        if kids[i].kind == ElementKind::Title {
            i
        } else {
            first_title_index(kids, i + 1)
        }
    } else {
        kids.len() as int
    }
}

/// A tab's title once a page has loaded. A LumiML page is titled by its
/// first `title` element's value, or else by that element's first child's
/// value, and keeps its old title when neither has one; with no `title`
/// element it is titled by its URL. A Markdown page is titled by its first
/// `# ` heading, or else by its URL.
pub open spec fn title_after(old_title: Seq<char>, url: Seq<char>, content: ContentView) -> Seq<char> {
    match content {
        ContentView::LumiMl(ast) => {
            let k = first_title_index(ast.children, 0);
            if 0 <= k < ast.children.len() {
                let t = ast.children[k];
                match t.value {
                    Some(v) => v,
                    None => if t.children.len() > 0 && t.children[0].value is Some {
                        t.children[0].value->0
                    } else {
                        old_title
                    },
                }
            } else {
                url
            }
        },
        ContentView::Markdown(md) => match heading_from(md, 0) {
            Some(l) => strip_hashes(l),
            None => url,
        },
    }
}

/// What the packet inspector shows of a payload.
pub open spec fn payload_summary(payload: Seq<u8>) -> Seq<char> {
    "[LMP Payload: "@ + decimal(payload.len()) + " bytes]\n\n"@ + lossy_utf8(payload)
}

/// A tab after its page loaded: the payload summary, and either the new
/// content and title or the error.
pub open spec fn tab_loaded(
    t: TabView,
    url: Seq<char>,
    payload: Seq<u8>,
    content: Result<ContentView, Seq<char>>,
) -> TabView {
    match content {
        Ok(c) => TabView {
            raw_payload: payload_summary(payload),
            title: title_after(t.title, url, c),
            content: Some(c),
            error: None,
            ..t
        },
        Err(e) => TabView {
            raw_payload: payload_summary(payload),
            error: Some(e),
            content: None,
            ..t
        },
    }
}

/// A tab after its page failed to load.
pub open spec fn tab_failed(t: TabView, error: Seq<char>) -> TabView {
    TabView { error: Some(error), content: None, ..t }
}

/// The model of a network answer.
pub enum ResponseView {
    Success { tab_index: int, url: Seq<char>, payload: Seq<u8>, content: Result<ContentView, Seq<char>> },
    Error { tab_index: int, url: Seq<char>, error: Seq<char> },
}

impl View for NetworkResponse {
    type V = ResponseView;

    open spec fn view(&self) -> ResponseView {
        match self {
            NetworkResponse::Success { tab_index, url, payload, page_content } => ResponseView::Success {
                tab_index: *tab_index as int,
                url: url@,
                payload: payload@,
                content: match page_content {
                    Ok(c) => Ok(c@),
                    Err(e) => Err(e@),
                },
            },
            NetworkResponse::Error { tab_index, url, error } => ResponseView::Error {
                tab_index: *tab_index as int,
                url: url@,
                error: error@,
            },
        }
    }
}

/// The browser after an answer: the tab it names, if there is one, shows
/// the page or the error, and the log records the answer.
pub open spec fn responded(a: AppView, r: ResponseView) -> AppView {
    match r {
        ResponseView::Success { tab_index, url, payload, content } => AppView {
            tabs: if 0 <= tab_index < a.tabs.len() {
                a.tabs.update(tab_index, tab_loaded(a.tabs[tab_index], url, payload, content))
            } else {
                a.tabs
            },
            logs: logged(a.logs, "Loaded "@ + url),
            ..a
        },
        ResponseView::Error { tab_index, url, error } => AppView {
            tabs: if 0 <= tab_index < a.tabs.len() {
                a.tabs.update(tab_index, tab_failed(a.tabs[tab_index], error))
            } else {
                a.tabs
            },
            logs: logged(a.logs, "Failed to load "@ + url + ": "@ + error),
            ..a
        },
    }
}

/// The title of a Markdown page: its first `# ` heading without the
/// markers, if it has one.
pub fn markdown_title(md: &str) -> (r: Option<String>)
    ensures
        match r {
            Some(t) => heading_from(md@, 0) matches Some(l) && t@ == strip_hashes(l),
            None => heading_from(md@, 0) is None,
        },
{
    let s = chars_of(md);
    let mut i: usize = 0;
    while i < s.len()
        invariant
            s@ == md@,
            i <= s@.len(),
            heading_from(s@, 0) == heading_from(s@, i as int),
        decreases s.len() - i,
    {
        let mut e = i;
        while e < s.len() && s[e] != '\n'
            invariant
                i <= e <= s@.len(),
                line_end(s@, i as int) == line_end(s@, e as int),
            decreases s.len() - e,
        {
            e = e + 1;
        }
        let mut end = e;
        if e < s.len() && end > i && s[end - 1] == '\r' {
            end = end - 1;
        }
        let ghost l = line_text(s@, i as int);
        assert(l =~= s@.subrange(i as int, end as int));
        if end - i >= 2 && s[i] == '#' && s[i + 1] == ' ' {
            let mut k = i;
            while end - k >= 2 && s[k] == '#' && s[k + 1] == ' '
                invariant
                    i <= k <= end <= s@.len(),
                    strip_hashes(l) == strip_hashes(s@.subrange(k as int, end as int)),
                decreases end - k,
            {
                assert(s@.subrange(k + 2, end as int) =~= s@.subrange(k as int, end as int).skip(2));
                k = k + 2;
            }
            return Some(string_of_range(s.as_slice(), k, end));
        }
        if e >= s.len() {
            return None;
        }
        i = e + 1;
    }
    None
}

fn first_title_position(page: &LumiNode) -> (r: usize)
    ensures
        r == first_title_index(page@.children, 0),
{
    let ghost v = page@.children;
    let mut i: usize = 0;
    while i < page.children.len()
        invariant
            i <= page.children@.len(),
            v == page@.children,
            first_title_index(v, 0) == first_title_index(v, i as int),
        decreases page.children.len() - i,
    {
        assert(v[i as int] == page.children@[i as int]@);
        if page.children[i].element_type == ElementType::Title {
            return i;
        }
        i = i + 1;
    }
    i
}

/// A tab's title once a page has loaded.
pub fn new_title(old_title: &String, url: &String, content: &PageContent) -> (r: String)
    ensures
        r@ == title_after(old_title@, url@, content@),
{
    match content {
        PageContent::LumiMl(ast) => {
            let k = first_title_position(ast);
            if k < ast.children.len() {
                let t = &ast.children[k];
                assert(ast@.children[k as int] == t@);
                assert(t@.value == crate::lumiml::node::opt_text(t.value));
                if t.children.len() > 0 {
                    assert(t@.children[0] == t.children@[0]@);
                }
                match &t.value {
                    Some(v) => v.clone(),
                    None => {
                        if t.children.len() > 0 {
                            match &t.children[0].value {
                                Some(v) => v.clone(),
                                None => old_title.clone(),
                            }
                        } else {
                            old_title.clone()
                        }
                    },
                }
            } else {
                url.clone()
            }
        },
        PageContent::Markdown(md) => match markdown_title(md.as_str()) {
            Some(t) => t,
            None => url.clone(),
        },
    }
}

fn payload_text(payload: &Vec<u8>) -> (r: String)
    ensures
        r@ == payload_summary(payload@),
{
    let mut r = String::from_str("[LMP Payload: ");
    push_decimal(&mut r, payload.len() as u64);
    r.append(" bytes]\n\n");
    let body = utf8_lossy(payload.as_slice());
    r.append(body.as_str());
    r
}

impl LumiApp {
    /// Takes in an answer from the network.
    pub fn process_response(&mut self, res: NetworkResponse)
        requires
            old(self).wf(),
        ensures
            final(self).wf(),
            final(self)@ == responded(old(self)@, res@),
            final(self).tabs@.len() == old(self).tabs@.len(),
            final(self).same_panels(old(self)),
            final(self).logs@.last().time@ == log_time(),
            log_times_fixed(old(self).logs@) ==> log_times_fixed(final(self).logs@),
    {
        let ghost r = res@;
        let ghost tabs0 = tab_views(self.tabs@);
        match res {
            NetworkResponse::Success { tab_index, url, payload, page_content } => {
                if tab_index < self.tabs.len() {
                    let mut tab = self.tabs.remove(tab_index);
                    let ghost t0 = tab@;
                    tab.raw_payload = payload_text(&payload);
                    match page_content {
                        Ok(content) => {
                            tab.title = new_title(&tab.title, &url, &content);
                            tab.content = Some(content);
                            tab.error = None;
                        },
                        Err(e) => {
                            tab.error = Some(e);
                            tab.content = None;
                        },
                    }
                    assert(tab@ == tab_loaded(t0, r->Success_url, r->Success_payload, r->Success_content));
                    self.tabs.insert(tab_index, tab);
                    assert(tab_views(self.tabs@) =~= tabs0.update(
                        tab_index as int,
                        tab_loaded(tabs0[tab_index as int], r->Success_url, r->Success_payload, r->Success_content),
                    ));
                }
                let mut msg = String::from_str("Loaded ");
                msg.append(url.as_str());
                self.log(msg.as_str());
            },
            NetworkResponse::Error { tab_index, url, error } => {
                if tab_index < self.tabs.len() {
                    let mut tab = self.tabs.remove(tab_index);
                    tab.error = Some(error.clone());
                    tab.content = None;
                    self.tabs.insert(tab_index, tab);
                    assert(tab_views(self.tabs@) =~= tabs0.update(
                        tab_index as int,
                        tab_failed(tabs0[tab_index as int], r->Error_error),
                    ));
                }
                let mut msg = String::from_str("Failed to load ");
                msg.append(url.as_str());
                msg.append(": ");
                msg.append(error.as_str());
                self.log(msg.as_str());
            },
        }
    }
}

} // verus!
