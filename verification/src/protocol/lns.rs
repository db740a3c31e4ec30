//! The Lumi Name Service: from `.lumi` host names to socket addresses.
use super::error::LmpError;
use crate::text::{chars_of, last_index_of, pairs_map};
use vstd::prelude::*;

verus! {

/// Resolves Lumi host names to `ip:port` addresses.
pub struct LnsResolver {
    records: Vec<(String, String)>,
}

/// The address of the local Lumi network server.
pub open spec fn local_server() -> Seq<char> {
    "127.0.0.1:9001"@
}

/// The hosts that the resolver knows from the start: the domains that the
/// Lumi network server serves, under `.lumi` and, for some, under the
/// older `.home`.
pub open spec fn default_hosts() -> Set<Seq<char>> {
    set![
        "welcome.lumi"@,
        "search.lumi"@,
        "docs.lumi"@,
        "chat.lumi"@,
        "gallery.lumi"@,
        "store.lumi"@,
        "docs.home"@,
        "chat.home"@,
        "gallery.home"@
    ]
}

/// A table that holds the default hosts at the local server resolves
/// each domain that the local server serves to it.
pub proof fn law_default_hosts_resolve(m: Map<Seq<char>, Seq<char>>)
    requires
        m.dom() == default_hosts(),
        forall|h: Seq<char>| #[trigger] m.contains_key(h) ==> m[h] == local_server(),
    ensures
        resolve_in(m, "welcome.lumi"@) == Some("127.0.0.1:9001"@),
        resolve_in(m, "search.lumi"@) == Some("127.0.0.1:9001"@),
        resolve_in(m, "docs.lumi"@) == Some("127.0.0.1:9001"@),
        resolve_in(m, "chat.lumi"@) == Some("127.0.0.1:9001"@),
        resolve_in(m, "gallery.lumi"@) == Some("127.0.0.1:9001"@),
        resolve_in(m, "store.lumi"@) == Some("127.0.0.1:9001"@),
        resolve_in(m, "docs.home"@) == Some("127.0.0.1:9001"@),
        resolve_in(m, "chat.home"@) == Some("127.0.0.1:9001"@),
        resolve_in(m, "gallery.home"@) == Some("127.0.0.1:9001"@),
{
    reveal_strlit("welcome.lumi");
    reveal_strlit("search.lumi");
    reveal_strlit("docs.lumi");
    reveal_strlit("chat.lumi");
    reveal_strlit("gallery.lumi");
    reveal_strlit("store.lumi");
    reveal_strlit("docs.home");
    reveal_strlit("chat.home");
    reveal_strlit("gallery.home");
    reveal_strlit("127.0.0.1:9001");
    assert(!"welcome.lumi"@.contains(':'));
    assert(default_hosts().contains("welcome.lumi"@));
    assert(!"search.lumi"@.contains(':'));
    assert(default_hosts().contains("search.lumi"@));
    assert(!"docs.lumi"@.contains(':'));
    assert(default_hosts().contains("docs.lumi"@));
    assert(!"chat.lumi"@.contains(':'));
    assert(default_hosts().contains("chat.lumi"@));
    assert(!"gallery.lumi"@.contains(':'));
    assert(default_hosts().contains("gallery.lumi"@));
    assert(!"store.lumi"@.contains(':'));
    assert(default_hosts().contains("store.lumi"@));
    assert(!"docs.home"@.contains(':'));
    assert(default_hosts().contains("docs.home"@));
    assert(!"chat.home"@.contains(':'));
    assert(default_hosts().contains("chat.home"@));
    assert(!"gallery.home"@.contains(':'));
    assert(default_hosts().contains("gallery.home"@));
}

/// How a host is resolved against a table of records: a host that already
/// names a port (it holds `:`) is its own address; any other host is
/// looked up.
pub open spec fn resolve_in(records: Map<Seq<char>, Seq<char>>, host: Seq<char>) -> Option<
    Seq<char>,
> {
    if host.contains(':') {
        Some(host)
    } else if records.contains_key(host) {
        Some(records[host])
    } else {
        None
    }
}

fn contains_colon(s: &str) -> (r: bool)
    ensures
        r == s@.contains(':'),
{
    let v = chars_of(s);
    let mut i: usize = 0;
    while i < v.len()
        invariant
            v@ == s@,
            i <= v@.len(),
            forall|j: int| 0 <= j < i ==> v@[j] != ':',
        decreases v.len() - i,
    {
        if v[i] == ':' {
            return true;
        }
        i = i + 1;
    }
    false
}

impl View for LnsResolver {
    type V = Map<Seq<char>, Seq<char>>;

    closed spec fn view(&self) -> Map<Seq<char>, Seq<char>> {
        pairs_map(self.records@)
    }
}

impl LnsResolver {
    fn add(&mut self, host: &str, addr: &str)
        ensures
            final(self)@ == old(self)@.insert(host@, addr@),
    {
        let ghost before = self.records@;
        self.records.push((String::from_str(host), String::from_str(addr)));
        assert(self.records@.drop_last() =~= before);
    }

    /// A resolver that knows the default hosts, each at the local server.
    pub fn new() -> (r: LnsResolver)
        ensures
            r@.dom() == default_hosts(),
            forall|h: Seq<char>| #[trigger] r@.contains_key(h) ==> r@[h] == local_server(),
            resolve_in(r@, "welcome.lumi"@) == Some("127.0.0.1:9001"@),
            resolve_in(r@, "search.lumi"@) == Some("127.0.0.1:9001"@),
            resolve_in(r@, "docs.lumi"@) == Some("127.0.0.1:9001"@),
            resolve_in(r@, "chat.lumi"@) == Some("127.0.0.1:9001"@),
            resolve_in(r@, "gallery.lumi"@) == Some("127.0.0.1:9001"@),
            resolve_in(r@, "store.lumi"@) == Some("127.0.0.1:9001"@),
            resolve_in(r@, "docs.home"@) == Some("127.0.0.1:9001"@),
            resolve_in(r@, "chat.home"@) == Some("127.0.0.1:9001"@),
            resolve_in(r@, "gallery.home"@) == Some("127.0.0.1:9001"@),
    {
        let mut r = LnsResolver { records: Vec::new() };
        let addr = "127.0.0.1:9001";
        r.add("welcome.lumi", addr);
        r.add("search.lumi", addr);
        r.add("docs.lumi", addr);
        r.add("chat.lumi", addr);
        r.add("gallery.lumi", addr);
        r.add("store.lumi", addr);
        r.add("docs.home", addr);
        r.add("chat.home", addr);
        r.add("gallery.home", addr);
        assert(r@.dom() =~= default_hosts());
        proof {
            law_default_hosts_resolve(r@);
        }
        r
    }

    /// The address of `host`: the host itself when it names a port, else
    /// the address recorded for it.
    pub fn resolve(&self, host: &str) -> (r: Result<String, LmpError>)
        ensures
            match r {
                Ok(a) => resolve_in(self@, host@) == Some(a@),
                Err(e) => {
                    &&& resolve_in(self@, host@) is None
                    &&& e matches LmpError::LnsResolutionFailed(h) && h@ == host@
                },
            },
    {
        if contains_colon(host) {
            return Ok(String::from_str(host));
        }
        match last_index_of(&self.records, host) {
            Some(i) => Ok(self.records[i].1.clone()),
            None => Err(LmpError::LnsResolutionFailed(String::from_str(host))),
        }
    }
}

impl Default for LnsResolver {
    /// The same resolver as `new`.
    fn default() -> (r: Self)
        ensures
            r@.dom() == default_hosts(),
            forall|h: Seq<char>| #[trigger] r@.contains_key(h) ==> r@[h] == local_server(),
            resolve_in(r@, "welcome.lumi"@) == Some("127.0.0.1:9001"@),
            resolve_in(r@, "search.lumi"@) == Some("127.0.0.1:9001"@),
            resolve_in(r@, "docs.lumi"@) == Some("127.0.0.1:9001"@),
            resolve_in(r@, "chat.lumi"@) == Some("127.0.0.1:9001"@),
            resolve_in(r@, "gallery.lumi"@) == Some("127.0.0.1:9001"@),
            resolve_in(r@, "store.lumi"@) == Some("127.0.0.1:9001"@),
            resolve_in(r@, "docs.home"@) == Some("127.0.0.1:9001"@),
            resolve_in(r@, "chat.home"@) == Some("127.0.0.1:9001"@),
            resolve_in(r@, "gallery.home"@) == Some("127.0.0.1:9001"@),
    {
        Self::new()
    }
}

} // verus!
