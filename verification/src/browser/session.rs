//! The browser's connection to the network: one persistent session per
//! address, and distinct stream ids for the requests on it.
use super::network::{needs_new_connection, plan_for, plan_request};
use super::response::NetworkResponse;
use super::state::PageContent;
use crate::protocol::frame::{LmpMessage, PacketType, StreamIds};
use crate::protocol::lns::LnsResolver;
use crate::protocol::uri::LumiUri;
use vstd::prelude::*;

verus! {

/// The model of a session: the address it is connected to, if any, and
/// the stream id that its next request takes.
pub struct SessionView {
    pub current: Option<Seq<char>>,
    pub next_id: int,
}

/// The network worker's connection: the address of the open connection,
/// if there is one, and the stream ids of that connection.
pub struct Session {
    current: Option<String>,
    ids: StreamIds,
}

impl View for Session {
    type V = SessionView;

    closed spec fn view(&self) -> SessionView {
        SessionView {
            current: match self.current {
                Some(a) => Some(a@),
                None => None,
            },
            next_id: self.ids@,
        }
    }
}

/// What the worker does next for a request.
pub enum NetStep {
    /// The request cannot be made; the message says why.
    Fail(String),
    /// Open a connection to the address, for the host of the URI.
    Connect(LumiUri, String),
    /// Send the message, which carries the stream id, on the open
    /// connection.
    Send(u32, LmpMessage),
}

/// Whether `m` is the `GET` request for `uri` on stream `id`.
pub open spec fn is_request(m: LmpMessage, uri: Seq<char>, id: u32) -> bool {
    &&& m.packet_type == PacketType::Request
    &&& m.stream_id == id
    &&& m.header.uri@ == uri
    &&& m.header.method@ == "GET"@
    &&& m.header.status_code == 200
    &&& m.header.status_message@ == "OK"@
    &&& m.header.content_type@ == "text/lumiml"@
    &&& m.header.metadata@ == Map::<String, String>::empty()
    &&& m.payload@ == Seq::<u8>::empty()
}

/// Whether a request to `addr` goes on the open connection: it is open
/// to that address and has an unused stream id left.
pub open spec fn reuses(s: SessionView, addr: Seq<char>) -> bool {
    s.current == Some(addr) && s.next_id < u32::MAX
}

/// The session after a request to `addr` that does not fail, with the
/// stream id the request takes and whether a connection was opened for
/// it: the open connection is reused when it goes to `addr`, else a new
/// one is opened, whose first request takes id 1.
pub open spec fn after_request(s: SessionView, addr: Seq<char>) -> (SessionView, int, bool) {
    if reuses(s, addr) {
        (SessionView { next_id: s.next_id + 1, ..s }, s.next_id, false)
    } else {
        (SessionView { current: Some(addr), next_id: 2 }, 1, true)
    }
}

/// The session after `n` requests to `addr` that do not fail, with the
/// stream ids they took and how many connections were opened.
pub open spec fn after_requests(s: SessionView, addr: Seq<char>, n: nat) -> (
    SessionView,
    Seq<int>,
    nat,
)
    decreases n,
{
    if n == 0 {
        (s, Seq::empty(), 0)
    } else {
        let (s1, ids, opened) = after_requests(s, addr, (n - 1) as nat);
        let (s2, id, fresh) = after_request(s1, addr);
        (s2, ids.push(id), if fresh {
            opened + 1
        } else {
            opened
        })
    }
}

impl Session {
    /// A session with no connection.
    pub fn new() -> (r: Session)
        ensures
            r@.current is None,
            r@.next_id == 1,
    {
        Session { current: None, ids: StreamIds::new() }
    }

    /// The first step of a request for `url`: the failure when the URL
    /// cannot be planned; the message on the open connection, with the
    /// next stream id, when it goes to the URL's address; else a
    /// connection to open.
    pub fn begin(&mut self, lns: &LnsResolver, url: &str) -> (step: NetStep)
        ensures
            match plan_for(lns@, url@) {
                Err(m) => step matches NetStep::Fail(f) && f@ == m && final(self)@ == old(self)@,
                Ok((u, a)) => if reuses(old(self)@, a) {
                    &&& step matches NetStep::Send(id, msg) && id == old(self)@.next_id
                        && is_request(msg, url@, id)
                    &&& final(self)@ == after_request(old(self)@, a).0
                } else {
                    &&& step matches NetStep::Connect(v, b) && v@ == u && b@ == a
                    &&& final(self)@ == old(self)@
                },
            },
    {
        match plan_request(lns, url) {
            Err(m) => NetStep::Fail(m),
            Ok((uri, addr)) => {
                if !needs_new_connection(self.current.as_ref(), addr.as_str()) {
                    match self.ids.issue() {
                        Some(id) => NetStep::Send(id, LmpMessage::new_request(url, id)),
                        None => NetStep::Connect(uri, addr),
                    }
                } else {
                    NetStep::Connect(uri, addr)
                }
            },
        }
    }

    /// Records that a connection to `addr` was opened for a request for
    /// `url`, and gives that request's message: the new connection's
    /// first stream id, 1.
    pub fn connected(&mut self, addr: &str, url: &str) -> (r: (u32, LmpMessage))
        ensures
            !reuses(old(self)@, addr@) ==> final(self)@ == after_request(old(self)@, addr@).0,
            final(self)@.current == Some(addr@),
            final(self)@.next_id == 2,
            r.0 == 1,
            is_request(r.1, url@, 1),
    {
        self.current = Some(String::from_str(addr));
        self.ids = StreamIds::new();
        let id = match self.ids.issue() {
            Some(i) => i,
            None => 1,
        };
        (id, LmpMessage::new_request(url, id))
    }

    /// Records that opening a connection for a request failed, and gives
    /// the answer for the tab: the session has no connection afterwards.
    pub fn connect_failed(&mut self, tab_index: usize, url: &str, host: &str, error: &str) -> (r:
        NetworkResponse)
        ensures
            final(self)@ == (SessionView { current: None, ..old(self)@ }),
            r matches NetworkResponse::Error { tab_index: t, url: u, error: e } && t == tab_index
                && u@ == url@ && e@ == "TLS Connection failed to target '"@ + host@ + "': "@
                + error@,
    {
        self.current = None;
        let mut e = String::from_str("TLS Connection failed to target '");
        e.append(host);
        e.append("': ");
        e.append(error);
        NetworkResponse::Error { tab_index, url: String::from_str(url), error: e }
    }

    /// Records that sending a request failed, and gives the answer for
    /// the tab: the connection is dropped.
    pub fn write_failed(&mut self, tab_index: usize, url: &str, error: &str) -> (r: NetworkResponse)
        ensures
            final(self)@ == (SessionView { current: None, ..old(self)@ }),
            r matches NetworkResponse::Error { tab_index: t, url: u, error: e } && t == tab_index
                && u@ == url@ && e@ == "Write error: "@ + error@,
    {
        self.current = None;
        let mut e = String::from_str("Write error: ");
        e.append(error);
        NetworkResponse::Error { tab_index, url: String::from_str(url), error: e }
    }

    /// The answer for the tab once the response was read, or reading it
    /// failed: the payload and what it shows; or the read error, which
    /// drops the connection.
    pub fn answered(
        &mut self,
        tab_index: usize,
        url: &str,
        outcome: Result<(Vec<u8>, Result<PageContent, String>), String>,
    ) -> (r: NetworkResponse)
        ensures
            match outcome {
                Ok((p, c)) => {
                    &&& final(self)@ == old(self)@
                    &&& r matches NetworkResponse::Success {
                        tab_index: t,
                        url: u,
                        payload: q,
                        page_content: d,
                    } && t == tab_index && u@ == url@ && q == p && d == c
                },
                Err(m) => {
                    &&& final(self)@ == (SessionView { current: None, ..old(self)@ })
                    &&& r matches NetworkResponse::Error { tab_index: t, url: u, error: e }
                        && t == tab_index && u@ == url@ && e@ == "LMP Read Error: "@ + m@
                },
            },
    {
        match outcome {
            Ok((payload, page_content)) => NetworkResponse::Success {
                tab_index,
                url: String::from_str(url),
                payload,
                page_content,
            },
            Err(m) => {
                self.current = None;
                let mut e = String::from_str("LMP Read Error: ");
                e.append(m.as_str());
                NetworkResponse::Error { tab_index, url: String::from_str(url), error: e }
            },
        }
    }
}

/// RFC-0001's persistent session: requests to one address, none of them
/// failing, from a session that is not connected to it, open one
/// connection, and the stream ids they take are 1, 2, 3, ... and so
/// pairwise distinct (as long as ids last).
pub proof fn law_one_session_distinct_ids(s: SessionView, addr: Seq<char>, n: nat)
    requires
        s.current != Some(addr),
        n < u32::MAX,
    ensures
        ({
            let (t, ids, opened) = after_requests(s, addr, n);
            &&& n > 0 ==> opened == 1 && t == (SessionView { current: Some(addr), next_id: n as int + 1 })
            &&& ids.len() == n
            &&& forall|k: int| 0 <= k < n ==> #[trigger] ids[k] == k + 1
            &&& forall|i: int, j: int| 0 <= i < j < n ==> ids[i] != ids[j]
        }),
    decreases n,
{
    if n > 0 {
        law_one_session_distinct_ids(s, addr, (n - 1) as nat);
        let (t1, ids1, o1) = after_requests(s, addr, (n - 1) as nat);
        let (t, ids, opened) = after_requests(s, addr, n);
        assert(ids =~= ids1.push(after_request(t1, addr).1));
        assert forall|k: int| 0 <= k < n implies #[trigger] ids[k] == k + 1 by {
            if k < n - 1 {
                assert(ids[k] == ids1[k]);
            }
        }
        assert forall|i: int, j: int| 0 <= i < j < n implies ids[i] != ids[j] by {
            assert(ids[i] == i + 1);
            assert(ids[j] == j + 1);
        }
    }
}

} // verus!
